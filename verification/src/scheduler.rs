//! From a set of layouts to the units of work that run side by side.

use vstd::prelude::*;
use crate::layout::{
    desktop_launches, flat_launches, init_layout, init_layouts, launch_of, DesktopLayout,
    DesktopLayoutView, Launch, LaunchView,
};

verus! {

/// The desktops that run one after another, in their order.
pub open spec fn sync_part(layouts: Seq<DesktopLayoutView>) -> Seq<DesktopLayoutView> {
    layouts.filter(|l: DesktopLayoutView| !l.asynchronous)
}

/// The desktops that each run on their own, in their order.
pub open spec fn async_part(layouts: Seq<DesktopLayoutView>) -> Seq<DesktopLayoutView> {
    layouts.filter(|l: DesktopLayoutView| l.asynchronous)
}

/// The units of work of a set of layouts, in the order in which they are
/// started and awaited: first the one unit of all the desktops that run one
/// after another, then one unit for each desktop that runs on its own.
pub open spec fn plan_of(layouts: Seq<DesktopLayoutView>) -> Seq<Seq<LaunchView>> {
    seq![flat_launches(sync_part(layouts))] + async_part(layouts).map_values(
        |l: DesktopLayoutView| desktop_launches(l.desktop, l.programs),
    )
}

/// One more layout joins the end of the group it belongs to and leaves the
/// other group as it was.
pub proof fn lemma_parts_push(layouts: Seq<DesktopLayoutView>, last: DesktopLayoutView)
    ensures
        sync_part(layouts.push(last)) == if last.asynchronous {
            sync_part(layouts)
        } else {
            sync_part(layouts).push(last)
        },
        async_part(layouts.push(last)) == if last.asynchronous {
            async_part(layouts).push(last)
        } else {
            async_part(layouts)
        },
{
    layouts.lemma_filter_push(last, |l: DesktopLayoutView| !l.asynchronous);
    layouts.lemma_filter_push(last, |l: DesktopLayoutView| l.asynchronous);
}

/// Splits the layouts into those that run one after another and those that
/// run on their own, each group in the layouts' order.
pub fn split_layouts(layouts: Vec<DesktopLayout>) -> (groups: (
    Vec<DesktopLayout>,
    Vec<DesktopLayout>,
))
    ensures
        groups.0.deep_view() == sync_part(layouts.deep_view()),
        groups.1.deep_view() == async_part(layouts.deep_view()),
{
    let mut sync_layouts: Vec<DesktopLayout> = Vec::new();
    let mut async_layouts: Vec<DesktopLayout> = Vec::new();
    let ghost all = layouts.deep_view();
    for layout in it: layouts
        invariant
            it.seq() == layouts@,
            all == layouts.deep_view(),
            sync_layouts.deep_view() == sync_part(all.take(it.index())),
            async_layouts.deep_view() == async_part(all.take(it.index())),
    {
        proof {
            let seen = all.take(it.index());
            assert(all.take(it.index() + 1) =~= seen.push(layout@));
            lemma_parts_push(seen, layout@);
        }
        match layout.asynchronous {
            Some(true) => async_layouts.push(layout),
            _ => sync_layouts.push(layout),
        }
    }
    assert(all.take(all.len() as int) =~= all);
    (sync_layouts, async_layouts)
}

/// Lays out the work of a set of layouts as units that may run side by
/// side: first the one unit of all the desktops that run one after another,
/// then one unit for each desktop that runs on its own. Within a unit the
/// launches are made in the order given, each followed by its pause.
pub fn load_from_yaml(layouts: Vec<DesktopLayout>) -> (units: Vec<Vec<Launch>>)
    ensures
        units.deep_view() == plan_of(layouts.deep_view()),
{
    let ghost all = layouts.deep_view();
    let (sync_layouts, async_layouts) = split_layouts(layouts);
    let mut launchers: Vec<Vec<Launch>> = Vec::new();
    launchers.push(init_layouts(&sync_layouts));
    let ghost each = async_part(all).map_values(
        |l: DesktopLayoutView| desktop_launches(l.desktop, l.programs),
    );
    let mut i: usize = 0;
    while i < async_layouts.len()
        invariant
            i <= async_layouts.len(),
            async_layouts.deep_view() == async_part(all),
            each == async_part(all).map_values(
                |l: DesktopLayoutView| desktop_launches(l.desktop, l.programs),
            ),
            launchers.deep_view() == seq![flat_launches(sync_part(all))] + each.take(i as int),
        decreases async_layouts.len() - i,
    {
        let ghost before = launchers.deep_view();
        let unit = init_layout(&async_layouts[i]);
        let ghost added = unit.deep_view();
        launchers.push(unit);
        assert(launchers.deep_view() =~= before.push(added));
        i = i + 1;
    }
    launchers
}

/// How many programs the first `count` layouts hold together.
pub open spec fn programs_before(layouts: Seq<DesktopLayoutView>, count: int) -> int
    decreases count,
{
    if count <= 0 {
        0
    } else {
        programs_before(layouts, count - 1) + layouts[count - 1].programs.len()
    }
}

/// Desktops that run one after another launch in the order given: program
/// `j` of desktop `i` is launched after every program of the desktops
/// before `i` and after the first `j` programs of its own desktop, and
/// before everything that follows.
pub proof fn lemma_serial_launch_order(layouts: Seq<DesktopLayoutView>, i: int, j: int)
    requires
        0 <= i < layouts.len(),
        0 <= j < layouts[i].programs.len(),
    ensures
        0 <= programs_before(layouts, i) + j < flat_launches(layouts).len(),
        flat_launches(layouts)[programs_before(layouts, i) + j] == launch_of(
            layouts[i].desktop,
            layouts[i].programs[j],
        ),
        flat_launches(layouts).len() == programs_before(layouts, layouts.len() as int),
    decreases layouts.len(),
{
    let each = layouts.map_values(|l: DesktopLayoutView| desktop_launches(l.desktop, l.programs));
    let front = layouts.drop_last();
    let front_each = front.map_values(
        |l: DesktopLayoutView| desktop_launches(l.desktop, l.programs),
    );
    let last = layouts.last();
    assert(each =~= front_each.push(desktop_launches(last.desktop, last.programs)));
    front_each.lemma_flatten_push(desktop_launches(last.desktop, last.programs));
    lemma_programs_before_prefix(layouts, front, layouts.len() - 1);
    lemma_flat_launches_len(front);
    lemma_flat_launches_len(layouts);
    if i < layouts.len() - 1 {
        lemma_serial_launch_order(front, i, j);
        lemma_programs_before_prefix(layouts, front, i);
    }
}

/// Of two desktops that run one after another, every program of the
/// earlier one is launched before every program of the later one.
pub proof fn lemma_earlier_desktop_first(
    layouts: Seq<DesktopLayoutView>,
    i: int,
    j: int,
    k: int,
    l: int,
)
    requires
        0 <= i < k < layouts.len(),
        0 <= j < layouts[i].programs.len(),
        0 <= l < layouts[k].programs.len(),
    ensures
        programs_before(layouts, i) + j < programs_before(layouts, k) + l,
{
    lemma_programs_before_grows(layouts, i + 1, k);
}

/// The count of programs before a desktop does not shrink from one desktop
/// to a later one.
pub proof fn lemma_programs_before_grows(layouts: Seq<DesktopLayoutView>, i: int, k: int)
    requires
        0 <= i <= k <= layouts.len(),
    ensures
        programs_before(layouts, i) <= programs_before(layouts, k),
    decreases k - i,
{
    if i < k {
        lemma_programs_before_grows(layouts, i, k - 1);
    }
}

/// The launches of desktops that run one after another are as many as
/// their programs.
pub proof fn lemma_flat_launches_len(layouts: Seq<DesktopLayoutView>)
    ensures
        flat_launches(layouts).len() == programs_before(layouts, layouts.len() as int),
    decreases layouts.len(),
{
    if layouts.len() > 0 {
        let each = layouts.map_values(
            |l: DesktopLayoutView| desktop_launches(l.desktop, l.programs),
        );
        let front = layouts.drop_last();
        let front_each = front.map_values(
            |l: DesktopLayoutView| desktop_launches(l.desktop, l.programs),
        );
        let last = layouts.last();
        assert(each =~= front_each.push(desktop_launches(last.desktop, last.programs)));
        front_each.lemma_flatten_push(desktop_launches(last.desktop, last.programs));
        lemma_flat_launches_len(front);
        lemma_programs_before_prefix(layouts, front, layouts.len() - 1);
    }
}

/// Counting programs looks only at the layouts that are counted.
pub proof fn lemma_programs_before_prefix(
    layouts: Seq<DesktopLayoutView>,
    prefix: Seq<DesktopLayoutView>,
    count: int,
)
    requires
        0 <= count <= prefix.len() <= layouts.len(),
        forall|k: int| 0 <= k < prefix.len() ==> prefix[k] == layouts[k],
    ensures
        programs_before(prefix, count) == programs_before(layouts, count),
    decreases count,
{
    if count > 0 {
        lemma_programs_before_prefix(layouts, prefix, count - 1);
    }
}

/// Where every desktop runs after the one before it, there is one unit of
/// work, and it launches all programs in the order of the layouts.
pub proof fn lemma_all_serial_one_unit(layouts: Seq<DesktopLayoutView>)
    requires
        forall|i: int| 0 <= i < layouts.len() ==> !layouts[i].asynchronous,
    ensures
        plan_of(layouts) == seq![flat_launches(layouts)],
{
    lemma_all_serial_parts(layouts);
}

/// Where every desktop runs after the one before it, the programs are
/// launched in the order in which the layouts name them: there is one
/// unit, and program `j` of desktop `i` has its place in it behind all
/// programs of the desktops before `i` and the first `j` of its own.
pub proof fn lemma_all_serial_launch_order(layouts: Seq<DesktopLayoutView>, i: int, j: int)
    requires
        forall|k: int| 0 <= k < layouts.len() ==> !layouts[k].asynchronous,
        0 <= i < layouts.len(),
        0 <= j < layouts[i].programs.len(),
    ensures
        plan_of(layouts).len() == 1,
        plan_of(layouts)[0].len() == programs_before(layouts, layouts.len() as int),
        0 <= programs_before(layouts, i) + j < plan_of(layouts)[0].len(),
        plan_of(layouts)[0][programs_before(layouts, i) + j] == launch_of(
            layouts[i].desktop,
            layouts[i].programs[j],
        ),
{
    lemma_all_serial_one_unit(layouts);
    lemma_serial_launch_order(layouts, i, j);
}

/// Where every desktop runs after the one before it, all of them are in
/// the serial group and none runs on its own.
pub proof fn lemma_all_serial_parts(layouts: Seq<DesktopLayoutView>)
    requires
        forall|i: int| 0 <= i < layouts.len() ==> !layouts[i].asynchronous,
    ensures
        sync_part(layouts) == layouts,
        async_part(layouts).len() == 0,
    decreases layouts.len(),
{
    if layouts.len() == 0 {
        assert(sync_part(layouts) =~= layouts) by {
            layouts.lemma_filter_len(|l: DesktopLayoutView| !l.asynchronous);
        }
        assert(async_part(layouts).len() == 0) by {
            layouts.lemma_filter_len(|l: DesktopLayoutView| l.asynchronous);
        }
    } else {
        let front = layouts.drop_last();
        lemma_all_serial_parts(front);
        lemma_parts_push(front, layouts.last());
        assert(front.push(layouts.last()) =~= layouts);
    }
}

/// A desktop that runs on its own keeps the order of its programs: the
/// unit of the `k`-th such desktop launches that desktop's programs, one
/// launch for each, in their order.
pub proof fn lemma_async_unit_order(layouts: Seq<DesktopLayoutView>, k: int, j: int)
    requires
        0 <= k < async_part(layouts).len(),
        0 <= j < async_part(layouts)[k].programs.len(),
    ensures
        plan_of(layouts).len() == 1 + async_part(layouts).len(),
        plan_of(layouts)[k + 1].len() == async_part(layouts)[k].programs.len(),
        plan_of(layouts)[k + 1][j] == launch_of(
            async_part(layouts)[k].desktop,
            async_part(layouts)[k].programs[j],
        ),
{
}

} // verus!
