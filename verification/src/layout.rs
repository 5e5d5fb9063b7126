//! Layouts: the programs of each desktop, and the launch requests that they
//! come to.

use vstd::prelude::*;

verus! {

/// One command to launch: a program's name, its arguments, and how long to
/// wait after it, counted in half seconds.
#[derive(Clone, Debug, PartialEq, Eq)]
pub struct Program {
    pub name: String,
    pub args: Option<Vec<String>>,
    pub delay: Option<u8>,
}

/// A `Program` as plain values. Absent arguments are no arguments.
pub struct ProgramView {
    pub name: Seq<char>,
    pub args: Seq<Seq<char>>,
    pub delay: Option<u8>,
}

impl View for Program {
    type V = ProgramView;

    open spec fn view(&self) -> ProgramView {
        ProgramView {
            name: self.name@,
            args: match self.args {
                Some(args) => args.deep_view(),
                None => Seq::empty(),
            },
            delay: self.delay,
        }
    }
}

impl DeepView for Program {
    type V = ProgramView;

    open spec fn deep_view(&self) -> ProgramView {
        self@
    }
}

/// The programs of one virtual desktop, in the order in which they start.
#[derive(Clone, Debug, PartialEq, Eq)]
pub struct DesktopLayout {
    pub desktop: String,
    pub asynchronous: Option<bool>,
    pub programs: Vec<Program>,
}

/// A `DesktopLayout` as plain values. An absent flag is `false`.
pub struct DesktopLayoutView {
    pub desktop: Seq<char>,
    pub asynchronous: bool,
    pub programs: Seq<ProgramView>,
}

impl View for DesktopLayout {
    type V = DesktopLayoutView;

    open spec fn view(&self) -> DesktopLayoutView {
        DesktopLayoutView {
            desktop: self.desktop@,
            asynchronous: self.asynchronous == Some(true),
            programs: self.programs.deep_view(),
        }
    }
}

impl DeepView for DesktopLayout {
    type V = DesktopLayoutView;

    open spec fn deep_view(&self) -> DesktopLayoutView {
        self@
    }
}

/// One launch request: the text `<desktop> <command>` and the pause that
/// follows the launch, in milliseconds.
#[derive(Clone, Debug, PartialEq, Eq)]
pub struct Launch {
    pub arg: String,
    pub pause_millis: u64,
}

/// A `Launch` as plain values.
pub struct LaunchView {
    pub arg: Seq<char>,
    pub pause_millis: int,
}

impl View for Launch {
    type V = LaunchView;

    open spec fn view(&self) -> LaunchView {
        LaunchView { arg: self.arg@, pause_millis: self.pause_millis as int }
    }
}

impl DeepView for Launch {
    type V = LaunchView;

    open spec fn deep_view(&self) -> LaunchView {
        self@
    }
}

/// The tokens one after another, a single space between neighbours.
pub open spec fn join_spaced(tokens: Seq<Seq<char>>) -> Seq<char>
    decreases tokens.len(),
{
    if tokens.len() == 0 {
        Seq::empty()
    } else if tokens.len() == 1 {
        tokens[0]
    } else {
        join_spaced(tokens.drop_last()) + seq![' '] + tokens.last()
    }
}

/// The shell command of a program: its name, then its arguments, joined by
/// single spaces.
pub open spec fn command_text(name: Seq<char>, args: Seq<Seq<char>>) -> Seq<char> {
    join_spaced(seq![name] + args)
}

/// The pause after a launch, in milliseconds: half a second for each unit
/// of delay, one second where no delay is given.
pub open spec fn pause_of(delay: Option<u8>) -> int {
    match delay {
        Some(times) => 500 * times,
        None => 1000,
    }
}

/// The launch request for `program` on `desktop`.
pub open spec fn launch_of(desktop: Seq<char>, program: ProgramView) -> LaunchView {
    LaunchView {
        arg: desktop + seq![' '] + command_text(program.name, program.args),
        pause_millis: pause_of(program.delay),
    }
}

/// The launch requests of one desktop: one for each program, in the
/// programs' order.
pub open spec fn desktop_launches(desktop: Seq<char>, programs: Seq<ProgramView>) -> Seq<
    LaunchView,
> {
    Seq::new(programs.len(), |i: int| launch_of(desktop, programs[i]))
}

/// The launch requests of several desktops run one after another: those of
/// the first desktop, then those of the second, and so on.
pub open spec fn flat_launches(layouts: Seq<DesktopLayoutView>) -> Seq<LaunchView> {
    layouts.map_values(|l: DesktopLayoutView| desktop_launches(l.desktop, l.programs)).flatten()
}

/// The pause that follows the launch of a program with this delay.
pub fn pause_millis(delay: Option<u8>) -> (millis: u64)
    ensures
        millis == pause_of(delay),
{
    match delay {
        Some(times) => 500 * (times as u64),
        None => 1000,
    }
}

/// The shell command of a program: its name and its arguments, joined by
/// single spaces. Absent arguments are no arguments.
pub fn make_cmd(prog_name: &str, args: &Option<Vec<String>>) -> (cmd: String)
    ensures
        cmd@ == command_text(
            prog_name@,
            match *args {
                Some(list) => list.deep_view(),
                None => Seq::empty(),
            },
        ),
{
    let mut cmd = String::from_str(prog_name);
    let ghost name = prog_name@;
    match args {
        Some(list) => {
            let ghost tokens = seq![name] + list.deep_view();
            let mut i: usize = 0;
            while i < list.len()
                invariant
                    i <= list.len(),
                    tokens == seq![name] + list.deep_view(),
                    cmd@ == join_spaced(tokens.take(i + 1)),
                decreases list.len() - i,
            {
                proof {
                    reveal_strlit(" ");
                    assert(tokens.take(i + 2).drop_last() == tokens.take(i + 1));
                }
                cmd.append(" ");
                cmd.append(list[i].as_str());
                i = i + 1;
            }
            assert(tokens.take(list.len() + 1) =~= tokens);
        },
        None => {},
    }
    cmd
}

/// The shell command and the delay of each program, in the programs' order.
pub fn get_progs(programs: &Vec<Program>) -> (progs: Vec<(String, Option<u8>)>)
    ensures
        progs.len() == programs.len(),
        forall|i: int|
            0 <= i < progs.len() ==> (#[trigger] progs[i]).0@ == command_text(
                programs[i]@.name,
                programs[i]@.args,
            ) && progs[i].1 == programs[i].delay,
{
    let mut progs: Vec<(String, Option<u8>)> = Vec::new();
    let mut i: usize = 0;
    while i < programs.len()
        invariant
            i <= programs.len(),
            progs.len() == i,
            forall|j: int|
                0 <= j < i ==> (#[trigger] progs[j]).0@ == command_text(
                    programs[j]@.name,
                    programs[j]@.args,
                ) && progs[j].1 == programs[j].delay,
        decreases programs.len() - i,
    {
        let prog = &programs[i];
        progs.push((make_cmd(prog.name.as_str(), &prog.args), prog.delay));
        i = i + 1;
    }
    progs
}

/// The launch requests that set up one desktop: for each program, in
/// order, the text `<desktop> <command>` and the pause that follows it.
pub fn set_up_desktop(desktop_name: &str, programs: &Vec<Program>) -> (launches: Vec<Launch>)
    ensures
        launches.deep_view() == desktop_launches(desktop_name@, programs.deep_view()),
{
    let progs = get_progs(programs);
    let mut launches: Vec<Launch> = Vec::new();
    let mut i: usize = 0;
    while i < progs.len()
        invariant
            i <= progs.len(),
            progs.len() == programs.len(),
            launches.len() == i,
            forall|j: int|
                0 <= j < progs.len() ==> (#[trigger] progs[j]).0@ == command_text(
                    programs[j]@.name,
                    programs[j]@.args,
                ) && progs[j].1 == programs[j].delay,
            forall|j: int|
                0 <= j < i ==> (#[trigger] launches[j])@ == launch_of(
                    desktop_name@,
                    programs[j]@,
                ),
        decreases progs.len() - i,
    {
        let mut arg = String::from_str(desktop_name);
        proof {
            reveal_strlit(" ");
        }
        arg.append(" ");
        arg.append(progs[i].0.as_str());
        let launch = Launch { arg, pause_millis: pause_millis(progs[i].1) };
        assert(launch@ =~= launch_of(desktop_name@, programs[i as int]@)) by {
            assert(launch.arg@ =~= launch_of(desktop_name@, programs[i as int]@).arg);
        }
        launches.push(launch);
        i = i + 1;
    }
    launches
}

/// The launch requests of one desktop layout.
pub fn init_layout(layout: &DesktopLayout) -> (launches: Vec<Launch>)
    ensures
        launches.deep_view() == desktop_launches(layout@.desktop, layout@.programs),
{
    set_up_desktop(layout.desktop.as_str(), &layout.programs)
}

/// The launch requests of several desktop layouts that run one after
/// another: all of the first desktop, then all of the second, and so on.
pub fn init_layouts(layouts: &Vec<DesktopLayout>) -> (launches: Vec<Launch>)
    ensures
        launches.deep_view() == flat_launches(layouts.deep_view()),
{
    let mut launches: Vec<Launch> = Vec::new();
    let ghost per_desktop = layouts.deep_view().map_values(
        |l: DesktopLayoutView| desktop_launches(l.desktop, l.programs),
    );
    let mut i: usize = 0;
    while i < layouts.len()
        invariant
            i <= layouts.len(),
            per_desktop == layouts.deep_view().map_values(
                |l: DesktopLayoutView| desktop_launches(l.desktop, l.programs),
            ),
            launches.deep_view() == per_desktop.take(i as int).flatten(),
        decreases layouts.len() - i,
    {
        let mut more = init_layout(&layouts[i]);
        launches.append(&mut more);
        proof {
            assert(per_desktop.take(i + 1) =~= per_desktop.take(i as int).push(per_desktop[i as int]));
            per_desktop.take(i as int).lemma_flatten_push(per_desktop[i as int]);
        }
        i = i + 1;
    }
    assert(per_desktop.take(layouts.len() as int) =~= per_desktop);
    launches
}

} // verus!
