//! The window manager's command channel: where its pipe is found and which
//! lines are appended to it.

use std::path::PathBuf;
use vstd::prelude::*;
use xdg::{BaseDirectories, BaseDirectoriesError};
use crate::codes::CHANNEL_UNAVAILABLE;
use crate::step::{Step, StepView};
use crate::text::{ends_with, has_suffix};

verus! {

/// The base directories of the XDG convention, as the `xdg` crate found
/// them in the environment.
#[verifier::external_type_specification]
#[verifier::external_body]
pub struct ExBaseDirectories(xdg::BaseDirectories);

/// The reason why the `xdg` crate found no base directories.
#[verifier::external_type_specification]
#[verifier::external_body]
pub struct ExBaseDirectoriesError(xdg::BaseDirectoriesError);

/// The text of a path: what `std::path::Path::to_string_lossy` gives for
/// it.
pub uninterp spec fn path_text(path: PathBuf) -> Seq<char>;

/// The prefix that base directories were made with: what was handed as
/// the prefix to `xdg::BaseDirectories::with_prefix` or `with_profile`.
pub uninterp spec fn prefix_of(dirs: BaseDirectories) -> Seq<char>;

/// The profile that base directories were made with: what was handed as
/// the profile to `xdg::BaseDirectories::with_profile`, and nothing where
/// they were made by `with_prefix`. The `xdg` crate looks up every path of
/// the user below the prefix and then the profile.
pub uninterp spec fn profile_of(dirs: BaseDirectories) -> Seq<char>;

/// Whether `name` is the plain name of a file or a directory: not empty,
/// with no slash at its start and none at its end.
pub open spec fn plain_name(name: Seq<char>) -> bool {
    name.len() > 0 && name[0] != '/' && name.last() != '/'
}

/// The name of the command pipe below the runtime directory: the window
/// manager's own directory, then the pipe.
pub open spec fn cmd_file_tail() -> Seq<char> {
    "leftwm/command-0.pipe"@
}

/// Whether `file` can be what looking for the command pipe gave: no pipe,
/// or a path that names the pipe.
pub open spec fn looked_up(file: Option<PathBuf>) -> bool {
    file matches Some(path) ==> ends_with(path_text(path), cmd_file_tail())
}

/// Calls `xdg::BaseDirectories::with_prefix`, which reads the base
/// directories from the environment. Whether it finds them depends on the
/// environment alone; where it does, they carry the prefix that was handed
/// in and no profile.
#[verifier::external_body]
fn base_directories(prefix: &str) -> (dirs: Result<BaseDirectories, BaseDirectoriesError>)
    ensures
        dirs matches Ok(found) ==> prefix_of(found) == prefix@ && profile_of(found).len() == 0,
{
    BaseDirectories::with_prefix(prefix)
}

/// Calls `xdg::BaseDirectories::find_runtime_file`, which looks for an
/// existing file of that name below the runtime directory. Whether it
/// finds one depends on what is on disk. The path that it hands back is
/// the runtime directory, the prefix, the profile and the name joined as
/// paths are: for directories without a profile, a plain prefix and a
/// plain name it ends with the prefix, a slash and the name.
#[verifier::external_body]
fn find_runtime_file(dirs: &BaseDirectories, file_name: &str) -> (found: Option<PathBuf>)
    ensures
        found matches Some(path) ==> (profile_of(*dirs).len() == 0 && plain_name(prefix_of(*dirs))
            && plain_name(file_name@) ==> ends_with(
            path_text(path),
            prefix_of(*dirs) + seq!['/'] + file_name@,
        )),
{
    dirs.find_runtime_file(file_name)
}

/// Calls `std::path::Path::to_string_lossy`, which gives the text of a
/// path.
#[verifier::external_body]
fn path_string(path: &PathBuf) -> (text: String)
    ensures
        text@ == path_text(*path),
{
    path.to_string_lossy().into_owned()
}

/// Whether `path` names the command pipe: whether its text ends with the
/// window manager's directory and the pipe's name.
pub fn is_cmd_file(path: &PathBuf) -> (named: bool)
    ensures
        named == ends_with(path_text(*path), cmd_file_tail()),
{
    let text = path_string(path);
    has_suffix(text.as_str(), "leftwm/command-0.pipe")
}

/// The command pipe in the base directories `dirs`, where it is found at
/// this moment. Directories that were not found hold no pipe; a pipe that
/// is found has the pipe's name, and in directories without a profile it
/// lies right below the directories' prefix.
pub fn cmd_file_in(dirs: Result<BaseDirectories, BaseDirectoriesError>) -> (file: Option<PathBuf>)
    ensures
        dirs is Err ==> file is None,
        file matches Some(path) ==> dirs matches Ok(found) && (profile_of(found).len() == 0
            && plain_name(prefix_of(found)) ==> ends_with(
            path_text(path),
            prefix_of(found) + "/command-0.pipe"@,
        )),
{
    match dirs {
        Ok(run_dir) => {
            proof {
                reveal_strlit("command-0.pipe");
                reveal_strlit("/command-0.pipe");
                assert(seq!['/'] + "command-0.pipe"@ =~= "/command-0.pipe"@);
                assert(prefix_of(run_dir) + seq!['/'] + "command-0.pipe"@ =~= prefix_of(run_dir)
                    + "/command-0.pipe"@);
            }
            find_runtime_file(&run_dir, "command-0.pipe")
        },
        Err(_) => None,
    }
}

/// The window manager's command pipe, where it is found at this moment:
/// the file `command-0.pipe` in the directory `leftwm` below the runtime
/// directory. Whether there is one depends on the environment and on what
/// is on disk.
pub fn get_cmd_file() -> (file: Option<PathBuf>)
    ensures
        looked_up(file),
{
    proof {
        reveal_strlit("leftwm");
        reveal_strlit("/command-0.pipe");
        reveal_strlit("leftwm/command-0.pipe");
        assert("leftwm"@ + "/command-0.pipe"@ =~= "leftwm/command-0.pipe"@);
    }
    cmd_file_in(base_directories("leftwm"))
}

/// The line that switches the first monitor's focus to the tag `tag`.
pub open spec fn focus_text(tag: Seq<char>) -> Seq<char> {
    "SendWorkspaceToTag 0 "@ + tag
}

/// The line that moves the focused window to the tag `tag`.
pub open spec fn move_text(tag: Seq<char>) -> Seq<char> {
    "SendWindowToTag "@ + tag
}

/// The line that closes the focused window.
pub open spec fn close_text() -> Seq<char> {
    "CloseWindow"@
}

/// What sending the command `cmd` comes to, given where the command pipe
/// was found: the command and a line feed are to be appended to the pipe
/// as one line; without a pipe the command ends with the channel's failure
/// code.
pub open spec fn sent(file: Option<PathBuf>, cmd: Seq<char>) -> StepView {
    match file {
        Some(path) => StepView::Write { path, line: cmd + seq!['\n'], then: None },
        None => StepView::Done(CHANNEL_UNAVAILABLE),
    }
}

/// The line that switches the first monitor's focus to the tag `tag`.
pub fn focus_line(tag: &str) -> (line: String)
    ensures
        line@ == focus_text(tag@),
{
    let mut line = String::from_str("SendWorkspaceToTag 0 ");
    line.append(tag);
    line
}

/// The line that moves the focused window to the tag `tag`.
pub fn move_line(tag: &str) -> (line: String)
    ensures
        line@ == move_text(tag@),
{
    let mut line = String::from_str("SendWindowToTag ");
    line.append(tag);
    line
}

/// Prepares the command `cmd` for the command pipe `file`: the command
/// and a line feed, to be appended as one line. Without a pipe the command
/// has failed.
pub fn send_cmd_to(file: Option<PathBuf>, cmd: &str) -> (step: Step)
    ensures
        step@ == sent(file, cmd@),
{
    match file {
        Some(path) => {
            let mut line = String::from_str(cmd);
            proof {
                reveal_strlit("\n");
            }
            line.append("\n");
            assert(line@ =~= cmd@ + seq!['\n']);
            Step::Write { path, line, then: None }
        },
        None => Step::Done(CHANNEL_UNAVAILABLE),
    }
}

/// Looks for the command pipe and prepares the command `cmd` for it.
pub fn send_cmd(cmd: &str) -> (step: Step)
    ensures
        exists|file: Option<PathBuf>| looked_up(file) && step@ == #[trigger] sent(file, cmd@),
{
    send_cmd_to(get_cmd_file(), cmd)
}

/// Moves the focused window to the tag `args`.
pub fn move_to(args: &str) -> (step: Step)
    ensures
        exists|file: Option<PathBuf>|
            looked_up(file) && step@ == #[trigger] sent(file, move_text(args@)),
{
    send_cmd(move_line(args).as_str())
}

/// Closes the focused window.
pub fn close_focused() -> (step: Step)
    ensures
        exists|file: Option<PathBuf>|
            looked_up(file) && step@ == #[trigger] sent(file, close_text()),
{
    let step = send_cmd("CloseWindow");
    proof {
        let file = choose|file: Option<PathBuf>|
            looked_up(file) && step@ == #[trigger] sent(file, "CloseWindow"@);
        assert(step@ == sent(file, close_text()));
    }
    step
}

/// Switches the first monitor's focus to the tag `args`.
pub fn focus_on(args: &str) -> (step: Step)
    ensures
        exists|file: Option<PathBuf>|
            looked_up(file) && step@ == #[trigger] sent(file, focus_text(args@)),
{
    send_cmd(focus_line(args).as_str())
}

} // verus!
