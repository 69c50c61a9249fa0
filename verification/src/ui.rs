//! The progress window's side of the wrapper: whether it is shown, how the
//! window's process is called, and how a progress text travels to it.
//!
//! The window is the wrapper itself, started once more with a hidden
//! subcommand. Each progress text is written to its standard input as one
//! line; the window shows the line it read last, trimmed.

use crate::text::{lemma_trimmed_ignores_trailing_whitespace, trim, trimmed};
use vstd::prelude::*;
use vstd::string::*;

verus! {

/// The hidden subcommand that makes the wrapper show the progress window.
pub const LAUNCH_UI_SUBCOMMAND: &'static str = "internal-launch-ui";

/// The flag that keeps the window's process from updating the wrapper.
pub const UPDATER_DISABLE_FLAG: &'static str = "--xlm-updater-disable";

/// Whether progress is shown.
#[derive(Debug, Clone, Copy, PartialEq, Eq, Structural)]
pub enum ProgressMode {
    /// No window is opened, and every progress text is dropped.
    Disabled,
    /// The window is opened in a process of its own.
    Window,
}

/// The window is not shown inside a snap, where it does not work.
pub fn progress_mode(inside_snap: bool) -> (r: ProgressMode)
    ensures
        r == if inside_snap {
            ProgressMode::Disabled
        } else {
            ProgressMode::Window
        },
{
    if inside_snap {
        ProgressMode::Disabled
    } else {
        ProgressMode::Window
    }
}

/// The arguments of the window's process.
pub open spec fn window_args(disable_updater: bool) -> Seq<Seq<char>> {
    if disable_updater {
        seq!["--xlm-updater-disable"@, "internal-launch-ui"@]
    } else {
        seq!["internal-launch-ui"@]
    }
}

/// The arguments with which the wrapper is started to show the window.
/// `disable_updater` is set where the wrapper updates itself at its start.
pub fn window_arguments(disable_updater: bool) -> (r: Vec<String>)
    ensures
        r@.map_values(|a: String| a@) == window_args(disable_updater),
{
    let mut args: Vec<String> = Vec::new();
    if disable_updater {
        args.push(UPDATER_DISABLE_FLAG.to_owned());
    }
    args.push(LAUNCH_UI_SUBCOMMAND.to_owned());
    args
}

/// The line that carries `text` to the window.
pub fn message_line(text: &str) -> (r: String)
    ensures
        r@ == text@.push('\n'),
{
    proof {
        reveal_strlit("\n");
    }
    let mut line = text.to_owned();
    line.append("\n");
    line
}

/// What is written to the window's process for a progress text: its line
/// where the window is shown, nothing where progress is disabled.
pub fn outgoing_line(mode: ProgressMode, text: &str) -> (r: Option<String>)
    ensures
        r.deep_view() == match mode {
            ProgressMode::Disabled => None::<Seq<char>>,
            ProgressMode::Window => Some(text@.push('\n')),
        },
{
    match mode {
        ProgressMode::Disabled => None,
        ProgressMode::Window => Some(message_line(text)),
    }
}

/// What the window shows for a line that it has read.
pub fn status_text(line: &str) -> (r: String)
    ensures
        r@ == trimmed(line@),
{
    trim(line)
}

/// The window shows each progress text as it was sent, but for whitespace at
/// its ends.
pub proof fn lemma_window_shows_message(text: Seq<char>)
    ensures
        trimmed(text.push('\n')) == trimmed(text),
{
    lemma_trimmed_ignores_trailing_whitespace(text, '\n');
}

} // verus!
