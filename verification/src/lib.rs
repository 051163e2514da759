//! Startup logic for a desktop application whose host framework invokes a
//! setup hook once, before its event loop starts. The hook's whole job is to
//! bring the primary webview window to the foreground: look the window up
//! under its registered label, and if it exists, show it and give it input
//! focus, exactly once each and in that order. A missing window is tolerated
//! silently.
//!
//! The host framework owns the window and performs the operations; this
//! library decides which operations are issued.

use vstd::prelude::*;

verus! {

/// An operation requested of the host framework's window handle.
#[derive(Clone, Copy, PartialEq, Eq, Structural, Debug)]
pub enum WindowCommand {
    /// Make the window visible.
    Show,
    /// Give the window input focus.
    SetFocus,
}

/// The label under which the application's primary webview window is
/// registered with the host framework.
pub fn main_window_label() -> (label: &'static str)
    ensures
        label@ == "main"@,
{
    "main"
}

/// What the setup hook does, given whether the primary window was found:
/// a found window is shown and then focused, exactly once each; a missing
/// window gets no command at all.
pub open spec fn setup_commands(window_found: bool) -> Seq<WindowCommand> {
    if window_found {
        seq![WindowCommand::Show, WindowCommand::SetFocus]
    } else {
        Seq::empty()
    }
}

/// Decide what the setup hook issues against the primary window. The
/// returned commands are performed in order by the caller that owns the
/// window handle. This decision always succeeds: a missing window yields no
/// commands rather than an error.
pub fn plan_setup(window_found: bool) -> (cmds: Vec<WindowCommand>)
    ensures
        cmds@ == setup_commands(window_found),
{
    let mut cmds: Vec<WindowCommand> = Vec::new();
    if window_found {
        cmds.push(WindowCommand::Show);
        cmds.push(WindowCommand::SetFocus);
    }
    proof {
        assert(cmds@ =~= setup_commands(window_found));
    }
    cmds
}

} // verus!
