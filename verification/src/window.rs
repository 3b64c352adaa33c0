//! What the window and the tray do when the user asks.

use crate::text::same_text;
use vstd::prelude::*;

verus! {

/// What an entry of the tray menu asks for.
#[derive(Clone, Copy, Debug, PartialEq, Eq, Structural)]
pub enum TrayCommand {
    /// Show the window and give it the focus.
    Show,
    /// End the program.
    Quit,
    /// Do nothing.
    Ignore,
}

/// What the menu entry with this name asks for.
pub fn tray_command(id: &str) -> (r: TrayCommand)
    ensures
        r == TrayCommand::Show <==> id@ == "show"@,
        r == TrayCommand::Quit <==> id@ == "quit"@,
{
    proof {
        reveal_strlit("show");
        reveal_strlit("quit");
        assert("show"@[0] == 's' && "quit"@[0] == 'q');
    }
    if same_text(id, "show") {
        TrayCommand::Show
    } else if same_text(id, "quit") {
        TrayCommand::Quit
    } else {
        TrayCommand::Ignore
    }
}

/// Whether toggling a window maximizes it: unless it is maximized now. Where that
/// is unknown, it counts as not maximized.
pub fn toggle_maximizes(is_maximized: Option<bool>) -> (r: bool)
    ensures
        r == (is_maximized != Some(true)),
{
    match is_maximized {
        Some(yes) => !yes,
        None => true,
    }
}

} // verus!
