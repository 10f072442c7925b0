//! The tray menu, the close button and the quit procedure.

use vstd::prelude::*;

use super::harness::{HarnessLifecycle, HarnessPhase};
use crate::text::str_eq;

verus! {

/// What a tray menu item does.
#[derive(Clone, Copy, PartialEq, Eq, Structural)]
pub enum TrayMenuAction {
    /// Show, restore and focus the main window.
    Show,
    /// Quit the application.
    Quit,
    /// An unknown item: nothing.
    Nothing,
}

/// The action of a tray menu item, by its id.
pub fn tray_menu_action(id: &str) -> (r: TrayMenuAction)
    ensures
        id@ == "show"@ ==> r == TrayMenuAction::Show,
        id@ == "quit"@ ==> r == TrayMenuAction::Quit,
        id@ != "show"@ && id@ != "quit"@ ==> r == TrayMenuAction::Nothing,
{
    proof {
        reveal_strlit("show");
        reveal_strlit("quit");
        assert("quit"@[0] != "show"@[0]);
    }
    if str_eq(id, "show") {
        TrayMenuAction::Show
    } else if str_eq(id, "quit") {
        TrayMenuAction::Quit
    } else {
        TrayMenuAction::Nothing
    }
}

/// What a quit does.
#[derive(Clone, Copy, PartialEq, Eq, Structural)]
pub enum QuitPlan {
    /// A quit is already under way: nothing more.
    AlreadyExiting,
    /// Stop `dsh` (a failure is only logged), then exit.
    StopThenExit,
    /// Exit at once.
    Exit,
}

/// Whether the lifecycle still maintains a `dsh` instance.
pub open spec fn has_dsh<P>(l: HarnessLifecycle<P>) -> bool {
    l.process is Some || l.phase != HarnessPhase::Stopped
}

/// What a quit does, given whether a quit had already begun.
pub open spec fn quit_plan<P>(exiting: bool, l: HarnessLifecycle<P>) -> QuitPlan {
    if exiting {
        QuitPlan::AlreadyExiting
    } else if has_dsh(l) {
        QuitPlan::StopThenExit
    } else {
        QuitPlan::Exit
    }
}

/// The quit procedure: only the first quit proceeds, and it stops `dsh`
/// first when an instance is maintained. The flag is set either way.
pub fn quit_app<P>(exiting: &mut bool, lifecycle: &HarnessLifecycle<P>) -> (r: QuitPlan)
    ensures
        *final(exiting),
        r == quit_plan(*old(exiting), *lifecycle),
{
    let was = *exiting;
    *exiting = true;
    if was {
        return QuitPlan::AlreadyExiting;
    }
    if lifecycle.process.is_some() || lifecycle.phase != HarnessPhase::Stopped {
        QuitPlan::StopThenExit
    } else {
        QuitPlan::Exit
    }
}

/// Quitting is idempotent: once a quit has begun (the flag it sets is set),
/// every later quit does nothing, whatever the lifecycle.
pub proof fn law_second_quit_does_nothing<P>(l: HarnessLifecycle<P>)
    ensures
        quit_plan(true, l) == QuitPlan::AlreadyExiting,
{
}

/// What a quit does, in terms of the lifecycle: a quit already under way
/// does nothing more; a first quit stops `dsh` before exiting whenever the
/// lifecycle holds a process or is not `Stopped` (starting, running or
/// stopping), and exits at once only when no process is held and the phase is
/// `Stopped`.
pub proof fn law_first_quit_stops_a_maintained_dsh<P>(exiting: bool, l: HarnessLifecycle<P>)
    ensures
        exiting ==> quit_plan(exiting, l) == QuitPlan::AlreadyExiting,
        !exiting && (l.process is Some || l.phase != HarnessPhase::Stopped) ==> quit_plan(
            exiting,
            l,
        ) == QuitPlan::StopThenExit,
        !exiting && l.process is None && l.phase == HarnessPhase::Stopped ==> quit_plan(exiting, l)
            == QuitPlan::Exit,
        quit_plan(exiting, l) == QuitPlan::Exit ==> !exiting && l.process is None && l.phase
            == HarnessPhase::Stopped,
{
}

/// What the close button of the main window does: the window is hidden to the
/// tray, and `dsh` keeps running.
#[derive(Clone, Copy, PartialEq, Eq, Structural)]
pub enum CloseAction {
    PreventAndHide,
}

/// A close request of the main window never closes it.
pub fn on_close_requested() -> (r: CloseAction)
    ensures
        r == CloseAction::PreventAndHide,
{
    CloseAction::PreventAndHide
}

} // verus!
