//! Visibility of the main window.
//!
//! The window belongs to the application's runtime. This module never holds
//! it: the caller looks it up under [`main_window_label`] at the moment of
//! the call, hands in what it found, and carries out the actions it gets back.

use vstd::prelude::*;

use crate::error::CommandError;

verus! {

/// Whether the main window is on screen.
#[derive(Clone, Copy, Debug, PartialEq, Eq, Structural, Hash)]
pub enum Visibility {
    Hidden,
    Visible,
}

/// A request to the window that the caller carries out.
#[derive(Clone, Copy, Debug, PartialEq, Eq, Structural, Hash)]
pub enum WindowAction {
    Show,
    Focus,
}

/// What happened at the tray icon. Where the pointer was and how large the
/// icon is play no part in what follows, so they are not kept.
#[derive(Clone, Copy, Debug, PartialEq, Eq, Structural, Hash)]
pub enum TrayEvent {
    LeftClick,
    RightClick,
    DoubleClick,
    Other,
}

/// The main window as found by a lookup.
#[derive(Clone, Copy, Debug, PartialEq, Eq, Structural, Hash)]
pub struct MainWindow {
    pub visibility: Visibility,
    /// Whether the window can be asked to take the input focus.
    pub focusable: bool,
}

/// The outcome of revealing the main window.
#[derive(Debug, PartialEq, Eq)]
pub struct Reveal {
    /// The window as it is once the actions are carried out.
    pub window: MainWindow,
    /// Whether this reveal took the window from hidden to visible.
    pub transitioned: bool,
    /// What the caller asks of the window, in this order.
    pub actions: Vec<WindowAction>,
}

/// The requests that reveal a window: show it, then, where asked for, give it
/// the focus.
pub open spec fn reveal_actions(focus: bool) -> Seq<WindowAction> {
    if focus {
        seq![WindowAction::Show, WindowAction::Focus]
    } else {
        seq![WindowAction::Show]
    }
}

/// The number of hidden-to-visible transitions in the step from `before` to
/// `after`.
pub open spec fn transitions(before: MainWindow, after: MainWindow) -> nat {
    if before.visibility == Visibility::Hidden && after.visibility == Visibility::Visible {
        1
    } else {
        0
    }
}

impl MainWindow {
    /// The window after a reveal: visible, and otherwise as before.
    pub open spec fn revealed(self) -> MainWindow {
        MainWindow { visibility: Visibility::Visible, focusable: self.focusable }
    }

    /// Reveals the window. The focus is requested where the window supports
    /// it, and in any case where `explicit_focus` is set. A window that is
    /// visible already stays so; nothing here ever hides one.
    pub fn unveil(self, explicit_focus: bool) -> (outcome: Reveal)
        ensures
            outcome.window == self.revealed(),
            outcome.transitioned == (transitions(self, self.revealed()) == 1),
            outcome.actions@ == reveal_actions(explicit_focus || self.focusable),
    {
        let mut actions: Vec<WindowAction> = Vec::new();
        actions.push(WindowAction::Show);
        if explicit_focus || self.focusable {
            actions.push(WindowAction::Focus);
        }
        let transitioned = match self.visibility {
            Visibility::Hidden => true,
            Visibility::Visible => false,
        };
        Reveal {
            window: MainWindow { visibility: Visibility::Visible, focusable: self.focusable },
            transitioned,
            actions,
        }
    }
}

/// A second reveal finds nothing left to do. It changes nothing and makes no
/// transition, so two reveals in a row that start from a hidden window make
/// exactly one transition to visible between them. A reveal never hides.
pub proof fn lemma_reveal_twice(window: MainWindow)
    ensures
        window.revealed().visibility == Visibility::Visible,
        window.revealed().revealed() == window.revealed(),
        transitions(window.revealed(), window.revealed().revealed()) == 0,
        window.visibility == Visibility::Hidden ==> transitions(window, window.revealed())
            + transitions(window.revealed(), window.revealed().revealed()) == 1,
{
}

/// The name under which the main window is looked up.
pub fn main_window_label() -> (label: &'static str)
    ensures
        label@ == "main"@,
{
    "main"
}

/// The command that reveals the main window. `window` is what the lookup
/// under [`main_window_label`] found.
pub fn show_main_window(window: Option<MainWindow>) -> (res: Result<Reveal, CommandError>)
    ensures
        match window {
            Some(w) => {
                &&& res matches Ok(outcome)
                &&& outcome.window == w.revealed()
                &&& outcome.transitioned == (transitions(w, w.revealed()) == 1)
                &&& outcome.actions@ == reveal_actions(w.focusable)
            },
            None => res == Err::<Reveal, CommandError>(CommandError::WindowNotFound),
        },
{
    match window {
        Some(w) => Ok(w.unveil(false)),
        None => Err(CommandError::WindowNotFound),
    }
}

/// Reacts to an event at the tray icon. A left click reveals the main window
/// and asks for the focus outright; every other event is ignored, whether or
/// not there is a main window.
pub fn on_tray_event(event: TrayEvent, window: Option<MainWindow>) -> (res: Result<
    Option<Reveal>,
    CommandError,
>)
    ensures
        event != TrayEvent::LeftClick ==> res == Ok::<Option<Reveal>, CommandError>(None),
        event == TrayEvent::LeftClick ==> match window {
            Some(w) => {
                &&& res matches Ok(Some(outcome))
                &&& outcome.window == w.revealed()
                &&& outcome.transitioned == (transitions(w, w.revealed()) == 1)
                &&& outcome.actions@ == reveal_actions(true)
            },
            None => res == Err::<Option<Reveal>, CommandError>(CommandError::WindowNotFound),
        },
{
    match event {
        TrayEvent::LeftClick => match window {
            Some(w) => Ok(Some(w.unveil(true))),
            None => Err(CommandError::WindowNotFound),
        },
        _ => Ok(None),
    }
}

} // verus!
