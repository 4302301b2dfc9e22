//! What comes in from the platform, and what goes back out to it.

use crate::window::{WindowHandle, WindowSpec, WindowSpecView};
use vstd::prelude::*;

verus! {

/// The mouse button behind a click on the tray icon.
#[derive(Clone, Copy, Debug, PartialEq, Eq)]
pub enum MouseButton {
    Left,
    Right,
    Middle,
}

/// A point on the screen, in physical pixels.
#[derive(Clone, Copy, Debug, PartialEq, Eq)]
pub struct Position {
    pub x: i32,
    pub y: i32,
}

/// An event as the host hands it to the shell.
#[derive(Debug, PartialEq, Eq)]
pub enum Event {
    /// A menu item was selected; the payload is the item's id.
    MenuEvent(String),
    /// The tray icon was clicked.
    TrayClick { button: MouseButton, position: Position },
    /// The platform asks to close the window with this name.
    WindowCloseRequested(String),
}

/// Mathematical model of an [`Event`].
pub enum EventView {
    MenuEvent(Seq<char>),
    TrayClick { button: MouseButton, position: Position },
    WindowCloseRequested(Seq<char>),
}

impl View for Event {
    type V = EventView;

    open spec fn view(&self) -> EventView {
        match self {
            Event::MenuEvent(id) => EventView::MenuEvent(id@),
            Event::TrayClick { button, position } => EventView::TrayClick {
                button: *button,
                position: *position,
            },
            Event::WindowCloseRequested(name) => EventView::WindowCloseRequested(name@),
        }
    }
}

/// One thing the host has to do to the platform, in the order given.
///
/// The shell has already applied the action to its own model when it hands
/// the action out. Platform calls that fail are to be ignored by the host.
#[derive(Debug, PartialEq, Eq)]
pub enum Action {
    /// Construct the window from its specification.
    Create { window: WindowHandle, spec: WindowSpec },
    /// Show the window, restore it if minimized, give it the input focus.
    ShowAndFocus(WindowHandle),
    /// Take the window off screen without destroying it.
    Hide(WindowHandle),
    /// Keep the pending close request from destroying the window.
    PreventClose(WindowHandle),
    /// End the process at once with this exit code.
    Exit(i32),
}

/// Mathematical model of an [`Action`].
pub enum ActionView {
    Create { window: Seq<char>, spec: WindowSpecView },
    ShowAndFocus(Seq<char>),
    Hide(Seq<char>),
    PreventClose(Seq<char>),
    Exit(i32),
}

impl View for Action {
    type V = ActionView;

    open spec fn view(&self) -> ActionView {
        match self {
            Action::Create { window, spec } => ActionView::Create { window: window@, spec: spec@ },
            Action::ShowAndFocus(window) => ActionView::ShowAndFocus(window@),
            Action::Hide(window) => ActionView::Hide(window@),
            Action::PreventClose(window) => ActionView::PreventClose(window@),
            Action::Exit(code) => ActionView::Exit(*code),
        }
    }
}

/// The models of a sequence of actions, one by one.
pub open spec fn action_views(actions: Seq<Action>) -> Seq<ActionView> {
    actions.map_values(|a: Action| a@)
}

/// The exit code of the first action that ends the process, if any does.
pub open spec fn exit_requested(actions: Seq<ActionView>) -> Option<i32>
    decreases actions.len(),
{
    if actions.len() == 0 {
        None
    } else {
        match actions[0] {
            ActionView::Exit(code) => Some(code),
            _ => exit_requested(actions.drop_first()),
        }
    }
}

/// Finds the exit code of the first action that ends the process.
pub fn requested_exit(actions: &Vec<Action>) -> (code: Option<i32>)
    ensures
        code == exit_requested(action_views(actions@)),
{
    let ghost all = action_views(actions@);
    assert(all.subrange(0, all.len() as int) =~= all);
    let mut i: usize = 0;
    while i < actions.len()
        invariant
            i <= actions.len(),
            all == action_views(actions@),
            exit_requested(all) == exit_requested(all.subrange(i as int, all.len() as int)),
        decreases actions.len() - i,
    {
        let ghost rest = all.subrange(i as int, all.len() as int);
        assert(rest[0] == actions[i as int]@);
        assert(rest.drop_first() =~= all.subrange(i + 1, all.len() as int));
        match &actions[i] {
            Action::Exit(code) => {
                return Some(*code);
            },
            _ => {},
        }
        i += 1;
    }
    assert(all.subrange(i as int, all.len() as int).len() == 0);
    None
}

} // verus!
