//! Close interception: a close request hides a guarded window instead of
//! destroying it.
//!
//! A close request is settled within the one step that handles it. A guarded
//! window goes from normal to closing and straight back to normal, hidden; a
//! window without a guard is destroyed, as the platform does by default, and
//! is constructed anew when it is next asked for.

use crate::event::{action_views, Action, ActionView};
use crate::registry::{after_destroy, after_hide, has_window, WindowRegistry};
use crate::text::str_eq;
use crate::window::{WindowHandle, WindowView};
use vstd::prelude::*;

verus! {

/// What a close request for the window called `name` does, given the name of
/// the guarded window, if one is guarded.
pub open spec fn close_reaction(ws: Seq<WindowView>, guarded: Option<Seq<char>>, name: Seq<char>) -> (
    Seq<WindowView>,
    Seq<ActionView>,
) {
    if guarded == Some(name) {
        (after_hide(ws, name), seq![ActionView::PreventClose(name), ActionView::Hide(name)])
    } else {
        (after_destroy(ws, name), Seq::empty())
    }
}

/// The guard of one window against destruction by a close request.
#[derive(Debug, PartialEq, Eq)]
pub struct CloseInterceptor {
    window: WindowHandle,
}

impl View for CloseInterceptor {
    type V = Seq<char>;

    /// The name of the guarded window.
    closed spec fn view(&self) -> Seq<char> {
        self.window@
    }
}

/// The name of the guarded window, if there is a guard.
pub open spec fn guarded_name(guard: Option<CloseInterceptor>) -> Option<Seq<char>> {
    match guard {
        Some(interceptor) => Some(interceptor@),
        None => None,
    }
}

impl CloseInterceptor {
    /// Attaches a guard to the window called `name`, if that window exists.
    pub fn attach(registry: &WindowRegistry, name: &str) -> (guard: Option<CloseInterceptor>)
        ensures
            guard is Some <==> has_window(registry@, name@),
            guard matches Some(interceptor) ==> interceptor@ == name@,
    {
        match registry.lookup(name) {
            Some(window) => Some(CloseInterceptor { window }),
            None => None,
        }
    }

    /// The guarded window.
    pub fn window(&self) -> (window: &WindowHandle)
        ensures
            window@ == self@,
    {
        &self.window
    }

    /// Whether this guard stands before the window called `name`.
    pub fn guards(&self, name: &str) -> (yes: bool)
        ensures
            yes == (self@ == name@),
    {
        str_eq(self.window.name(), name)
    }

    /// Settles a close request for the guarded window: the close is kept
    /// from going ahead, and the window is hidden instead.
    pub fn on_close_requested(&self, registry: &mut WindowRegistry) -> (actions: Vec<Action>)
        ensures
            (final(registry)@, action_views(actions@)) == close_reaction(
                old(registry)@,
                Some(self@),
                self@,
            ),
    {
        let mut actions: Vec<Action> = Vec::new();
        registry.hide_window(&self.window);
        actions.push(Action::PreventClose(self.window.clone()));
        actions.push(Action::Hide(self.window.clone()));
        assert(action_views(actions@) =~= close_reaction(old(registry)@, Some(self@), self@).1);
        actions
    }
}

/// Settles a close request for the window called `name`: through the guard
/// if it stands before that window, else by letting the window be destroyed.
pub fn settle_close_request(
    guard: &Option<CloseInterceptor>,
    registry: &mut WindowRegistry,
    name: &str,
) -> (actions: Vec<Action>)
    ensures
        (final(registry)@, action_views(actions@)) == close_reaction(
            old(registry)@,
            guarded_name(*guard),
            name@,
        ),
{
    match guard {
        Some(interceptor) => {
            if interceptor.guards(name) {
                return interceptor.on_close_requested(registry);
            }
        },
        None => {},
    }
    match registry.lookup(name) {
        Some(window) => {
            registry.destroy(&window);
        },
        None => {},
    }
    let actions: Vec<Action> = Vec::new();
    assert(action_views(actions@) =~= Seq::<ActionView>::empty());
    actions
}

} // verus!
