//! The window registry: which named windows are alive, and in what state.
//!
//! The model of a registry is the sequence of its windows in order of
//! creation. No two of them share a name, at most one holds the input focus,
//! and the one that does is on screen.

use crate::text::str_eq;
use crate::window::{Sighting, Window, WindowHandle, WindowSpec, WindowSpecView, WindowView};
use vstd::prelude::*;

verus! {

/// Some window of `ws` is called `name`.
pub open spec fn has_window(ws: Seq<WindowView>, name: Seq<char>) -> bool {
    exists|i: int| 0 <= i < ws.len() && (#[trigger] ws[i]).name == name
}

/// Where the window called `name` stands in `ws`; meaningful when there is one.
pub open spec fn position_of(ws: Seq<WindowView>, name: Seq<char>) -> int {
    choose|i: int| 0 <= i < ws.len() && (#[trigger] ws[i]).name == name
}

/// The window called `name`; meaningful when there is one.
pub open spec fn window_named(ws: Seq<WindowView>, name: Seq<char>) -> WindowView {
    ws[position_of(ws, name)]
}

/// No two windows share a name.
pub open spec fn names_distinct(ws: Seq<WindowView>) -> bool {
    forall|i: int, j: int|
        0 <= i < j < ws.len() ==> (#[trigger] ws[i]).name != (#[trigger] ws[j]).name
}

/// At most one window holds the input focus.
pub open spec fn focus_exclusive(ws: Seq<WindowView>) -> bool {
    forall|i: int, j: int|
        0 <= i < ws.len() && 0 <= j < ws.len()
            && (#[trigger] ws[i]).focused && (#[trigger] ws[j]).focused
            ==> i == j
}

/// A window that holds the input focus is visible and not minimized.
pub open spec fn focus_on_screen(ws: Seq<WindowView>) -> bool {
    forall|i: int|
        0 <= i < ws.len() && (#[trigger] ws[i]).focused ==> ws[i].visible && !ws[i].minimized
}

/// What holds of every registry.
pub open spec fn registry_wf(ws: Seq<WindowView>) -> bool {
    &&& names_distinct(ws)
    &&& focus_exclusive(ws)
    &&& focus_on_screen(ws)
}

/// The windows after the one called `name` was shown, restored and focused.
/// Every other window loses the focus. Without such a window nothing changes.
pub open spec fn after_show(ws: Seq<WindowView>, name: Seq<char>) -> Seq<WindowView> {
    if has_window(ws, name) {
        ws.map_values(
            |w: WindowView|
                if w.name == name {
                    w.shown()
                } else {
                    w.unfocused()
                },
        )
    } else {
        ws
    }
}

/// The windows after the one called `name` was hidden.
pub open spec fn after_hide(ws: Seq<WindowView>, name: Seq<char>) -> Seq<WindowView> {
    ws.map_values(
        |w: WindowView|
            if w.name == name {
                w.hidden()
            } else {
                w
            },
    )
}

/// The windows after the platform reported how the one called `name` stands.
pub open spec fn after_sighting(ws: Seq<WindowView>, name: Seq<char>, sighting: Sighting) -> Seq<
    WindowView,
> {
    ws.map_values(
        |w: WindowView|
            if w.name == name {
                w.seen(sighting)
            } else {
                w
            },
    )
}

/// The windows after a new one was constructed: it comes last and takes the
/// input focus from whichever window held it.
pub open spec fn after_create(ws: Seq<WindowView>, name: Seq<char>, spec: WindowSpecView) -> Seq<
    WindowView,
> {
    ws.map_values(|w: WindowView| w.unfocused()).push(WindowView::fresh(name, spec))
}

/// Find the window called `name`, or else construct it.
pub open spec fn after_get_or_create(
    ws: Seq<WindowView>,
    name: Seq<char>,
    spec: WindowSpecView,
) -> Seq<WindowView> {
    if has_window(ws, name) {
        ws
    } else {
        after_create(ws, name, spec)
    }
}

/// The windows after the one called `name` was destroyed; the others keep
/// their order.
pub open spec fn after_destroy(ws: Seq<WindowView>, name: Seq<char>) -> Seq<WindowView> {
    if has_window(ws, name) {
        ws.remove(position_of(ws, name))
    } else {
        ws
    }
}

/// With distinct names, a window found under a name is the one that
/// [`position_of`] and [`window_named`] speak of.
pub proof fn lemma_position_unique(ws: Seq<WindowView>, name: Seq<char>, i: int)
    requires
        names_distinct(ws),
        0 <= i < ws.len(),
        ws[i].name == name,
    ensures
        has_window(ws, name),
        position_of(ws, name) == i,
        window_named(ws, name) == ws[i],
{
    let j = position_of(ws, name);
    assert(0 <= j < ws.len() && ws[j].name == name);
    if j < i {
        assert(ws[j].name != ws[i].name);
    } else if i < j {
        assert(ws[i].name != ws[j].name);
    }
}

/// Showing a window keeps a registry well formed.
pub proof fn lemma_show_wf(ws: Seq<WindowView>, name: Seq<char>)
    requires
        registry_wf(ws),
    ensures
        registry_wf(after_show(ws, name)),
        after_show(ws, name).len() == ws.len(),
{
    if has_window(ws, name) {
        let k = position_of(ws, name);
        let out = after_show(ws, name);
        assert forall|i: int| 0 <= i < ws.len() implies
            ((#[trigger] ws[i]).name == name <==> i == k) by {
            if ws[i].name == name {
                lemma_position_unique(ws, name, i);
            }
        }
        assert forall|i: int| 0 <= i < out.len() implies (#[trigger] out[i]).name == ws[i].name by {}
        assert forall|i: int| 0 <= i < out.len() implies
            ((#[trigger] out[i]).focused <==> i == k) by {
            assert(out[i].name == ws[i].name);
        }
    }
}

/// Hiding a window keeps a registry well formed.
pub proof fn lemma_hide_wf(ws: Seq<WindowView>, name: Seq<char>)
    requires
        registry_wf(ws),
    ensures
        registry_wf(after_hide(ws, name)),
        after_hide(ws, name).len() == ws.len(),
{
    let out = after_hide(ws, name);
    assert forall|i: int| 0 <= i < out.len() implies
        (#[trigger] out[i]).name == ws[i].name
        && (out[i].focused ==> ws[i].focused && out[i].visible && !out[i].minimized) by {}
}

/// Recording a sighting keeps a registry well formed.
pub proof fn lemma_sighting_wf(ws: Seq<WindowView>, name: Seq<char>, sighting: Sighting)
    requires
        registry_wf(ws),
    ensures
        registry_wf(after_sighting(ws, name, sighting)),
        after_sighting(ws, name, sighting).len() == ws.len(),
{
    let out = after_sighting(ws, name, sighting);
    assert forall|i: int| 0 <= i < out.len() implies
        (#[trigger] out[i]).name == ws[i].name
        && (out[i].focused ==> ws[i].focused && out[i].visible && !out[i].minimized) by {}
}

/// Constructing a window under a name that is free keeps a registry well
/// formed.
pub proof fn lemma_create_wf(ws: Seq<WindowView>, name: Seq<char>, spec: WindowSpecView)
    requires
        registry_wf(ws),
        !has_window(ws, name),
    ensures
        registry_wf(after_create(ws, name, spec)),
        after_create(ws, name, spec).len() == ws.len() + 1,
{
    let out = after_create(ws, name, spec);
    assert forall|i: int| 0 <= i < ws.len() implies
        (#[trigger] out[i]).name == ws[i].name && !out[i].focused by {}
    assert forall|i: int| 0 <= i < ws.len() implies (#[trigger] ws[i]).name != name by {}
    assert(out[ws.len() as int] == WindowView::fresh(name, spec));
}

/// Destroying a window keeps a registry well formed.
pub proof fn lemma_destroy_wf(ws: Seq<WindowView>, name: Seq<char>)
    requires
        registry_wf(ws),
    ensures
        registry_wf(after_destroy(ws, name)),
        !has_window(after_destroy(ws, name), name),
        has_window(ws, name) ==> after_destroy(ws, name).len() == ws.len() - 1,
        !has_window(ws, name) ==> after_destroy(ws, name) == ws,
{
    if has_window(ws, name) {
        let k = position_of(ws, name);
        let out = after_destroy(ws, name);
        assert forall|i: int| 0 <= i < out.len() implies
            #[trigger] out[i] == ws[if i < k { i } else { i + 1 }] by {}
        assert forall|i: int| 0 <= i < out.len() implies (#[trigger] out[i]).name != name by {
            let j = if i < k { i } else { i + 1 };
            assert(out[i] == ws[j]);
            if ws[j].name == name {
                lemma_position_unique(ws, name, j);
            }
        }
        assert forall|i: int, j: int| 0 <= i < j < out.len() implies
            (#[trigger] out[i]).name != (#[trigger] out[j]).name by {
            let a = if i < k { i } else { i + 1 };
            let b = if j < k { j } else { j + 1 };
            assert(ws[a].name != ws[b].name);
        }
        assert forall|i: int, j: int|
            0 <= i < out.len() && 0 <= j < out.len()
                && (#[trigger] out[i]).focused && (#[trigger] out[j]).focused implies
            i == j by {
            let a = if i < k { i } else { i + 1 };
            let b = if j < k { j } else { j + 1 };
            assert(ws[a].focused && ws[b].focused);
        }
        assert forall|i: int| 0 <= i < out.len() && (#[trigger] out[i]).focused implies
            out[i].visible && !out[i].minimized by {
            let a = if i < k { i } else { i + 1 };
            assert(ws[a].focused);
        }
    }
}

/// Two registries that list the same names in the same order have the same
/// windows by name, at the same positions.
pub proof fn lemma_same_names(a: Seq<WindowView>, b: Seq<WindowView>, name: Seq<char>)
    requires
        names_distinct(a),
        a.len() == b.len(),
        forall|i: int| 0 <= i < a.len() ==> (#[trigger] a[i]).name == b[i].name,
    ensures
        names_distinct(b),
        has_window(a, name) == has_window(b, name),
        has_window(a, name) ==> position_of(a, name) == position_of(b, name),
{
    assert forall|i: int, j: int| 0 <= i < j < b.len() implies
        (#[trigger] b[i]).name != (#[trigger] b[j]).name by {
        assert(a[i].name != a[j].name);
    }
    if has_window(a, name) {
        let k = position_of(a, name);
        assert(a[k].name == name);
        assert(b[k].name == name);
        lemma_position_unique(b, name, k);
    }
    if has_window(b, name) {
        let k = position_of(b, name);
        assert(b[k].name == name);
        assert(a[k].name == name);
    }
}

/// What showing the window called `name` does to the window called `other`.
pub proof fn lemma_show_effect(ws: Seq<WindowView>, name: Seq<char>, other: Seq<char>)
    requires
        registry_wf(ws),
    ensures
        has_window(after_show(ws, name), other) == has_window(ws, other),
        has_window(ws, other) ==> window_named(after_show(ws, name), other) == (if !has_window(ws, name) {
            window_named(ws, other)
        } else if other == name {
            window_named(ws, other).shown()
        } else {
            window_named(ws, other).unfocused()
        }),
{
    let out = after_show(ws, name);
    assert forall|i: int| 0 <= i < ws.len() implies (#[trigger] ws[i]).name == out[i].name by {}
    lemma_same_names(ws, out, other);
    if has_window(ws, other) {
        let k = position_of(ws, other);
        assert(ws[k].name == other);
    }
}

/// What hiding the window called `name` does to the window called `other`.
pub proof fn lemma_hide_effect(ws: Seq<WindowView>, name: Seq<char>, other: Seq<char>)
    requires
        registry_wf(ws),
    ensures
        has_window(after_hide(ws, name), other) == has_window(ws, other),
        has_window(ws, other) ==> window_named(after_hide(ws, name), other) == (if other == name {
            window_named(ws, other).hidden()
        } else {
            window_named(ws, other)
        }),
{
    let out = after_hide(ws, name);
    assert forall|i: int| 0 <= i < ws.len() implies (#[trigger] ws[i]).name == out[i].name by {}
    lemma_same_names(ws, out, other);
    if has_window(ws, other) {
        let k = position_of(ws, other);
        assert(ws[k].name == other);
    }
}

/// What a sighting of the window called `name` does to the window called
/// `other`.
pub proof fn lemma_sighting_effect(
    ws: Seq<WindowView>,
    name: Seq<char>,
    sighting: Sighting,
    other: Seq<char>,
)
    requires
        registry_wf(ws),
    ensures
        has_window(after_sighting(ws, name, sighting), other) == has_window(ws, other),
        has_window(ws, other) ==> window_named(after_sighting(ws, name, sighting), other) == (if other
            == name {
            window_named(ws, other).seen(sighting)
        } else {
            window_named(ws, other)
        }),
{
    let out = after_sighting(ws, name, sighting);
    assert forall|i: int| 0 <= i < ws.len() implies (#[trigger] ws[i]).name == out[i].name by {}
    lemma_same_names(ws, out, other);
    if has_window(ws, other) {
        let k = position_of(ws, other);
        assert(ws[k].name == other);
    }
}

/// What constructing a window under the free name `name` does to the window
/// called `other`: the new window is there as constructed, and every window
/// that was there before is still there, without the input focus.
pub proof fn lemma_create_effect(
    ws: Seq<WindowView>,
    name: Seq<char>,
    spec: WindowSpecView,
    other: Seq<char>,
)
    requires
        registry_wf(ws),
        !has_window(ws, name),
    ensures
        has_window(after_create(ws, name, spec), other) == (has_window(ws, other) || other == name),
        window_named(after_create(ws, name, spec), name) == WindowView::fresh(name, spec),
        has_window(ws, other) ==> window_named(after_create(ws, name, spec), other) == window_named(
            ws,
            other,
        ).unfocused(),
{
    let out = after_create(ws, name, spec);
    lemma_create_wf(ws, name, spec);
    let last = ws.len() as int;
    assert(out[last] == WindowView::fresh(name, spec));
    lemma_position_unique(out, name, last);
    assert forall|i: int| 0 <= i < ws.len() implies (#[trigger] out[i]) == ws[i].unfocused() by {}
    if has_window(ws, other) {
        let k = position_of(ws, other);
        assert(ws[k].name == other);
        assert(out[k].name == other);
        lemma_position_unique(out, other, k);
    }
    if has_window(out, other) && other != name {
        let k = position_of(out, other);
        assert(out[k].name == other);
        assert(k < ws.len());
        assert(ws[k].name == other);
    }
}

/// What destroying the window called `name` does to the window called
/// `other`: only the destroyed window is gone, and no other has changed.
pub proof fn lemma_destroy_effect(ws: Seq<WindowView>, name: Seq<char>, other: Seq<char>)
    requires
        registry_wf(ws),
    ensures
        has_window(after_destroy(ws, name), other) == (has_window(ws, other) && other != name),
        has_window(ws, other) && other != name ==> window_named(after_destroy(ws, name), other)
            == window_named(ws, other),
{
    lemma_destroy_wf(ws, name);
    let out = after_destroy(ws, name);
    if has_window(ws, name) {
        let k = position_of(ws, name);
        assert(ws[k].name == name);
        assert forall|i: int| 0 <= i < out.len() implies
            #[trigger] out[i] == ws[if i < k { i } else { i + 1 }] by {}
        if has_window(ws, other) && other != name {
            let j = position_of(ws, other);
            assert(ws[j].name == other);
            let at = if j < k { j } else { j - 1 };
            assert(out[at] == ws[j]);
            lemma_position_unique(out, other, at);
        }
        if has_window(out, other) {
            let i = position_of(out, other);
            assert(out[i].name == other);
            let j = if i < k { i } else { i + 1 };
            assert(ws[j].name == other);
        }
    }
}

/// The models of a sequence of windows, one by one.
pub open spec fn views_of(windows: Seq<Window>) -> Seq<WindowView> {
    windows.map_values(|w: Window| w@)
}

/// Named windows and their state. At most one live window per name.
///
/// Every operation takes the registry by exclusive reference, so the check
/// for a window and the construction that may follow it are one step: no
/// other handler can run in between.
#[derive(Debug)]
pub struct WindowRegistry {
    windows: Vec<Window>,
}

impl View for WindowRegistry {
    type V = Seq<WindowView>;

    closed spec fn view(&self) -> Seq<WindowView> {
        views_of(self.windows@)
    }
}

/// Index of the window called `name`, if there is one.
fn find(windows: &Vec<Window>, name: &str) -> (found: Option<usize>)
    ensures
        match found {
            Some(k) => k < windows.len() && windows[k as int].name@ == name@,
            None => !has_window(views_of(windows@), name@),
        },
{
    let mut i: usize = 0;
    while i < windows.len()
        invariant
            i <= windows.len(),
            forall|j: int| 0 <= j < i ==> (#[trigger] windows[j]).name@ != name@,
        decreases windows.len() - i,
    {
        if str_eq(windows[i].name.as_str(), name) {
            return Some(i);
        }
        i += 1;
    }
    proof {
        let ws = views_of(windows@);
        assert forall|j: int| 0 <= j < ws.len() implies (#[trigger] ws[j]).name != name@ by {
            assert(windows[j].name@ != name@);
        }
    }
    None
}

/// Takes the input focus from every window.
fn unfocus_all(windows: &mut Vec<Window>)
    ensures
        final(windows).len() == old(windows).len(),
        views_of(final(windows)@) == views_of(old(windows)@).map_values(
            |w: WindowView| w.unfocused(),
        ),
{
    let mut i: usize = 0;
    while i < windows.len()
        invariant
            i <= windows.len(),
            windows.len() == old(windows).len(),
            forall|j: int| 0 <= j < i ==> (#[trigger] windows[j])@ == old(windows)[j]@.unfocused(),
            forall|j: int| i <= j < windows.len() ==> (#[trigger] windows[j]) == old(windows)[j],
        decreases windows.len() - i,
    {
        windows[i].focused = false;
        i += 1;
    }
    assert(views_of(windows@) =~= views_of(old(windows)@).map_values(
        |w: WindowView| w.unfocused(),
    ));
}

impl WindowRegistry {
    /// What holds of every registry: see [`registry_wf`].
    #[verifier::type_invariant]
    pub open spec fn well_formed(self) -> bool {
        registry_wf(self@)
    }

    /// A registry without windows.
    pub fn new() -> (registry: WindowRegistry)
        ensures
            registry@ == Seq::<WindowView>::empty(),
    {
        let registry = WindowRegistry { windows: Vec::new() };
        assert(registry@ =~= Seq::<WindowView>::empty());
        registry
    }

    /// The number of live windows.
    pub fn len(&self) -> (count: usize)
        ensures
            count == self@.len(),
    {
        self.windows.len()
    }

    /// Looks a window up by name without constructing anything.
    pub fn lookup(&self, name: &str) -> (found: Option<WindowHandle>)
        ensures
            found is Some <==> has_window(self@, name@),
            found matches Some(handle) ==> handle@ == name@,
    {
        match find(&self.windows, name) {
            Some(k) => {
                proof {
                    assert(self@[k as int].name == name@);
                }
                Some(WindowHandle::to(name))
            },
            None => None,
        }
    }

    /// Returns the window called `name`, constructing it from `spec` only if
    /// there is none. An existing window is left exactly as it is.
    pub fn get_or_create(&mut self, name: &str, spec: WindowSpec) -> (handle: WindowHandle)
        ensures
            handle@ == name@,
            final(self)@ == after_get_or_create(old(self)@, name@, spec@),
            has_window(final(self)@, name@),
    {
        proof {
            use_type_invariant(&*self);
        }
        match find(&self.windows, name) {
            Some(k) => {
                proof {
                    assert(self@[k as int].name == name@);
                }
            },
            None => {
                proof {
                    lemma_create_wf(self@, name@, spec@);
                }
                let mut windows: Vec<Window> = Vec::new();
                std::mem::swap(&mut self.windows, &mut windows);
                unfocus_all(&mut windows);
                windows.push(
                    Window {
                        name: name.to_owned(),
                        spec,
                        visible: true,
                        focused: true,
                        minimized: false,
                    },
                );
                assert(views_of(windows@) =~= after_create(old(self)@, name@, spec@));
                self.windows = windows;
                proof {
                    let last = self@.len() - 1;
                    assert(self@[last].name == name@);
                }
            },
        }
        WindowHandle::to(name)
    }

    /// Makes the window visible, restores it if it is minimized and gives it
    /// the input focus. A stale handle changes nothing.
    pub fn show_and_focus(&mut self, handle: &WindowHandle)
        ensures
            final(self)@ == after_show(old(self)@, handle@),
    {
        proof {
            use_type_invariant(&*self);
            lemma_show_wf(self@, handle@);
        }
        match find(&self.windows, handle.name()) {
            Some(k) => {
                proof {
                    lemma_position_unique(self@, handle@, k as int);
                }
                let mut windows: Vec<Window> = Vec::new();
                std::mem::swap(&mut self.windows, &mut windows);
                unfocus_all(&mut windows);
                let ghost unfocused = windows@;
                windows[k].visible = true;
                windows[k].minimized = false;
                windows[k].focused = true;
                proof {
                    let before = old(self)@;
                    let after = views_of(windows@);
                    assert forall|i: int| 0 <= i < before.len() implies #[trigger] after[i]
                        == after_show(before, handle@)[i] by {
                        assert(views_of(unfocused)[i] == before[i].unfocused());
                        if before[i].name == handle@ {
                            lemma_position_unique(before, handle@, i);
                        }
                    }
                    assert(after =~= after_show(before, handle@));
                }
                self.windows = windows;
            },
            None => {},
        }
    }

    /// Makes the window invisible without destroying it. A stale handle
    /// changes nothing.
    pub fn hide_window(&mut self, handle: &WindowHandle)
        ensures
            final(self)@ == after_hide(old(self)@, handle@),
    {
        proof {
            use_type_invariant(&*self);
            lemma_hide_wf(self@, handle@);
        }
        match find(&self.windows, handle.name()) {
            Some(k) => {
                proof {
                    lemma_position_unique(self@, handle@, k as int);
                }
                let mut windows: Vec<Window> = Vec::new();
                std::mem::swap(&mut self.windows, &mut windows);
                windows[k].visible = false;
                windows[k].focused = false;
                proof {
                    let before = old(self)@;
                    let after = views_of(windows@);
                    assert forall|i: int| 0 <= i < before.len() implies #[trigger] after[i]
                        == after_hide(before, handle@)[i] by {
                        if before[i].name == handle@ {
                            lemma_position_unique(before, handle@, i);
                        }
                    }
                    assert(after =~= after_hide(before, handle@));
                }
                self.windows = windows;
            },
            None => {
                proof {
                    let before = self@;
                    assert forall|i: int| 0 <= i < before.len() implies (#[trigger] before[i]).name
                        != handle@ by {}
                    assert(before =~= after_hide(before, handle@));
                }
            },
        }
    }

    /// Whether the window is on screen; `false` for a stale handle.
    pub fn is_visible(&self, handle: &WindowHandle) -> (visible: bool)
        ensures
            visible == (has_window(self@, handle@) && window_named(self@, handle@).visible),
    {
        proof {
            use_type_invariant(self);
        }
        match find(&self.windows, handle.name()) {
            Some(k) => {
                proof {
                    lemma_position_unique(self@, handle@, k as int);
                }
                self.windows[k].visible
            },
            None => false,
        }
    }

    /// Whether the window holds the input focus; `false` for a stale handle.
    pub fn is_focused(&self, handle: &WindowHandle) -> (focused: bool)
        ensures
            focused == (has_window(self@, handle@) && window_named(self@, handle@).focused),
    {
        proof {
            use_type_invariant(self);
        }
        match find(&self.windows, handle.name()) {
            Some(k) => {
                proof {
                    lemma_position_unique(self@, handle@, k as int);
                }
                self.windows[k].focused
            },
            None => false,
        }
    }

    /// The window behind a handle, or `None` for a stale handle.
    pub fn get(&self, handle: &WindowHandle) -> (found: Option<&Window>)
        ensures
            found is Some <==> has_window(self@, handle@),
            found matches Some(window) ==> window@ == window_named(self@, handle@),
    {
        proof {
            use_type_invariant(self);
        }
        match find(&self.windows, handle.name()) {
            Some(k) => {
                proof {
                    lemma_position_unique(self@, handle@, k as int);
                }
                Some(&self.windows[k])
            },
            None => None,
        }
    }

    /// Takes note of what the platform reports of the window. A stale handle
    /// changes nothing.
    pub fn record_sighting(&mut self, handle: &WindowHandle, sighting: Sighting)
        ensures
            final(self)@ == after_sighting(old(self)@, handle@, sighting),
    {
        proof {
            use_type_invariant(&*self);
            lemma_sighting_wf(self@, handle@, sighting);
        }
        match find(&self.windows, handle.name()) {
            Some(k) => {
                proof {
                    lemma_position_unique(self@, handle@, k as int);
                }
                let mut windows: Vec<Window> = Vec::new();
                std::mem::swap(&mut self.windows, &mut windows);
                let focused = windows[k].focused && sighting.visible && !sighting.minimized;
                windows[k].visible = sighting.visible;
                windows[k].minimized = sighting.minimized;
                windows[k].focused = focused;
                proof {
                    let before = old(self)@;
                    let after = views_of(windows@);
                    assert forall|i: int| 0 <= i < before.len() implies #[trigger] after[i]
                        == after_sighting(before, handle@, sighting)[i] by {
                        if before[i].name == handle@ {
                            lemma_position_unique(before, handle@, i);
                        }
                    }
                    assert(after =~= after_sighting(before, handle@, sighting));
                }
                self.windows = windows;
            },
            None => {
                proof {
                    let before = self@;
                    assert forall|i: int| 0 <= i < before.len() implies (#[trigger] before[i]).name
                        != handle@ by {}
                    assert(before =~= after_sighting(before, handle@, sighting));
                }
            },
        }
    }

    /// Removes the window from the registry. A stale handle changes nothing.
    pub fn destroy(&mut self, handle: &WindowHandle)
        ensures
            final(self)@ == after_destroy(old(self)@, handle@),
    {
        proof {
            use_type_invariant(&*self);
            lemma_destroy_wf(self@, handle@);
        }
        match find(&self.windows, handle.name()) {
            Some(k) => {
                proof {
                    lemma_position_unique(self@, handle@, k as int);
                }
                let mut windows: Vec<Window> = Vec::new();
                std::mem::swap(&mut self.windows, &mut windows);
                let _ = windows.remove(k);
                assert(views_of(windows@) =~= after_destroy(old(self)@, handle@));
                self.windows = windows;
            },
            None => {},
        }
    }
}

} // verus!
