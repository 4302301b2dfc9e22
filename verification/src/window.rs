//! Windows as plain records: what one is built from, and what state it is in.

use vstd::prelude::*;

verus! {

/// Name of the window that exists from startup on.
pub const MAIN_WINDOW: &'static str = "main";

/// Name of the lazily created quick-add window.
pub const QUICK_ADD_WINDOW: &'static str = "quick-add";

/// Title of the quick-add window.
pub const QUICK_ADD_TITLE: &'static str = "Quick Add Todo";

/// UI asset loaded into the quick-add window.
pub const QUICK_ADD_CONTENT: &'static str = "quick-add.html";

/// Fixed width of the quick-add window.
pub const QUICK_ADD_WIDTH: u32 = 400;

/// Fixed height of the quick-add window.
pub const QUICK_ADD_HEIGHT: u32 = 250;

/// Everything a window is constructed from.
#[derive(Debug, PartialEq, Eq)]
pub struct WindowSpec {
    pub title: String,
    pub width: u32,
    pub height: u32,
    pub resizable: bool,
    pub centered: bool,
    pub always_on_top: bool,
    pub skip_taskbar: bool,
    /// The UI asset shown inside the window.
    pub content: String,
}

/// Mathematical model of a [`WindowSpec`].
pub struct WindowSpecView {
    pub title: Seq<char>,
    pub width: nat,
    pub height: nat,
    pub resizable: bool,
    pub centered: bool,
    pub always_on_top: bool,
    pub skip_taskbar: bool,
    pub content: Seq<char>,
}

impl View for WindowSpec {
    type V = WindowSpecView;

    open spec fn view(&self) -> WindowSpecView {
        WindowSpecView {
            title: self.title@,
            width: self.width as nat,
            height: self.height as nat,
            resizable: self.resizable,
            centered: self.centered,
            always_on_top: self.always_on_top,
            skip_taskbar: self.skip_taskbar,
            content: self.content@,
        }
    }
}

/// The quick-add window: small, fixed in size, centered, kept above other
/// windows and out of the taskbar.
pub open spec fn quick_add_spec() -> WindowSpecView {
    WindowSpecView {
        title: QUICK_ADD_TITLE@,
        width: QUICK_ADD_WIDTH as nat,
        height: QUICK_ADD_HEIGHT as nat,
        resizable: false,
        centered: true,
        always_on_top: true,
        skip_taskbar: true,
        content: QUICK_ADD_CONTENT@,
    }
}

impl Clone for WindowSpec {
    fn clone(&self) -> (copy: WindowSpec)
        ensures
            copy@ == self@,
    {
        WindowSpec {
            title: self.title.clone(),
            width: self.width,
            height: self.height,
            resizable: self.resizable,
            centered: self.centered,
            always_on_top: self.always_on_top,
            skip_taskbar: self.skip_taskbar,
            content: self.content.clone(),
        }
    }
}

impl WindowSpec {
    /// Builds the specification of the quick-add window.
    pub fn quick_add() -> (spec: WindowSpec)
        ensures
            spec@ == quick_add_spec(),
    {
        WindowSpec {
            title: QUICK_ADD_TITLE.to_owned(),
            width: QUICK_ADD_WIDTH,
            height: QUICK_ADD_HEIGHT,
            resizable: false,
            centered: true,
            always_on_top: true,
            skip_taskbar: true,
            content: QUICK_ADD_CONTENT.to_owned(),
        }
    }
}

/// One live window: its name, what it was built from, and its current state.
#[derive(Debug, PartialEq, Eq)]
pub struct Window {
    pub name: String,
    pub spec: WindowSpec,
    pub visible: bool,
    pub focused: bool,
    pub minimized: bool,
}

/// Mathematical model of a [`Window`].
pub struct WindowView {
    pub name: Seq<char>,
    pub spec: WindowSpecView,
    pub visible: bool,
    pub focused: bool,
    pub minimized: bool,
}

impl View for Window {
    type V = WindowView;

    open spec fn view(&self) -> WindowView {
        WindowView {
            name: self.name@,
            spec: self.spec@,
            visible: self.visible,
            focused: self.focused,
            minimized: self.minimized,
        }
    }
}

impl WindowView {
    /// A window as the platform hands it over right after construction:
    /// on screen and holding the input focus.
    pub open spec fn fresh(name: Seq<char>, spec: WindowSpecView) -> WindowView {
        WindowView { name, spec, visible: true, focused: true, minimized: false }
    }

    /// The window after it was shown, restored and given the input focus.
    pub open spec fn shown(self) -> WindowView {
        WindowView { visible: true, focused: true, minimized: false, ..self }
    }

    /// The window after it was taken off screen; a hidden window holds no focus.
    pub open spec fn hidden(self) -> WindowView {
        WindowView { visible: false, focused: false, ..self }
    }

    /// The window after another window took the input focus.
    pub open spec fn unfocused(self) -> WindowView {
        WindowView { focused: false, ..self }
    }

    /// The window after the platform reported how it stands. The report
    /// settles visibility and minimization; the input focus stays only with
    /// a window that is on screen.
    pub open spec fn seen(self, sighting: Sighting) -> WindowView {
        WindowView {
            visible: sighting.visible,
            minimized: sighting.minimized,
            focused: self.focused && sighting.visible && !sighting.minimized,
            ..self
        }
    }
}

/// What the platform reports of a window when it is asked.
#[derive(Clone, Copy, Debug, PartialEq, Eq)]
pub struct Sighting {
    pub visible: bool,
    pub minimized: bool,
}

impl Sighting {
    /// Makes a sighting of what the platform answered to the two queries. A
    /// query that failed counts as `false`: a window that cannot be asked is
    /// taken to be off screen, and not to be minimized.
    pub fn from_answers(visible: Option<bool>, minimized: Option<bool>) -> (sighting: Sighting)
        ensures
            sighting.visible == (visible == Some(true)),
            sighting.minimized == (minimized == Some(true)),
    {
        Sighting {
            visible: match visible {
                Some(answer) => answer,
                None => false,
            },
            minimized: match minimized {
                Some(answer) => answer,
                None => false,
            },
        }
    }
}

/// A reference to a window by its stable name.
///
/// Handles come out of the registry only. A handle whose window has gone is
/// stale: every operation on it is a no-op, and queries answer `false`.
#[derive(Debug, PartialEq, Eq)]
pub struct WindowHandle {
    name: String,
}

impl View for WindowHandle {
    type V = Seq<char>;

    closed spec fn view(&self) -> Seq<char> {
        self.name@
    }
}

impl Clone for WindowHandle {
    fn clone(&self) -> (copy: WindowHandle)
        ensures
            copy@ == self@,
    {
        WindowHandle { name: self.name.clone() }
    }
}

impl WindowHandle {
    pub(crate) fn to(name: &str) -> (handle: WindowHandle)
        ensures
            handle@ == name@,
    {
        WindowHandle { name: name.to_owned() }
    }

    /// The name of the window this handle refers to.
    pub fn name(&self) -> (name: &str)
        ensures
            name@ == self@,
    {
        self.name.as_str()
    }
}

} // verus!
