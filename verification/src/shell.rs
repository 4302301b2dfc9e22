//! The application shell: startup in order, then one event at a time.
//!
//! The host runs the platform's event loop. It carries out each startup step
//! and reports how it went; once the shell is running it hands over every
//! event and carries out the actions that come back. All handlers run on
//! that one loop, so the shell is never entered twice at once.

use crate::close::{close_reaction, guarded_name, settle_close_request, CloseInterceptor};
use crate::event::{action_views, exit_requested, requested_exit, Action, ActionView, Event, EventView};
use crate::menu::decode_menu_id;
use crate::registry::{after_sighting, has_window, registry_wf, WindowRegistry};
use crate::tray::{click_reaction, menu_reaction, standard_tray, TrayController};
use crate::window::{Sighting, WindowView, MAIN_WINDOW};
use vstd::prelude::*;

verus! {

/// The steps of startup, in the order in which they are taken.
#[derive(Clone, Copy, Debug, PartialEq, Eq)]
pub enum StartupStep {
    BuildMenuItems,
    BuildMenu,
    BuildTrayIcon,
    /// Taken only if the main window exists once the tray stands.
    AttachCloseInterceptor,
}

/// Why startup was given up. A tray that cannot be built leaves the user no
/// way to reach the application, so each of these is fatal.
#[derive(Clone, Copy, Debug, PartialEq, Eq)]
pub enum StartupError {
    MenuItems,
    Menu,
    TrayIcon,
}

/// Where the shell stands between startup and the end of the process.
#[derive(Clone, Copy, Debug, PartialEq, Eq)]
pub enum Lifecycle {
    /// Startup is under way; this step is to be taken next.
    Starting(StartupStep),
    /// Startup is over; events are handled.
    Running,
    /// The process was told to end with this exit code.
    Exited(i32),
    /// Startup was given up.
    Aborted(StartupError),
}

/// The error that a failure of this step raises, if the step is one whose
/// failure is fatal.
pub open spec fn failure_of(step: StartupStep) -> Option<StartupError> {
    match step {
        StartupStep::BuildMenuItems => Some(StartupError::MenuItems),
        StartupStep::BuildMenu => Some(StartupError::Menu),
        StartupStep::BuildTrayIcon => Some(StartupError::TrayIcon),
        StartupStep::AttachCloseInterceptor => None,
    }
}

/// The text of a startup error.
pub open spec fn startup_error_text(error: StartupError) -> Seq<char> {
    match error {
        StartupError::MenuItems => "failed to build the tray menu items"@,
        StartupError::Menu => "failed to build the tray menu"@,
        StartupError::TrayIcon => "failed to build the tray icon"@,
    }
}

impl StartupError {
    /// The step whose failure raised this error.
    pub fn step(&self) -> (step: StartupStep)
        ensures
            failure_of(step) == Some(*self),
    {
        match self {
            StartupError::MenuItems => StartupStep::BuildMenuItems,
            StartupError::Menu => StartupStep::BuildMenu,
            StartupError::TrayIcon => StartupStep::BuildTrayIcon,
        }
    }

    /// A diagnostic for the user.
    pub fn message(&self) -> (text: String)
        ensures
            text@ == startup_error_text(*self),
    {
        match self {
            StartupError::MenuItems => "failed to build the tray menu items".to_owned(),
            StartupError::Menu => "failed to build the tray menu".to_owned(),
            StartupError::TrayIcon => "failed to build the tray icon".to_owned(),
        }
    }
}

/// Mathematical model of an [`AppShell`].
pub struct ShellView {
    /// The windows, in order of creation.
    pub windows: Seq<WindowView>,
    /// The name of the window that a close interceptor guards, if any.
    pub guarded: Option<Seq<char>>,
    pub lifecycle: Lifecycle,
}

impl ShellView {
    /// What holds of every shell.
    pub open spec fn wf(self) -> bool {
        registry_wf(self.windows)
    }

    /// The shell before its first startup step, over the windows that the
    /// platform has constructed by itself.
    pub open spec fn initial(windows: Seq<WindowView>) -> ShellView {
        ShellView {
            windows,
            guarded: None,
            lifecycle: Lifecycle::Starting(StartupStep::BuildMenuItems),
        }
    }

    /// The main window exists and a close interceptor guards it.
    pub open spec fn main_guarded(self) -> bool {
        has_window(self.windows, MAIN_WINDOW@) && self.guarded == Some(MAIN_WINDOW@)
    }
}

/// The shell after the host reported the outcome of the pending startup
/// step.
///
/// A failure to build the menu items, the menu or the tray icon gives
/// startup up. When the tray stands, the main window is looked up: if it
/// exists the close interceptor is attached next, else the shell runs
/// without one. Outside startup a report changes nothing.
pub open spec fn after_startup_step(s: ShellView, succeeded: bool) -> ShellView {
    match s.lifecycle {
        Lifecycle::Starting(step) => {
            if !succeeded && failure_of(step) is Some {
                ShellView { lifecycle: Lifecycle::Aborted(failure_of(step)->0), ..s }
            } else {
                match step {
                    StartupStep::BuildMenuItems => ShellView {
                        lifecycle: Lifecycle::Starting(StartupStep::BuildMenu),
                        ..s
                    },
                    StartupStep::BuildMenu => ShellView {
                        lifecycle: Lifecycle::Starting(StartupStep::BuildTrayIcon),
                        ..s
                    },
                    StartupStep::BuildTrayIcon => ShellView {
                        lifecycle: if has_window(s.windows, MAIN_WINDOW@) {
                            Lifecycle::Starting(StartupStep::AttachCloseInterceptor)
                        } else {
                            Lifecycle::Running
                        },
                        ..s
                    },
                    StartupStep::AttachCloseInterceptor => ShellView {
                        lifecycle: Lifecycle::Running,
                        guarded: if succeeded && has_window(s.windows, MAIN_WINDOW@) {
                            Some(MAIN_WINDOW@)
                        } else {
                            None
                        },
                        ..s
                    },
                }
            }
        },
        _ => s,
    }
}

/// What an event does to the windows of a running shell.
pub open spec fn dispatch(s: ShellView, event: EventView) -> (Seq<WindowView>, Seq<ActionView>) {
    match event {
        EventView::MenuEvent(id) => menu_reaction(s.windows, decode_menu_id(id)),
        EventView::TrayClick { button, position } => click_reaction(s.windows, button),
        EventView::WindowCloseRequested(name) => close_reaction(s.windows, s.guarded, name),
    }
}

/// The shell after an event, and the actions for the host.
///
/// Only a running shell handles events. Once an action ends the process the
/// shell has exited, and nothing is handled any more.
pub open spec fn shell_reaction(s: ShellView, event: EventView) -> (ShellView, Seq<ActionView>) {
    if s.lifecycle == Lifecycle::Running {
        let (windows, actions) = dispatch(s, event);
        let lifecycle = match exit_requested(actions) {
            Some(code) => Lifecycle::Exited(code),
            None => Lifecycle::Running,
        };
        (ShellView { windows, lifecycle, ..s }, actions)
    } else {
        (s, Seq::empty())
    }
}

/// The composition root: the registry, the tray and the close interceptor,
/// owned in one place and handed to each handler explicitly.
#[derive(Debug)]
pub struct AppShell {
    registry: WindowRegistry,
    tray: TrayController,
    guard: Option<CloseInterceptor>,
    lifecycle: Lifecycle,
}

impl View for AppShell {
    type V = ShellView;

    closed spec fn view(&self) -> ShellView {
        ShellView {
            windows: self.registry@,
            guarded: guarded_name(self.guard),
            lifecycle: self.lifecycle,
        }
    }
}

impl AppShell {
    /// A shell about to start, over the windows that the platform has
    /// constructed by itself.
    pub fn new(registry: WindowRegistry) -> (shell: AppShell)
        ensures
            shell@ == ShellView::initial(registry@),
            shell@.wf(),
    {
        proof {
            use_type_invariant(&registry);
        }
        AppShell {
            registry,
            tray: TrayController::new(),
            guard: None,
            lifecycle: Lifecycle::Starting(StartupStep::BuildMenuItems),
        }
    }

    /// Where the shell stands.
    pub fn lifecycle(&self) -> (lifecycle: Lifecycle)
        ensures
            lifecycle == self@.lifecycle,
    {
        self.lifecycle
    }

    /// The startup step that the host has to take next, if startup is under
    /// way.
    pub fn pending_step(&self) -> (step: Option<StartupStep>)
        ensures
            step == (match self@.lifecycle {
                Lifecycle::Starting(pending) => Some(pending),
                _ => None,
            }),
    {
        match self.lifecycle {
            Lifecycle::Starting(pending) => Some(pending),
            _ => None,
        }
    }

    /// The exit code, once the process was told to end.
    pub fn exit_code(&self) -> (code: Option<i32>)
        ensures
            code == (match self@.lifecycle {
                Lifecycle::Exited(code) => Some(code),
                _ => None,
            }),
    {
        match self.lifecycle {
            Lifecycle::Exited(code) => Some(code),
            _ => None,
        }
    }

    /// The window registry.
    pub fn registry(&self) -> (registry: &WindowRegistry)
        ensures
            registry@ == self@.windows,
    {
        &self.registry
    }

    /// The tray controller.
    pub fn tray(&self) -> (tray: &TrayController)
        ensures
            tray@ == standard_tray(),
    {
        proof {
            use_type_invariant(&self.tray);
        }
        &self.tray
    }

    /// The close interceptor, once one is attached.
    pub fn guard(&self) -> (guard: Option<&CloseInterceptor>)
        ensures
            guard is Some <==> self@.guarded is Some,
            guard matches Some(interceptor) ==> Some(interceptor@) == self@.guarded,
    {
        self.guard.as_ref()
    }

    /// Takes the host's report on the pending startup step and moves on.
    ///
    /// Returns the error exactly when startup is given up: then, and on
    /// every later call.
    pub fn complete_step(&mut self, succeeded: bool) -> (outcome: Result<(), StartupError>)
        ensures
            final(self)@ == after_startup_step(old(self)@, succeeded),
            final(self)@.wf(),
            outcome == (match final(self)@.lifecycle {
                Lifecycle::Aborted(error) => Err::<(), StartupError>(error),
                _ => Ok(()),
            }),
    {
        proof {
            use_type_invariant(&self.registry);
        }
        match self.lifecycle {
            Lifecycle::Starting(step) => {
                match step {
                    StartupStep::BuildMenuItems => {
                        if succeeded {
                            self.lifecycle = Lifecycle::Starting(StartupStep::BuildMenu);
                        } else {
                            self.lifecycle = Lifecycle::Aborted(StartupError::MenuItems);
                        }
                    },
                    StartupStep::BuildMenu => {
                        if succeeded {
                            self.lifecycle = Lifecycle::Starting(StartupStep::BuildTrayIcon);
                        } else {
                            self.lifecycle = Lifecycle::Aborted(StartupError::Menu);
                        }
                    },
                    StartupStep::BuildTrayIcon => {
                        if !succeeded {
                            self.lifecycle = Lifecycle::Aborted(StartupError::TrayIcon);
                        } else if self.registry.lookup(MAIN_WINDOW).is_some() {
                            self.lifecycle = Lifecycle::Starting(
                                StartupStep::AttachCloseInterceptor,
                            );
                        } else {
                            self.lifecycle = Lifecycle::Running;
                        }
                    },
                    StartupStep::AttachCloseInterceptor => {
                        if succeeded {
                            self.guard = CloseInterceptor::attach(&self.registry, MAIN_WINDOW);
                        } else {
                            self.guard = None;
                        }
                        self.lifecycle = Lifecycle::Running;
                    },
                }
            },
            _ => {},
        }
        match self.lifecycle {
            Lifecycle::Aborted(error) => Err(error),
            _ => Ok(()),
        }
    }

    /// Handles one event and returns what the host has to do, in order.
    pub fn handle(&mut self, event: &Event) -> (actions: Vec<Action>)
        ensures
            (final(self)@, action_views(actions@)) == shell_reaction(old(self)@, event@),
            final(self)@.wf(),
    {
        match self.lifecycle {
            Lifecycle::Running => {},
            _ => {
                proof {
                    use_type_invariant(&self.registry);
                }
                let nothing: Vec<Action> = Vec::new();
                assert(action_views(nothing@) =~= Seq::<ActionView>::empty());
                return nothing;
            },
        }
        let actions = match event {
            Event::MenuEvent(id) => self.tray.on_menu_event(&mut self.registry, id.as_str()),
            Event::TrayClick { button, position } => self.tray.on_tray_click(
                &mut self.registry,
                *button,
            ),
            Event::WindowCloseRequested(name) => settle_close_request(
                &self.guard,
                &mut self.registry,
                name.as_str(),
            ),
        };
        match requested_exit(&actions) {
            Some(code) => {
                self.lifecycle = Lifecycle::Exited(code);
            },
            None => {},
        }
        proof {
            use_type_invariant(&self.registry);
        }
        actions
    }

    /// Takes note of what the platform reports of the window called `name`.
    /// Visibility is observed, not assumed: a window hidden behind the
    /// shell's back is shown by the next click.
    pub fn record_sighting(&mut self, name: &str, sighting: Sighting)
        ensures
            final(self)@ == (ShellView {
                windows: after_sighting(old(self)@.windows, name@, sighting),
                ..old(self)@
            }),
            final(self)@.wf(),
    {
        match self.registry.lookup(name) {
            Some(window) => {
                self.registry.record_sighting(&window, sighting);
            },
            None => {
                proof {
                    let before = self@.windows;
                    assert forall|i: int| 0 <= i < before.len() implies (#[trigger] before[i]).name
                        != name@ by {}
                    assert(before =~= after_sighting(before, name@, sighting));
                }
            },
        }
        proof {
            use_type_invariant(&self.registry);
        }
    }
}

} // verus!
