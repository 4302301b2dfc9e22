//! The tray controller: the one place where tray events become actions.

use crate::event::{action_views, Action, ActionView, MouseButton};
use crate::menu::{
    build_tray_menu, decode_menu_id, entry_views, tray_menu, MenuEntry, MenuEntryView, MenuId,
};
use crate::registry::{
    after_get_or_create, after_hide, after_show, has_window, window_named, WindowRegistry,
};
use crate::window::{quick_add_spec, WindowSpec, WindowView, MAIN_WINDOW, QUICK_ADD_WINDOW};
use vstd::prelude::*;

verus! {

/// Id of the tray icon.
pub const TRAY_ID: &'static str = "main-tray";

/// Tooltip of the tray icon.
pub const TRAY_TOOLTIP: &'static str = "zendo - Todo Manager";

/// Exit code of a process that ends because the user chose to quit.
pub const QUIT_EXIT_CODE: i32 = 0;

/// The tray icon: one per process.
#[derive(Debug, PartialEq, Eq)]
pub struct TrayIcon {
    pub id: String,
    pub tooltip: String,
}

/// Mathematical model of a [`TrayController`]: the icon and its menu.
pub struct TrayView {
    pub id: Seq<char>,
    pub tooltip: Seq<char>,
    pub menu: Seq<MenuEntryView>,
}

/// The tray of this application.
pub open spec fn standard_tray() -> TrayView {
    TrayView { id: TRAY_ID@, tooltip: TRAY_TOOLTIP@, menu: tray_menu() }
}

/// What selecting a menu item does to the windows, and what the host has to
/// do in turn.
pub open spec fn menu_reaction(ws: Seq<WindowView>, id: MenuId) -> (Seq<WindowView>, Seq<ActionView>) {
    match id {
        MenuId::Open => {
            if has_window(ws, MAIN_WINDOW@) {
                (after_show(ws, MAIN_WINDOW@), seq![ActionView::ShowAndFocus(MAIN_WINDOW@)])
            } else {
                (ws, Seq::empty())
            }
        },
        MenuId::QuickAdd => {
            let name = QUICK_ADD_WINDOW@;
            let shown = after_show(after_get_or_create(ws, name, quick_add_spec()), name);
            if has_window(ws, name) {
                (shown, seq![ActionView::ShowAndFocus(name)])
            } else {
                (
                    shown,
                    seq![
                        ActionView::Create { window: name, spec: quick_add_spec() },
                        ActionView::ShowAndFocus(name),
                    ],
                )
            }
        },
        MenuId::Quit => (ws, seq![ActionView::Exit(QUIT_EXIT_CODE)]),
        MenuId::Unknown => (ws, Seq::empty()),
    }
}

/// What a click on the tray icon does. Only the left button acts: it hides
/// the main window if it is on screen, and shows and focuses it otherwise.
/// Without a main window there is nothing to show.
pub open spec fn click_reaction(ws: Seq<WindowView>, button: MouseButton) -> (
    Seq<WindowView>,
    Seq<ActionView>,
) {
    if button == MouseButton::Left && has_window(ws, MAIN_WINDOW@) {
        if window_named(ws, MAIN_WINDOW@).visible {
            (after_hide(ws, MAIN_WINDOW@), seq![ActionView::Hide(MAIN_WINDOW@)])
        } else {
            (after_show(ws, MAIN_WINDOW@), seq![ActionView::ShowAndFocus(MAIN_WINDOW@)])
        }
    } else {
        (ws, Seq::empty())
    }
}

/// Owns the tray icon and its menu, and turns tray events into actions.
#[derive(Debug)]
pub struct TrayController {
    icon: TrayIcon,
    menu: Vec<MenuEntry>,
}

impl View for TrayController {
    type V = TrayView;

    closed spec fn view(&self) -> TrayView {
        TrayView { id: self.icon.id@, tooltip: self.icon.tooltip@, menu: entry_views(self.menu@) }
    }
}

impl TrayController {
    /// Once built, the icon and the menu never change.
    #[verifier::type_invariant]
    pub open spec fn well_formed(self) -> bool {
        self@ == standard_tray()
    }

    /// Builds the menu items, the menu and the icon of the tray.
    pub fn new() -> (tray: TrayController)
        ensures
            tray@ == standard_tray(),
    {
        TrayController {
            icon: TrayIcon { id: TRAY_ID.to_owned(), tooltip: TRAY_TOOLTIP.to_owned() },
            menu: build_tray_menu(),
        }
    }

    /// The tray icon.
    pub fn icon(&self) -> (icon: &TrayIcon)
        ensures
            icon.id@ == TRAY_ID@,
            icon.tooltip@ == TRAY_TOOLTIP@,
    {
        proof {
            use_type_invariant(self);
        }
        &self.icon
    }

    /// The menu entries, top to bottom.
    pub fn menu(&self) -> (menu: &Vec<MenuEntry>)
        ensures
            entry_views(menu@) == tray_menu(),
    {
        proof {
            use_type_invariant(self);
        }
        &self.menu
    }

    /// Handles the selection of the menu item with this id.
    pub fn on_menu_event(&self, registry: &mut WindowRegistry, id: &str) -> (actions: Vec<Action>)
        ensures
            (final(registry)@, action_views(actions@)) == menu_reaction(
                old(registry)@,
                decode_menu_id(id@),
            ),
    {
        let mut actions: Vec<Action> = Vec::new();
        match MenuId::decode(id) {
            MenuId::Open => {
                if let Some(main) = registry.lookup(MAIN_WINDOW) {
                    registry.show_and_focus(&main);
                    actions.push(Action::ShowAndFocus(main));
                }
            },
            MenuId::QuickAdd => {
                let existed = registry.lookup(QUICK_ADD_WINDOW).is_some();
                let spec = WindowSpec::quick_add();
                let window = registry.get_or_create(QUICK_ADD_WINDOW, spec.clone());
                if !existed {
                    actions.push(Action::Create { window: window.clone(), spec });
                }
                registry.show_and_focus(&window);
                actions.push(Action::ShowAndFocus(window));
            },
            MenuId::Quit => {
                actions.push(Action::Exit(QUIT_EXIT_CODE));
            },
            MenuId::Unknown => {},
        }
        assert(action_views(actions@) =~= menu_reaction(old(registry)@, decode_menu_id(id@)).1);
        actions
    }

    /// Handles a click on the tray icon.
    pub fn on_tray_click(&self, registry: &mut WindowRegistry, button: MouseButton) -> (actions:
        Vec<Action>)
        ensures
            (final(registry)@, action_views(actions@)) == click_reaction(old(registry)@, button),
    {
        let mut actions: Vec<Action> = Vec::new();
        match button {
            MouseButton::Left => {
                if let Some(main) = registry.lookup(MAIN_WINDOW) {
                    if registry.is_visible(&main) {
                        registry.hide_window(&main);
                        actions.push(Action::Hide(main));
                    } else {
                        registry.show_and_focus(&main);
                        actions.push(Action::ShowAndFocus(main));
                    }
                }
            },
            _ => {},
        }
        assert(action_views(actions@) =~= click_reaction(old(registry)@, button).1);
        actions
    }
}

} // verus!
