use zendo_shell::close::{settle_close_request, CloseInterceptor};
use zendo_shell::event::{requested_exit, Action, MouseButton};
use zendo_shell::greeting::greet;
use zendo_shell::menu::{
    build_tray_menu, menu_item, MenuEntry, MenuId, MenuItem, OPEN_ID, QUICK_ADD_ID, QUIT_ID,
};
use zendo_shell::registry::WindowRegistry;
use zendo_shell::tray::{TrayController, QUIT_EXIT_CODE, TRAY_ID, TRAY_TOOLTIP};
use zendo_shell::window::{Sighting, WindowSpec, MAIN_WINDOW, QUICK_ADD_WINDOW};

fn plain_spec() -> WindowSpec {
    WindowSpec {
        title: "zendo".to_string(),
        width: 1024,
        height: 768,
        resizable: true,
        centered: false,
        always_on_top: false,
        skip_taskbar: false,
        content: "index.html".to_string(),
    }
}

fn registry_with_main() -> WindowRegistry {
    let mut registry = WindowRegistry::new();
    registry.get_or_create(MAIN_WINDOW, plain_spec());
    registry
}

#[test]
fn greet_formats_the_greeting() {
    assert_eq!(greet("Ada"), "Hello, Ada! You've been greeted from Rust!");
    assert_eq!(greet(""), "Hello, ! You've been greeted from Rust!");
}

#[test]
fn menu_ids_decode_to_their_meaning() {
    assert_eq!(MenuId::decode("open"), MenuId::Open);
    assert_eq!(MenuId::decode("quick_add"), MenuId::QuickAdd);
    assert_eq!(MenuId::decode("quit"), MenuId::Quit);
    assert_eq!(MenuId::decode(OPEN_ID), MenuId::Open);
    assert_eq!(MenuId::decode(QUICK_ADD_ID), MenuId::QuickAdd);
    assert_eq!(MenuId::decode(QUIT_ID), MenuId::Quit);
}

#[test]
fn other_menu_ids_are_unknown() {
    assert_eq!(MenuId::decode(""), MenuId::Unknown);
    assert_eq!(MenuId::decode("Open"), MenuId::Unknown);
    assert_eq!(MenuId::decode("quick-add"), MenuId::Unknown);
    assert_eq!(MenuId::decode("quit "), MenuId::Unknown);
    assert_eq!(MenuId::decode("settings"), MenuId::Unknown);
}

#[test]
fn tray_menu_lists_open_quick_add_separator_quit() {
    let menu = build_tray_menu();
    let expected = vec![
        MenuEntry::Item(MenuItem { id: "open".to_string(), label: "Open Zendo".to_string() }),
        MenuEntry::Item(MenuItem {
            id: "quick_add".to_string(),
            label: "Quick Add Todo".to_string(),
        }),
        MenuEntry::Separator,
        MenuEntry::Item(MenuItem { id: "quit".to_string(), label: "Quit".to_string() }),
    ];
    assert_eq!(menu, expected);
    assert_eq!(
        menu_item("x", "Y"),
        MenuEntry::Item(MenuItem { id: "x".to_string(), label: "Y".to_string() })
    );
}

#[test]
fn tray_controller_owns_icon_and_menu() {
    let tray = TrayController::new();
    assert_eq!(tray.icon().id, "main-tray");
    assert_eq!(tray.icon().tooltip, "zendo - Todo Manager");
    assert_eq!(tray.icon().id, TRAY_ID);
    assert_eq!(tray.icon().tooltip, TRAY_TOOLTIP);
    assert_eq!(tray.menu(), &build_tray_menu());
}

#[test]
fn open_shows_and_focuses_main() {
    let tray = TrayController::new();
    let mut registry = registry_with_main();
    let main = registry.lookup(MAIN_WINDOW).expect("main exists");
    registry.record_sighting(&main, Sighting { visible: false, minimized: true });
    let actions = tray.on_menu_event(&mut registry, "open");
    assert_eq!(actions, vec![Action::ShowAndFocus(main.clone())]);
    let window = registry.get(&main).expect("main exists");
    assert!(window.visible && window.focused && !window.minimized);
    assert_eq!(registry.len(), 1);
}

#[test]
fn open_without_main_does_nothing() {
    let tray = TrayController::new();
    let mut registry = WindowRegistry::new();
    let actions = tray.on_menu_event(&mut registry, "open");
    assert_eq!(actions, vec![]);
    assert_eq!(registry.len(), 0);
}

#[test]
fn quick_add_constructs_the_window_once() {
    let tray = TrayController::new();
    let mut registry = registry_with_main();
    let first = tray.on_menu_event(&mut registry, "quick_add");
    let quick = registry.lookup(QUICK_ADD_WINDOW).expect("quick-add was constructed");
    assert_eq!(
        first,
        vec![
            Action::Create { window: quick.clone(), spec: WindowSpec::quick_add() },
            Action::ShowAndFocus(quick.clone()),
        ]
    );
    assert_eq!(registry.len(), 2);
    let window = registry.get(&quick).expect("quick-add exists");
    assert_eq!(window.spec.width, 400);
    assert_eq!(window.spec.height, 250);
    assert!(!window.spec.resizable);
    assert!(window.spec.always_on_top && window.spec.skip_taskbar && window.spec.centered);
    assert_eq!(window.spec.title, "Quick Add Todo");
    assert!(window.visible && window.focused);

    registry.hide_window(&quick);
    let second = tray.on_menu_event(&mut registry, "quick_add");
    assert_eq!(second, vec![Action::ShowAndFocus(quick.clone())]);
    assert_eq!(registry.len(), 2);
    assert!(registry.is_visible(&quick));
    assert!(registry.is_focused(&quick));
}

#[test]
fn quit_asks_for_exit_code_zero() {
    let tray = TrayController::new();
    let mut registry = registry_with_main();
    let actions = tray.on_menu_event(&mut registry, "quit");
    assert_eq!(actions, vec![Action::Exit(0)]);
    assert_eq!(QUIT_EXIT_CODE, 0);
    assert_eq!(requested_exit(&actions), Some(0));
    assert_eq!(registry.len(), 1);
    let main = registry.lookup(MAIN_WINDOW).expect("main exists");
    assert!(registry.is_visible(&main));
}

#[test]
fn unknown_menu_id_changes_nothing() {
    let tray = TrayController::new();
    let mut registry = registry_with_main();
    let main = registry.lookup(MAIN_WINDOW).expect("main exists");
    let actions = tray.on_menu_event(&mut registry, "preferences");
    assert_eq!(actions, vec![]);
    assert_eq!(registry.len(), 1);
    assert!(registry.is_visible(&main));
    assert!(registry.is_focused(&main));
    assert!(registry.lookup(QUICK_ADD_WINDOW).is_none());
}

#[test]
fn left_click_toggles_main() {
    let tray = TrayController::new();
    let mut registry = registry_with_main();
    let main = registry.lookup(MAIN_WINDOW).expect("main exists");
    let first = tray.on_tray_click(&mut registry, MouseButton::Left);
    assert_eq!(first, vec![Action::Hide(main.clone())]);
    assert!(!registry.is_visible(&main));
    assert!(!registry.is_focused(&main));
    let second = tray.on_tray_click(&mut registry, MouseButton::Left);
    assert_eq!(second, vec![Action::ShowAndFocus(main.clone())]);
    assert!(registry.is_visible(&main));
    assert!(registry.is_focused(&main));
}

#[test]
fn other_buttons_are_ignored() {
    let tray = TrayController::new();
    let mut registry = registry_with_main();
    let main = registry.lookup(MAIN_WINDOW).expect("main exists");
    assert_eq!(tray.on_tray_click(&mut registry, MouseButton::Right), vec![]);
    assert_eq!(tray.on_tray_click(&mut registry, MouseButton::Middle), vec![]);
    assert!(registry.is_visible(&main));
}

#[test]
fn left_click_without_main_does_nothing() {
    let tray = TrayController::new();
    let mut registry = WindowRegistry::new();
    assert_eq!(tray.on_tray_click(&mut registry, MouseButton::Left), vec![]);
    assert_eq!(registry.len(), 0);
}

#[test]
fn requested_exit_finds_the_first_exit() {
    let mut registry = registry_with_main();
    let main = registry.get_or_create(MAIN_WINDOW, plain_spec());
    assert_eq!(requested_exit(&vec![]), None);
    assert_eq!(requested_exit(&vec![Action::Hide(main.clone())]), None);
    assert_eq!(
        requested_exit(&vec![Action::Hide(main.clone()), Action::Exit(3), Action::Exit(4)]),
        Some(3)
    );
    assert_eq!(requested_exit(&vec![Action::Exit(-1), Action::ShowAndFocus(main)]), Some(-1));
}

#[test]
fn interceptor_attaches_only_to_a_window_that_exists() {
    let registry = registry_with_main();
    let guard = CloseInterceptor::attach(&registry, MAIN_WINDOW).expect("main exists");
    assert_eq!(guard.window().name(), "main");
    assert!(guard.guards("main"));
    assert!(!guard.guards("quick-add"));
    assert!(CloseInterceptor::attach(&registry, QUICK_ADD_WINDOW).is_none());
}

#[test]
fn interceptor_hides_instead_of_closing() {
    let mut registry = registry_with_main();
    let main = registry.lookup(MAIN_WINDOW).expect("main exists");
    let guard = CloseInterceptor::attach(&registry, MAIN_WINDOW).expect("main exists");
    let actions = guard.on_close_requested(&mut registry);
    assert_eq!(actions, vec![Action::PreventClose(main.clone()), Action::Hide(main.clone())]);
    assert_eq!(registry.len(), 1);
    assert!(registry.lookup(MAIN_WINDOW).is_some());
    assert!(!registry.is_visible(&main));
}

#[test]
fn close_request_goes_through_the_guard_or_destroys() {
    let mut registry = registry_with_main();
    let main = registry.lookup(MAIN_WINDOW).expect("main exists");
    let quick = registry.get_or_create(QUICK_ADD_WINDOW, WindowSpec::quick_add());
    let guard = CloseInterceptor::attach(&registry, MAIN_WINDOW);

    let on_quick = settle_close_request(&guard, &mut registry, QUICK_ADD_WINDOW);
    assert_eq!(on_quick, vec![]);
    assert_eq!(registry.len(), 1);
    assert!(registry.lookup(QUICK_ADD_WINDOW).is_none());
    assert!(registry.get(&quick).is_none());

    let on_main = settle_close_request(&guard, &mut registry, MAIN_WINDOW);
    assert_eq!(on_main, vec![Action::PreventClose(main.clone()), Action::Hide(main.clone())]);
    assert_eq!(registry.len(), 1);
    assert!(!registry.is_visible(&main));

    let on_nothing = settle_close_request(&guard, &mut registry, "settings");
    assert_eq!(on_nothing, vec![]);
    assert_eq!(registry.len(), 1);

    let unguarded = settle_close_request(&None, &mut registry, MAIN_WINDOW);
    assert_eq!(unguarded, vec![]);
    assert_eq!(registry.len(), 0);
}
