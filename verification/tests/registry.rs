use zendo_shell::registry::WindowRegistry;
use zendo_shell::text::str_eq;
use zendo_shell::window::{
    Sighting, WindowSpec, MAIN_WINDOW, QUICK_ADD_CONTENT, QUICK_ADD_TITLE, QUICK_ADD_WINDOW,
};

fn main_spec() -> WindowSpec {
    WindowSpec {
        title: "zendo".to_string(),
        width: 800,
        height: 600,
        resizable: true,
        centered: false,
        always_on_top: false,
        skip_taskbar: false,
        content: "index.html".to_string(),
    }
}

#[test]
fn str_eq_compares_characters() {
    assert!(str_eq("main", "main"));
    assert!(str_eq("", ""));
    assert!(!str_eq("main", "mail"));
    assert!(!str_eq("main", "main "));
    assert!(!str_eq("quick-add", "quick_add"));
    assert!(str_eq("f\u{e9}e", "f\u{e9}e"));
    assert!(!str_eq("f\u{e9}e", "fee"));
}

#[test]
fn new_registry_is_empty() {
    let registry = WindowRegistry::new();
    assert_eq!(registry.len(), 0);
    assert!(registry.lookup(MAIN_WINDOW).is_none());
}

#[test]
fn quick_add_spec_is_small_fixed_and_on_top() {
    let spec = WindowSpec::quick_add();
    assert_eq!(spec.title, QUICK_ADD_TITLE);
    assert_eq!(spec.title, "Quick Add Todo");
    assert_eq!(spec.width, 400);
    assert_eq!(spec.height, 250);
    assert!(!spec.resizable);
    assert!(spec.centered);
    assert!(spec.always_on_top);
    assert!(spec.skip_taskbar);
    assert_eq!(spec.content, QUICK_ADD_CONTENT);
    assert_eq!(spec.content, "quick-add.html");
    assert_eq!(spec.clone(), spec);
}

#[test]
fn get_or_create_constructs_a_visible_focused_window() {
    let mut registry = WindowRegistry::new();
    let handle = registry.get_or_create(MAIN_WINDOW, main_spec());
    assert_eq!(handle.name(), "main");
    assert_eq!(registry.len(), 1);
    let window = registry.get(&handle).expect("the window was just constructed");
    assert_eq!(window.name, "main");
    assert_eq!(window.spec, main_spec());
    assert!(window.visible);
    assert!(window.focused);
    assert!(!window.minimized);
    assert!(registry.is_visible(&handle));
    assert!(registry.is_focused(&handle));
}

#[test]
fn get_or_create_twice_gives_one_window() {
    let mut registry = WindowRegistry::new();
    let first = registry.get_or_create(QUICK_ADD_WINDOW, WindowSpec::quick_add());
    let second = registry.get_or_create(QUICK_ADD_WINDOW, WindowSpec::quick_add());
    assert_eq!(first, second);
    assert_eq!(registry.len(), 1);
}

#[test]
fn get_or_create_leaves_an_existing_window_as_it_is() {
    let mut registry = WindowRegistry::new();
    let first = registry.get_or_create(MAIN_WINDOW, main_spec());
    registry.hide_window(&first);
    let second = registry.get_or_create(MAIN_WINDOW, WindowSpec::quick_add());
    assert_eq!(first, second);
    assert_eq!(registry.len(), 1);
    let window = registry.get(&second).expect("the window exists");
    assert_eq!(window.spec, main_spec());
    assert!(!window.visible);
    assert!(!window.focused);
}

#[test]
fn lookup_finds_only_what_exists() {
    let mut registry = WindowRegistry::new();
    registry.get_or_create(MAIN_WINDOW, main_spec());
    let found = registry.lookup("main").expect("main exists");
    assert_eq!(found.name(), "main");
    assert!(registry.lookup("quick-add").is_none());
    assert!(registry.lookup("Main").is_none());
    assert!(registry.lookup("").is_none());
    assert_eq!(registry.len(), 1);
}

#[test]
fn a_new_window_takes_the_focus_from_the_others() {
    let mut registry = WindowRegistry::new();
    let main = registry.get_or_create(MAIN_WINDOW, main_spec());
    let quick = registry.get_or_create(QUICK_ADD_WINDOW, WindowSpec::quick_add());
    assert_eq!(registry.len(), 2);
    assert!(registry.is_visible(&main));
    assert!(!registry.is_focused(&main));
    assert!(registry.is_focused(&quick));
}

#[test]
fn hide_window_takes_it_off_screen_and_keeps_it() {
    let mut registry = WindowRegistry::new();
    let main = registry.get_or_create(MAIN_WINDOW, main_spec());
    let quick = registry.get_or_create(QUICK_ADD_WINDOW, WindowSpec::quick_add());
    registry.hide_window(&quick);
    assert_eq!(registry.len(), 2);
    assert!(!registry.is_visible(&quick));
    assert!(!registry.is_focused(&quick));
    assert!(registry.is_visible(&main));
    assert!(registry.lookup(QUICK_ADD_WINDOW).is_some());
}

#[test]
fn show_and_focus_restores_and_takes_the_focus() {
    let mut registry = WindowRegistry::new();
    let main = registry.get_or_create(MAIN_WINDOW, main_spec());
    let quick = registry.get_or_create(QUICK_ADD_WINDOW, WindowSpec::quick_add());
    registry.record_sighting(&main, Sighting { visible: false, minimized: true });
    assert!(!registry.is_visible(&main));
    assert!(registry.get(&main).expect("main exists").minimized);
    registry.show_and_focus(&main);
    let window = registry.get(&main).expect("main exists");
    assert!(window.visible);
    assert!(window.focused);
    assert!(!window.minimized);
    assert!(!registry.is_focused(&quick));
    assert!(registry.is_visible(&quick));
}

#[test]
fn record_sighting_settles_visibility_and_drops_a_lost_focus() {
    let mut registry = WindowRegistry::new();
    let main = registry.get_or_create(MAIN_WINDOW, main_spec());
    registry.record_sighting(&main, Sighting { visible: true, minimized: false });
    assert!(registry.is_visible(&main));
    assert!(registry.is_focused(&main));
    registry.record_sighting(&main, Sighting { visible: true, minimized: true });
    assert!(registry.is_visible(&main));
    assert!(!registry.is_focused(&main));
    registry.record_sighting(&main, Sighting { visible: true, minimized: false });
    assert!(registry.is_visible(&main));
    assert!(!registry.is_focused(&main));
    registry.record_sighting(&main, Sighting { visible: false, minimized: false });
    assert!(!registry.is_visible(&main));
}

#[test]
fn a_failed_query_counts_as_false() {
    assert_eq!(
        Sighting::from_answers(Some(true), Some(false)),
        Sighting { visible: true, minimized: false }
    );
    assert_eq!(
        Sighting::from_answers(Some(false), Some(true)),
        Sighting { visible: false, minimized: true }
    );
    assert_eq!(Sighting::from_answers(None, None), Sighting { visible: false, minimized: false });
    assert_eq!(
        Sighting::from_answers(None, Some(true)),
        Sighting { visible: false, minimized: true }
    );
}

#[test]
fn destroy_removes_only_the_named_window() {
    let mut registry = WindowRegistry::new();
    let main = registry.get_or_create(MAIN_WINDOW, main_spec());
    let quick = registry.get_or_create(QUICK_ADD_WINDOW, WindowSpec::quick_add());
    registry.destroy(&main);
    assert_eq!(registry.len(), 1);
    assert!(registry.lookup(MAIN_WINDOW).is_none());
    let left = registry.get(&quick).expect("quick-add is still there");
    assert_eq!(left.name, "quick-add");
    assert!(left.visible);
    assert!(left.focused);
}

#[test]
fn a_stale_handle_does_nothing() {
    let mut registry = WindowRegistry::new();
    let main = registry.get_or_create(MAIN_WINDOW, main_spec());
    let quick = registry.get_or_create(QUICK_ADD_WINDOW, WindowSpec::quick_add());
    registry.destroy(&quick);
    assert!(!registry.is_visible(&quick));
    assert!(!registry.is_focused(&quick));
    assert!(registry.get(&quick).is_none());
    registry.show_and_focus(&quick);
    registry.hide_window(&quick);
    registry.record_sighting(&quick, Sighting { visible: true, minimized: false });
    registry.destroy(&quick);
    assert_eq!(registry.len(), 1);
    assert!(registry.lookup(QUICK_ADD_WINDOW).is_none());
    assert!(registry.is_visible(&main));
    assert!(!registry.is_focused(&main));
}

#[test]
fn a_destroyed_window_is_constructed_anew() {
    let mut registry = WindowRegistry::new();
    let quick = registry.get_or_create(QUICK_ADD_WINDOW, WindowSpec::quick_add());
    registry.hide_window(&quick);
    registry.destroy(&quick);
    let again = registry.get_or_create(QUICK_ADD_WINDOW, WindowSpec::quick_add());
    assert_eq!(again, quick);
    assert_eq!(registry.len(), 1);
    assert!(registry.is_visible(&again));
}
