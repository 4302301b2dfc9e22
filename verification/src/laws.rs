//! What holds of the shell whatever events arrive.

use crate::close::close_reaction;
use crate::event::{exit_requested, ActionView, EventView, MouseButton, Position};
use crate::menu::{decode_menu_id, lemma_item_ids_decode, MenuId, QUIT_ID};
use crate::registry::{
    after_get_or_create, after_show, after_sighting, has_window, lemma_create_effect,
    lemma_create_wf, lemma_destroy_effect, lemma_destroy_wf, lemma_hide_effect, lemma_hide_wf,
    lemma_show_effect, lemma_show_wf, lemma_sighting_effect, lemma_sighting_wf, names_distinct,
    registry_wf, window_named,
};
use crate::shell::{
    after_startup_step, shell_reaction, Lifecycle, ShellView, StartupError, StartupStep,
};
use crate::tray::{click_reaction, menu_reaction, QUIT_EXIT_CODE};
use crate::window::{
    quick_add_spec, Sighting, WindowSpecView, WindowView, MAIN_WINDOW, QUICK_ADD_WINDOW,
};
use vstd::prelude::*;

verus! {

/// The shell after a sequence of events, handled one after the other.
pub open spec fn run(s: ShellView, events: Seq<EventView>) -> ShellView
    decreases events.len(),
{
    if events.len() == 0 {
        s
    } else {
        shell_reaction(run(s, events.drop_last()), events.last()).0
    }
}

/// A left click on the tray icon, wherever the pointer is.
pub open spec fn is_left_click(event: EventView) -> bool {
    event matches EventView::TrayClick { button, position } && button == MouseButton::Left
}

/// Selecting a menu item keeps the registry well formed and destroys no
/// window.
pub proof fn lemma_menu_reaction(ws: Seq<WindowView>, id: MenuId, other: Seq<char>)
    requires
        registry_wf(ws),
    ensures
        registry_wf(menu_reaction(ws, id).0),
        has_window(ws, other) ==> has_window(menu_reaction(ws, id).0, other),
{
    match id {
        MenuId::Open => {
            lemma_show_wf(ws, MAIN_WINDOW@);
            lemma_show_effect(ws, MAIN_WINDOW@, other);
        },
        MenuId::QuickAdd => {
            let name = QUICK_ADD_WINDOW@;
            let found = after_get_or_create(ws, name, quick_add_spec());
            if !has_window(ws, name) {
                lemma_create_wf(ws, name, quick_add_spec());
                lemma_create_effect(ws, name, quick_add_spec(), other);
            }
            lemma_show_wf(found, name);
            lemma_show_effect(found, name, other);
        },
        MenuId::Quit => {},
        MenuId::Unknown => {},
    }
}

/// A click on the tray icon keeps the registry well formed and destroys no
/// window.
pub proof fn lemma_click_reaction(ws: Seq<WindowView>, button: MouseButton, other: Seq<char>)
    requires
        registry_wf(ws),
    ensures
        registry_wf(click_reaction(ws, button).0),
        has_window(click_reaction(ws, button).0, other) == has_window(ws, other),
{
    lemma_show_wf(ws, MAIN_WINDOW@);
    lemma_hide_wf(ws, MAIN_WINDOW@);
    lemma_show_effect(ws, MAIN_WINDOW@, other);
    lemma_hide_effect(ws, MAIN_WINDOW@, other);
}

/// A close request keeps the registry well formed, and destroys at most the
/// window it names, and that one only if no interceptor guards it.
pub proof fn lemma_close_reaction(
    ws: Seq<WindowView>,
    guarded: Option<Seq<char>>,
    name: Seq<char>,
    other: Seq<char>,
)
    requires
        registry_wf(ws),
    ensures
        registry_wf(close_reaction(ws, guarded, name).0),
        has_window(close_reaction(ws, guarded, name).0, other) == (has_window(ws, other) && (other
            != name || guarded == Some(name))),
{
    lemma_hide_wf(ws, name);
    lemma_hide_effect(ws, name, other);
    lemma_destroy_wf(ws, name);
    lemma_destroy_effect(ws, name, other);
}

/// Every event leaves the shell well formed, and leaves the interceptor
/// where it is.
pub proof fn law_reaction_keeps_shell_well_formed(s: ShellView, event: EventView)
    requires
        s.wf(),
    ensures
        shell_reaction(s, event).0.wf(),
        shell_reaction(s, event).0.guarded == s.guarded,
{
    let name = MAIN_WINDOW@;
    match event {
        EventView::MenuEvent(id) => {
            lemma_menu_reaction(s.windows, decode_menu_id(id), name);
        },
        EventView::TrayClick { button, position } => {
            lemma_click_reaction(s.windows, button, name);
        },
        EventView::WindowCloseRequested(closing) => {
            lemma_close_reaction(s.windows, s.guarded, closing, name);
        },
    }
}

/// A left click on the tray icon toggles the main window: if it was on
/// screen it is hidden afterwards, and if it was hidden it is on screen and
/// holds the input focus afterwards. Nothing else happens: the shell keeps
/// running and no window appears or disappears.
pub proof fn law_left_click_toggles_main(s: ShellView, click: EventView)
    requires
        s.wf(),
        s.lifecycle == Lifecycle::Running,
        has_window(s.windows, MAIN_WINDOW@),
        is_left_click(click),
    ensures
        ({
            let before = window_named(s.windows, MAIN_WINDOW@);
            let (next, actions) = shell_reaction(s, click);
            let after = window_named(next.windows, MAIN_WINDOW@);
            &&& next.wf()
            &&& next.lifecycle == Lifecycle::Running
            &&& next.windows.len() == s.windows.len()
            &&& has_window(next.windows, MAIN_WINDOW@)
            &&& after.visible == !before.visible
            &&& after.visible ==> after.focused && !after.minimized
            &&& actions == if before.visible {
                seq![ActionView::Hide(MAIN_WINDOW@)]
            } else {
                seq![ActionView::ShowAndFocus(MAIN_WINDOW@)]
            }
        }),
{
    let name = MAIN_WINDOW@;
    lemma_show_wf(s.windows, name);
    lemma_hide_wf(s.windows, name);
    lemma_show_effect(s.windows, name, name);
    lemma_hide_effect(s.windows, name, name);
    let actions = shell_reaction(s, click).1;
    assert(actions.len() == 1);
    assert(actions.drop_first().len() == 0);
    assert(exit_requested(actions) is None) by {
        reveal_with_fuel(exit_requested, 2);
    }
}

/// Over any sequence of left clicks on the tray icon the main window
/// alternates: after an even number of clicks it is on screen exactly if it
/// was at the start, after an odd number exactly if it was not, and whenever
/// a click has put it on screen it holds the input focus.
pub proof fn law_left_clicks_alternate(s: ShellView, clicks: Seq<EventView>)
    requires
        s.wf(),
        s.lifecycle == Lifecycle::Running,
        has_window(s.windows, MAIN_WINDOW@),
        forall|i: int| 0 <= i < clicks.len() ==> is_left_click(#[trigger] clicks[i]),
    ensures
        ({
            let before = window_named(s.windows, MAIN_WINDOW@);
            let end = run(s, clicks);
            let after = window_named(end.windows, MAIN_WINDOW@);
            &&& end.wf()
            &&& end.lifecycle == Lifecycle::Running
            &&& end.windows.len() == s.windows.len()
            &&& has_window(end.windows, MAIN_WINDOW@)
            &&& after.visible == (if clicks.len() % 2 == 0 {
                before.visible
            } else {
                !before.visible
            })
            &&& clicks.len() > 0 && after.visible ==> after.focused
        }),
    decreases clicks.len(),
{
    if clicks.len() > 0 {
        let earlier = clicks.drop_last();
        assert forall|i: int| 0 <= i < earlier.len() implies is_left_click(
            #[trigger] earlier[i],
        ) by {
            assert(earlier[i] == clicks[i]);
        }
        law_left_clicks_alternate(s, earlier);
        law_left_click_toggles_main(run(s, earlier), clicks.last());
    }
}

/// The toggle goes by what the platform reports, not by what the shell did
/// last: after a sighting of the main window, a left click hides it if it
/// was seen on screen and shows and focuses it if it was not.
pub proof fn law_click_follows_sighting(s: ShellView, sighting: Sighting, click: EventView)
    requires
        s.wf(),
        s.lifecycle == Lifecycle::Running,
        has_window(s.windows, MAIN_WINDOW@),
        is_left_click(click),
    ensures
        ({
            let seen = ShellView {
                windows: after_sighting(s.windows, MAIN_WINDOW@, sighting),
                ..s
            };
            let next = shell_reaction(seen, click).0;
            let after = window_named(next.windows, MAIN_WINDOW@);
            &&& has_window(next.windows, MAIN_WINDOW@)
            &&& after.visible == !sighting.visible
            &&& after.visible ==> after.focused && !after.minimized
        }),
{
    lemma_sighting_wf(s.windows, MAIN_WINDOW@, sighting);
    lemma_sighting_effect(s.windows, MAIN_WINDOW@, sighting, MAIN_WINDOW@);
    let seen = ShellView { windows: after_sighting(s.windows, MAIN_WINDOW@, sighting), ..s };
    law_left_click_toggles_main(seen, click);
}

/// Asking twice in a row for the same window gives one window, not two:
/// the second request finds what the first left behind and changes nothing,
/// whatever specification it brings.
pub proof fn law_get_or_create_twice(
    ws: Seq<WindowView>,
    name: Seq<char>,
    first: WindowSpecView,
    second: WindowSpecView,
)
    requires
        registry_wf(ws),
    ensures
        ({
            let once = after_get_or_create(ws, name, first);
            let twice = after_get_or_create(once, name, second);
            &&& twice == once
            &&& has_window(once, name)
            &&& names_distinct(once)
            &&& once.len() == if has_window(ws, name) {
                ws.len()
            } else {
                ws.len() + 1
            }
            &&& !has_window(ws, name) ==> window_named(once, name) == WindowView::fresh(name, first)
        }),
{
    if !has_window(ws, name) {
        lemma_create_wf(ws, name, first);
        lemma_create_effect(ws, name, first, name);
    }
}

/// Selecting the quick-add item twice in a row constructs the window once:
/// the second selection only shows and focuses the window that the first
/// one left behind.
pub proof fn law_quick_add_twice(ws: Seq<WindowView>)
    requires
        registry_wf(ws),
    ensures
        ({
            let name = QUICK_ADD_WINDOW@;
            let (once, first) = menu_reaction(ws, MenuId::QuickAdd);
            let (twice, second) = menu_reaction(once, MenuId::QuickAdd);
            let window = window_named(once, name);
            &&& has_window(once, name)
            &&& twice == once
            &&& second == seq![ActionView::ShowAndFocus(name)]
            &&& window.visible && window.focused && !window.minimized
            &&& !has_window(ws, name) ==> window.spec == quick_add_spec() && once.len() == ws.len()
                + 1
        }),
{
    let name = QUICK_ADD_WINDOW@;
    let found = after_get_or_create(ws, name, quick_add_spec());
    if !has_window(ws, name) {
        lemma_create_wf(ws, name, quick_add_spec());
        lemma_create_effect(ws, name, quick_add_spec(), name);
    }
    lemma_show_wf(found, name);
    lemma_show_effect(found, name, name);
    let once = after_show(found, name);
    lemma_show_wf(once, name);
    lemma_show_effect(once, name, name);
    assert(after_get_or_create(once, name, quick_add_spec()) == once);
    let twice = after_show(once, name);
    assert forall|i: int| 0 <= i < once.len() implies #[trigger] twice[i] == once[i] by {
        assert(once[i] == if found[i].name == name {
            found[i].shown()
        } else {
            found[i].unfocused()
        });
    }
    assert(twice =~= once);
}

/// A close request for the guarded main window never takes the last window
/// away: the main window is still there afterwards, hidden, and no window
/// has gone.
pub proof fn law_close_request_hides_main(s: ShellView)
    requires
        s.wf(),
        s.lifecycle == Lifecycle::Running,
        s.main_guarded(),
    ensures
        ({
            let (next, actions) = shell_reaction(
                s,
                EventView::WindowCloseRequested(MAIN_WINDOW@),
            );
            &&& next.wf()
            &&& next.main_guarded()
            &&& next.lifecycle == Lifecycle::Running
            &&& next.windows.len() == s.windows.len()
            &&& next.windows.len() > 0
            &&& !window_named(next.windows, MAIN_WINDOW@).visible
            &&& actions == seq![
                ActionView::PreventClose(MAIN_WINDOW@),
                ActionView::Hide(MAIN_WINDOW@),
            ]
        }),
{
    let name = MAIN_WINDOW@;
    lemma_hide_wf(s.windows, name);
    lemma_hide_effect(s.windows, name, name);
    let actions = shell_reaction(s, EventView::WindowCloseRequested(name)).1;
    assert(actions.len() == 2);
    assert(actions.drop_first().len() == 1);
    assert(actions.drop_first().drop_first().len() == 0);
    assert(exit_requested(actions) is None) by {
        reveal_with_fuel(exit_requested, 3);
    }
}

/// Once the main window is guarded it stays: no event, whatever it is,
/// destroys it or takes its guard away.
pub proof fn law_main_window_persists(s: ShellView, event: EventView)
    requires
        s.wf(),
        s.main_guarded(),
    ensures
        shell_reaction(s, event).0.main_guarded(),
        shell_reaction(s, event).0.windows.len() > 0,
{
    let name = MAIN_WINDOW@;
    law_reaction_keeps_shell_well_formed(s, event);
    match event {
        EventView::MenuEvent(id) => {
            lemma_menu_reaction(s.windows, decode_menu_id(id), name);
        },
        EventView::TrayClick { button, position } => {
            lemma_click_reaction(s.windows, button, name);
        },
        EventView::WindowCloseRequested(closing) => {
            lemma_close_reaction(s.windows, s.guarded, closing, name);
        },
    }
}

/// Over any sequence of events a guarded main window stays.
pub proof fn law_main_window_always_persists(s: ShellView, events: Seq<EventView>)
    requires
        s.wf(),
        s.main_guarded(),
    ensures
        run(s, events).wf(),
        run(s, events).main_guarded(),
    decreases events.len(),
{
    if events.len() > 0 {
        law_main_window_always_persists(s, events.drop_last());
        law_reaction_keeps_shell_well_formed(run(s, events.drop_last()), events.last());
        law_main_window_persists(run(s, events.drop_last()), events.last());
    }
}

/// Selecting the quit item tells the host to end the process with exit code
/// 0 and does nothing else: no window changes.
pub proof fn law_quit_exits(s: ShellView)
    requires
        s.lifecycle == Lifecycle::Running,
    ensures
        shell_reaction(s, EventView::MenuEvent(QUIT_ID@)) == (
            ShellView { lifecycle: Lifecycle::Exited(0), ..s },
            seq![ActionView::Exit(0)],
        ),
{
    lemma_item_ids_decode();
    let actions = seq![ActionView::Exit(QUIT_EXIT_CODE)];
    assert(exit_requested(actions) == Some(0i32));
}

/// A shell that is not running handles nothing: whatever the event, the
/// state stays as it is and the host gets nothing to do. This holds before
/// startup is over, after startup was given up, and after the process was
/// told to end.
pub proof fn law_only_a_running_shell_handles(s: ShellView, event: EventView)
    requires
        s.lifecycle != Lifecycle::Running,
    ensures
        shell_reaction(s, event) == (s, Seq::<ActionView>::empty()),
{
}

/// After the quit item was selected no further event is handled, however
/// many arrive.
pub proof fn law_nothing_follows_quit(s: ShellView, events: Seq<EventView>)
    requires
        s.lifecycle == Lifecycle::Running,
    ensures
        run(shell_reaction(s, EventView::MenuEvent(QUIT_ID@)).0, events) == (ShellView {
            lifecycle: Lifecycle::Exited(0),
            ..s
        }),
    decreases events.len(),
{
    law_quit_exits(s);
    if events.len() > 0 {
        law_nothing_follows_quit(s, events.drop_last());
    }
}

/// A menu id that is none of the known ones changes nothing: no window
/// appears, disappears or changes its state, and the host gets nothing to
/// do.
pub proof fn law_unknown_menu_id_changes_nothing(s: ShellView, id: Seq<char>)
    requires
        decode_menu_id(id) == MenuId::Unknown,
    ensures
        shell_reaction(s, EventView::MenuEvent(id)) == (s, Seq::<ActionView>::empty()),
{
    assert(exit_requested(Seq::<ActionView>::empty()) is None);
}

/// A click on the tray icon with any button but the left one changes
/// nothing.
pub proof fn law_other_buttons_change_nothing(s: ShellView, button: MouseButton, position: Position)
    requires
        button != MouseButton::Left,
    ensures
        shell_reaction(s, EventView::TrayClick { button, position }) == (
            s,
            Seq::<ActionView>::empty(),
        ),
{
    assert(exit_requested(Seq::<ActionView>::empty()) is None);
}

/// The shell after the host reported the outcomes of a sequence of startup
/// steps.
pub open spec fn after_startup(s: ShellView, outcomes: Seq<bool>) -> ShellView
    decreases outcomes.len(),
{
    if outcomes.len() == 0 {
        s
    } else {
        after_startup_step(after_startup(s, outcomes.drop_last()), outcomes.last())
    }
}

/// When every startup step succeeds the shell ends up running, with the
/// windows as they were. If the main window exists it takes four steps and
/// the main window is guarded; if not it takes three and nothing is.
pub proof fn law_startup_succeeds(windows: Seq<WindowView>)
    requires
        registry_wf(windows),
    ensures
        ({
            let start = ShellView::initial(windows);
            let three = after_startup(start, seq![true, true, true]);
            let four = after_startup(start, seq![true, true, true, true]);
            let running = ShellView { lifecycle: Lifecycle::Running, ..start };
            &&& four.wf()
            &&& four.lifecycle == Lifecycle::Running
            &&& four.windows == windows
            &&& four.main_guarded() == has_window(windows, MAIN_WINDOW@)
            &&& !has_window(windows, MAIN_WINDOW@) ==> three == running && four == running
            &&& has_window(windows, MAIN_WINDOW@) ==> three.lifecycle == Lifecycle::Starting(
                StartupStep::AttachCloseInterceptor,
            )
        }),
{
    let start = ShellView::initial(windows);
    let s0 = seq![true, true, true, true];
    let s1 = s0.drop_last();
    let s2 = s1.drop_last();
    let s3 = s2.drop_last();
    assert(s1 =~= seq![true, true, true]);
    assert(s3.drop_last().len() == 0);
    reveal_with_fuel(after_startup, 5);
    assert(after_startup(start, s3.drop_last()) == start);
    assert(after_startup(start, s3).lifecycle == Lifecycle::Starting(StartupStep::BuildMenu));
    assert(after_startup(start, s2).lifecycle == Lifecycle::Starting(StartupStep::BuildTrayIcon));
}

/// A failure to build the menu items, the menu or the tray icon gives
/// startup up at once, with the error of the step that failed; a failure to
/// attach the close interceptor does not.
pub proof fn law_startup_failure(s: ShellView, step: StartupStep)
    requires
        s.lifecycle == Lifecycle::Starting(step),
    ensures
        after_startup_step(s, false).lifecycle == (match step {
            StartupStep::BuildMenuItems => Lifecycle::Aborted(StartupError::MenuItems),
            StartupStep::BuildMenu => Lifecycle::Aborted(StartupError::Menu),
            StartupStep::BuildTrayIcon => Lifecycle::Aborted(StartupError::TrayIcon),
            StartupStep::AttachCloseInterceptor => Lifecycle::Running,
        }),
        after_startup_step(s, false).windows == s.windows,
        after_startup_step(s, false).guarded == (if step == StartupStep::AttachCloseInterceptor {
            None
        } else {
            s.guarded
        }),
{
}

/// Once startup was given up nothing revives the shell: startup reports and
/// events alike leave it as it is.
pub proof fn law_aborted_is_final(s: ShellView, succeeded: bool, event: EventView)
    requires
        s.lifecycle is Aborted,
    ensures
        after_startup_step(s, succeeded) == s,
        shell_reaction(s, event) == (s, Seq::<ActionView>::empty()),
{
}

} // verus!
