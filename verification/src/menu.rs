//! The tray's context menu: its items in order, and the decoding of item ids.

use crate::text::str_eq;
use vstd::prelude::*;

verus! {

/// Id of the item that brings the main window up.
pub const OPEN_ID: &'static str = "open";

/// Id of the item that brings the quick-add window up.
pub const QUICK_ADD_ID: &'static str = "quick_add";

/// Id of the item that ends the process.
pub const QUIT_ID: &'static str = "quit";

/// Label of the item that brings the main window up.
pub const OPEN_LABEL: &'static str = "Open Zendo";

/// Label of the item that brings the quick-add window up.
pub const QUICK_ADD_LABEL: &'static str = "Quick Add Todo";

/// Label of the item that ends the process.
pub const QUIT_LABEL: &'static str = "Quit";

/// What a menu item id stands for, decoded once where the event comes in.
#[derive(Clone, Copy, Debug, PartialEq, Eq)]
pub enum MenuId {
    Open,
    QuickAdd,
    Quit,
    /// Any id that is none of the three above.
    Unknown,
}

/// The meaning of an item id.
pub open spec fn decode_menu_id(id: Seq<char>) -> MenuId {
    if id == OPEN_ID@ {
        MenuId::Open
    } else if id == QUICK_ADD_ID@ {
        MenuId::QuickAdd
    } else if id == QUIT_ID@ {
        MenuId::Quit
    } else {
        MenuId::Unknown
    }
}

impl MenuId {
    /// Decodes an item id as the platform reports it.
    pub fn decode(id: &str) -> (decoded: MenuId)
        ensures
            decoded == decode_menu_id(id@),
    {
        if str_eq(id, OPEN_ID) {
            MenuId::Open
        } else if str_eq(id, QUICK_ADD_ID) {
            MenuId::QuickAdd
        } else if str_eq(id, QUIT_ID) {
            MenuId::Quit
        } else {
            MenuId::Unknown
        }
    }
}

/// A selectable entry of the menu.
#[derive(Debug, PartialEq, Eq)]
pub struct MenuItem {
    pub id: String,
    pub label: String,
}

/// Mathematical model of a [`MenuItem`].
pub struct MenuItemView {
    pub id: Seq<char>,
    pub label: Seq<char>,
}

impl View for MenuItem {
    type V = MenuItemView;

    open spec fn view(&self) -> MenuItemView {
        MenuItemView { id: self.id@, label: self.label@ }
    }
}

/// One line of the menu: an item, or the rule that separates groups of items.
#[derive(Debug, PartialEq, Eq)]
pub enum MenuEntry {
    Item(MenuItem),
    Separator,
}

/// Mathematical model of a [`MenuEntry`].
pub enum MenuEntryView {
    Item(MenuItemView),
    Separator,
}

impl View for MenuEntry {
    type V = MenuEntryView;

    open spec fn view(&self) -> MenuEntryView {
        match self {
            MenuEntry::Item(item) => MenuEntryView::Item(item@),
            MenuEntry::Separator => MenuEntryView::Separator,
        }
    }
}

/// The models of a sequence of menu entries, one by one.
pub open spec fn entry_views(entries: Seq<MenuEntry>) -> Seq<MenuEntryView> {
    entries.map_values(|e: MenuEntry| e@)
}

/// The tray menu, top to bottom: open, quick add, a separator, quit.
pub open spec fn tray_menu() -> Seq<MenuEntryView> {
    seq![
        MenuEntryView::Item(MenuItemView { id: OPEN_ID@, label: OPEN_LABEL@ }),
        MenuEntryView::Item(MenuItemView { id: QUICK_ADD_ID@, label: QUICK_ADD_LABEL@ }),
        MenuEntryView::Separator,
        MenuEntryView::Item(MenuItemView { id: QUIT_ID@, label: QUIT_LABEL@ }),
    ]
}

/// Builds one menu item.
pub fn menu_item(id: &str, label: &str) -> (entry: MenuEntry)
    ensures
        entry@ == MenuEntryView::Item(MenuItemView { id: id@, label: label@ }),
{
    MenuEntry::Item(MenuItem { id: id.to_owned(), label: label.to_owned() })
}

/// Builds the tray menu.
pub fn build_tray_menu() -> (menu: Vec<MenuEntry>)
    ensures
        entry_views(menu@) == tray_menu(),
{
    let mut menu: Vec<MenuEntry> = Vec::new();
    menu.push(menu_item(OPEN_ID, OPEN_LABEL));
    menu.push(menu_item(QUICK_ADD_ID, QUICK_ADD_LABEL));
    menu.push(MenuEntry::Separator);
    menu.push(menu_item(QUIT_ID, QUIT_LABEL));
    assert(entry_views(menu@) =~= tray_menu());
    menu
}

/// The three item ids are pairwise different, and each decodes to its own
/// meaning; none of them is taken for an unknown id.
pub proof fn lemma_item_ids_decode()
    ensures
        decode_menu_id(OPEN_ID@) == MenuId::Open,
        decode_menu_id(QUICK_ADD_ID@) == MenuId::QuickAdd,
        decode_menu_id(QUIT_ID@) == MenuId::Quit,
{
    reveal_strlit("open");
    reveal_strlit("quick_add");
    reveal_strlit("quit");
    assert(OPEN_ID@.len() == 4 && OPEN_ID@[0] == 'o');
    assert(QUICK_ADD_ID@.len() == 9);
    assert(QUIT_ID@.len() == 4 && QUIT_ID@[0] == 'q');
}

} // verus!
