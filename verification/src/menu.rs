//! The window's menu bar, described as plain data.
//!
//! The description names no widget of any windowing host. The host walks it
//! once at startup and creates one native entry for each item it finds.
use vstd::prelude::*;

verus! {

/// One entry that the user can pick.
#[derive(Debug, PartialEq, Eq)]
pub struct MenuItem {
    /// The name under which a pick of this entry is reported.
    pub id: String,
    /// The label shown to the user.
    pub title: String,
}

/// A titled group of entries in the menu bar.
#[derive(Debug, PartialEq, Eq)]
pub struct Submenu {
    /// The label shown in the menu bar.
    pub title: String,
    /// The entries, from top to bottom.
    pub items: Vec<MenuItem>,
}

/// The menu bar: its groups, from left to right.
#[derive(Debug, PartialEq, Eq)]
pub struct Menu {
    pub submenus: Vec<Submenu>,
}

/// What a `MenuItem` holds, as mathematical values.
pub struct MenuItemView {
    pub id: Seq<char>,
    pub title: Seq<char>,
}

/// What a `Submenu` holds, as mathematical values.
pub struct SubmenuView {
    pub title: Seq<char>,
    pub items: Seq<MenuItemView>,
}

impl View for MenuItem {
    type V = MenuItemView;

    open spec fn view(&self) -> MenuItemView {
        MenuItemView { id: self.id@, title: self.title@ }
    }
}

impl View for Submenu {
    type V = SubmenuView;

    open spec fn view(&self) -> SubmenuView {
        SubmenuView { title: self.title@, items: self.items@.map_values(|item: MenuItem| item@) }
    }
}

impl View for Menu {
    type V = Seq<SubmenuView>;

    open spec fn view(&self) -> Seq<SubmenuView> {
        self.submenus@.map_values(|submenu: Submenu| submenu@)
    }
}

/// The one group of the menu bar: "File", holding "Quit" above "Close".
pub open spec fn file_submenu() -> SubmenuView {
    SubmenuView {
        title: "File"@,
        items: seq![
            MenuItemView { id: "quit"@, title: "Quit"@ },
            MenuItemView { id: "close"@, title: "Close"@ },
        ],
    }
}

/// The menu bar that the window starts with.
pub open spec fn startup_menu() -> Seq<SubmenuView> {
    seq![file_submenu()]
}

/// Builds the menu bar that the window starts with. It takes no input, so
/// every call gives the same menu: one group, "File", with the two entries
/// "Quit" and "Close", in that order.
pub fn build_menu() -> (menu: Menu)
    ensures
        menu@ == startup_menu(),
        menu@.len() == 1,
        menu@[0].title == "File"@,
        menu@[0].items.len() == 2,
        menu@[0].items[0].title == "Quit"@,
        menu@[0].items[1].title == "Close"@,
{
    let quit = MenuItem { id: "quit".to_owned(), title: "Quit".to_owned() };
    let close = MenuItem { id: "close".to_owned(), title: "Close".to_owned() };
    let mut items: Vec<MenuItem> = Vec::new();
    items.push(quit);
    items.push(close);
    let file = Submenu { title: "File".to_owned(), items };
    let mut submenus: Vec<Submenu> = Vec::new();
    submenus.push(file);
    let menu = Menu { submenus };
    assert(file@.items =~= file_submenu().items);
    assert(menu@ =~= startup_menu());
    menu
}

} // verus!
