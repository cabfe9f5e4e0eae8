//! The tray's menu: its entries, and the identifier and label of each.

use vstd::prelude::*;
use crate::text::same_text;

verus! {

/// What a click on an item of the tray's menu asks for.
#[derive(Clone, Copy, Debug, PartialEq, Eq, Structural)]
pub enum MenuAction {
    /// Open a fresh note.
    NewNote,
    /// Open the settings.
    Settings,
    /// Open the project's homepage.
    About,
    /// End the process.
    Quit,
}

/// An entry of the tray's menu.
#[derive(Clone, Copy, Debug, PartialEq, Eq, Structural)]
pub enum MenuEntry {
    /// An item that can be clicked.
    Item(MenuAction),
    /// A line between two groups of items.
    Separator,
}

impl MenuAction {
    /// The identifier under which the item's clicks arrive.
    pub open spec fn id_text(self) -> Seq<char> {
        match self {
            MenuAction::NewNote => "new_note"@,
            MenuAction::Settings => "settings"@,
            MenuAction::About => "about"@,
            MenuAction::Quit => "quit"@,
        }
    }

    /// The text that the menu shows for the item.
    pub open spec fn label_text(self) -> Seq<char> {
        match self {
            MenuAction::NewNote => "New Note"@,
            MenuAction::Settings => "Settings"@,
            MenuAction::About => "About"@,
            MenuAction::Quit => "Quit"@,
        }
    }

    /// The action whose item has the identifier `id`, if there is one.
    pub open spec fn with_id(id: Seq<char>) -> Option<MenuAction> {
        if id == MenuAction::NewNote.id_text() {
            Some(MenuAction::NewNote)
        } else if id == MenuAction::Settings.id_text() {
            Some(MenuAction::Settings)
        } else if id == MenuAction::About.id_text() {
            Some(MenuAction::About)
        } else if id == MenuAction::Quit.id_text() {
            Some(MenuAction::Quit)
        } else {
            None
        }
    }

    /// The identifier under which the item's clicks arrive.
    pub fn id(&self) -> (id: &'static str)
        ensures
            id@ == self.id_text(),
    {
        match self {
            MenuAction::NewNote => "new_note",
            MenuAction::Settings => "settings",
            MenuAction::About => "about",
            MenuAction::Quit => "quit",
        }
    }

    /// The text that the menu shows for the item.
    pub fn label(&self) -> (label: &'static str)
        ensures
            label@ == self.label_text(),
    {
        match self {
            MenuAction::NewNote => "New Note",
            MenuAction::Settings => "Settings",
            MenuAction::About => "About",
            MenuAction::Quit => "Quit",
        }
    }

    /// Finds the action of the item with the identifier `id`; `None` where no
    /// item of the menu has it.
    pub fn from_id(id: &str) -> (action: Option<MenuAction>)
        ensures
            action == MenuAction::with_id(id@),
    {
        if same_text(id, "new_note") {
            Some(MenuAction::NewNote)
        } else if same_text(id, "settings") {
            Some(MenuAction::Settings)
        } else if same_text(id, "about") {
            Some(MenuAction::About)
        } else if same_text(id, "quit") {
            Some(MenuAction::Quit)
        } else {
            None
        }
    }
}

/// The entries of the tray's menu, from top to bottom.
pub open spec fn tray_entries() -> Seq<MenuEntry> {
    seq![
        MenuEntry::Item(MenuAction::NewNote),
        MenuEntry::Item(MenuAction::Settings),
        MenuEntry::Separator,
        MenuEntry::Item(MenuAction::About),
        MenuEntry::Separator,
        MenuEntry::Item(MenuAction::Quit),
    ]
}

/// Builds the tray's menu: New Note, Settings, a separator, About, a
/// separator, Quit.
pub fn tray_menu() -> (menu: Vec<MenuEntry>)
    ensures
        menu@ == tray_entries(),
{
    let mut menu: Vec<MenuEntry> = Vec::new();
    menu.push(MenuEntry::Item(MenuAction::NewNote));
    menu.push(MenuEntry::Item(MenuAction::Settings));
    menu.push(MenuEntry::Separator);
    menu.push(MenuEntry::Item(MenuAction::About));
    menu.push(MenuEntry::Separator);
    menu.push(MenuEntry::Item(MenuAction::Quit));
    assert(menu@ =~= tray_entries());
    menu
}

/// No two items share an identifier, so an identifier names its item: the
/// action found for `id` is `action` exactly where `id` is the identifier of
/// `action`.
pub proof fn lemma_id_names_its_action(action: MenuAction, id: Seq<char>)
    ensures
        MenuAction::with_id(id) == Some(action) <==> id == action.id_text(),
{
    reveal_strlit("new_note");
    reveal_strlit("settings");
    reveal_strlit("about");
    reveal_strlit("quit");
    assert("new_note"@.len() == 8 && "settings"@.len() == 8 && "about"@.len() == 5 && "quit"@.len()
        == 4);
    assert("new_note"@[0] == 'n' && "settings"@[0] == 's');
}

/// Each action has one item in the tray's menu, and only one.
pub proof fn lemma_menu_offers_each_action_once(action: MenuAction)
    ensures
        exists|i: int|
            0 <= i < tray_entries().len() && tray_entries()[i] == MenuEntry::Item(action) && forall|
                j: int,
            |
                0 <= j < tray_entries().len() && tray_entries()[j] == MenuEntry::Item(action) ==> j
                    == i,
{
    let i: int = match action {
        MenuAction::NewNote => 0,
        MenuAction::Settings => 1,
        MenuAction::About => 3,
        MenuAction::Quit => 5,
    };
    assert(tray_entries()[i] == MenuEntry::Item(action));
}

} // verus!
