//! The anchor's context menu, opened by a right click: the app's name and
//! version, then launching at login as a check item, then "Quit". No item has
//! a keyboard shortcut.

use vstd::prelude::*;

use crate::strings::{menu_login, menu_login_text, menu_quit, menu_quit_text, Lang};

verus! {

/// What a menu item does when chosen.
#[derive(Clone, Copy, Debug, PartialEq, Eq, Structural)]
pub enum MenuCommand {
    ToggleLogin,
    Quit,
}

/// One entry of the menu.
#[derive(Debug, PartialEq, Eq)]
pub enum MenuEntry {
    /// The app's name and version: an enabled item with no command.
    Version { text: String },
    /// A separator line.
    Separator,
    /// An item with a title, a command, a keyboard shortcut (empty for none)
    /// and a check mark.
    Item { title: &'static str, command: MenuCommand, key_equivalent: &'static str, checked: bool },
}

/// Title of the version entry: the app's name, a space and the version.
pub open spec fn version_title(version: Seq<char>) -> Seq<char> {
    "Nook "@ + version
}

/// Whether `entry` is the version entry for `version`.
pub open spec fn is_version(entry: MenuEntry, version: Seq<char>) -> bool {
    entry matches MenuEntry::Version { text } && text@ == version_title(version)
}

/// Whether `entry` is an item with this title, command and check mark, and
/// no keyboard shortcut.
pub open spec fn is_item(entry: MenuEntry, title: Seq<char>, command: MenuCommand, checked: bool) -> bool {
    entry matches MenuEntry::Item { title: t, command: c, key_equivalent: k, checked: m }
        && t@ == title && c == command && k@ == Seq::<char>::empty() && m == checked
}

/// The menu for the given language and app version, with the login item
/// checked when launching at login is on.
pub fn build(lang: Lang, login_enabled: bool, version: &str) -> (menu: Vec<MenuEntry>)
    ensures
        menu@.len() == 5,
        is_version(menu@[0], version@),
        menu@[1] == MenuEntry::Separator,
        is_item(menu@[2], menu_login_text(lang), MenuCommand::ToggleLogin, login_enabled),
        menu@[3] == MenuEntry::Separator,
        is_item(menu@[4], menu_quit_text(lang), MenuCommand::Quit, false),
{
    proof {
        reveal_strlit("");
        reveal_strlit("Nook ");
    }
    let mut title = "Nook ".to_owned();
    title.append(version);
    let mut menu = Vec::new();
    assert(title@ == version_title(version@));
    let empty = "";
    assert(empty@ == Seq::<char>::empty());
    menu.push(MenuEntry::Version { text: title });
    menu.push(MenuEntry::Separator);
    menu.push(
        MenuEntry::Item {
            title: menu_login(lang),
            command: MenuCommand::ToggleLogin,
            key_equivalent: empty,
            checked: login_enabled,
        },
    );
    menu.push(MenuEntry::Separator);
    menu.push(
        MenuEntry::Item {
            title: menu_quit(lang),
            command: MenuCommand::Quit,
            key_equivalent: empty,
            checked: false,
        },
    );
    menu
}

} // verus!
