//! Interface strings in English and Russian, and the choice of language.

use vstd::prelude::*;

verus! {

/// Interface language.
#[derive(Clone, Copy, Debug, PartialEq, Eq, Structural)]
pub enum Lang {
    En,
    Ru,
}

/// A language tag names Russian when it starts with `ru`, in any letter case
/// (`ru`, `ru-RU`, `RU_ru`, ...).
pub open spec fn is_russian_tag(tag: Seq<char>) -> bool {
    &&& tag.len() >= 2
    &&& (tag[0] == 'r' || tag[0] == 'R')
    &&& (tag[1] == 'u' || tag[1] == 'U')
}

/// The language chosen from the system's preferred languages, most preferred
/// first: Russian when the first of them is a Russian tag, English otherwise
/// (and when there is none).
pub open spec fn detected_lang(preferred: Seq<Seq<char>>) -> Lang {
    if preferred.len() > 0 && is_russian_tag(preferred[0]) {
        Lang::Ru
    } else {
        Lang::En
    }
}

/// Whether `tag` starts with `ru` in any letter case.
pub fn is_russian(tag: &str) -> (r: bool)
    ensures
        r == is_russian_tag(tag@),
{
    broadcast use vstd::string::axiom_spec_iter, vstd::string::next_postcondition;

    let mut chars = tag.chars();
    let first = chars.next();
    let second = chars.next();
    match (first, second) {
        (Some(a), Some(b)) => (a == 'r' || a == 'R') && (b == 'u' || b == 'U'),
        _ => false,
    }
}

/// Picks the interface language from the system's preferred languages
/// (most preferred first).
pub fn detect(preferred: &Vec<String>) -> (lang: Lang)
    ensures
        lang == detected_lang(preferred@.map_values(|s: String| s@)),
{
    if preferred.len() > 0 && is_russian(preferred[0].as_str()) {
        Lang::Ru
    } else {
        Lang::En
    }
}

/// Menu item "About".
pub fn menu_about(lang: Lang) -> (s: &'static str)
    ensures
        s@ == (match lang {
            Lang::En => "About Nook"@,
            Lang::Ru => "О Nook"@,
        }),
{
    match lang {
        Lang::En => "About Nook",
        Lang::Ru => "О Nook",
    }
}

/// Text of the menu item "Quit".
pub open spec fn menu_quit_text(lang: Lang) -> Seq<char> {
    match lang {
        Lang::En => "Quit"@,
        Lang::Ru => "Выход"@,
    }
}

/// Menu item "Quit".
pub fn menu_quit(lang: Lang) -> (s: &'static str)
    ensures
        s@ == menu_quit_text(lang),
{
    match lang {
        Lang::En => "Quit",
        Lang::Ru => "Выход",
    }
}

/// Text of the menu item that turns launching at login on and off.
pub open spec fn menu_login_text(lang: Lang) -> Seq<char> {
    match lang {
        Lang::En => "Open at Login"@,
        Lang::Ru => "Запускать при входе"@,
    }
}

/// Menu item that turns launching at login on and off.
pub fn menu_login(lang: Lang) -> (s: &'static str)
    ensures
        s@ == menu_login_text(lang),
{
    match lang {
        Lang::En => "Open at Login",
        Lang::Ru => "Запускать при входе",
    }
}

/// Tooltip of the anchor: how to fix a wrong order of the two items.
pub fn anchor_tooltip(lang: Lang) -> (s: &'static str)
    ensures
        s@ == (match lang {
            Lang::En => "The anchor must sit after the cutter (cutter on its left). Fix with Cmd+drag."@,
            Lang::Ru => "Якорь должен идти за cutter (cutter слева от него). Поправь Cmd+drag."@,
        }),
{
    match lang {
        Lang::En => "The anchor must sit after the cutter (cutter on its left). Fix with Cmd+drag.",
        Lang::Ru => "Якорь должен идти за cutter (cutter слева от него). Поправь Cmd+drag.",
    }
}

/// Tooltip of the cutter, the boundary of the hide zone.
pub fn cutter_tooltip(lang: Lang) -> (s: &'static str)
    ensures
        s@ == (match lang {
            Lang::En => "Cutter — boundary of the hide zone"@,
            Lang::Ru => "Cutter — граница зоны скрытия"@,
        }),
{
    match lang {
        Lang::En => "Cutter — boundary of the hide zone",
        Lang::Ru => "Cutter — граница зоны скрытия",
    }
}

} // verus!
