use nook::login::{is_enabled, toggle, LoginAction, LoginStatus};
use nook::menu::{build, MenuCommand, MenuEntry};
use nook::status_bar::{AnchorSymbol, ItemPositions};
use nook::strings::{
    anchor_tooltip, cutter_tooltip, detect, is_russian, menu_about, menu_login, menu_quit, Lang,
};

fn langs(tags: &[&str]) -> Vec<String> {
    tags.iter().map(|t| t.to_string()).collect()
}

#[test]
fn detect_russian_first_language() {
    assert_eq!(detect(&langs(&["ru-RU", "en-US"])), Lang::Ru);
    assert_eq!(detect(&langs(&["ru"])), Lang::Ru);
    assert_eq!(detect(&langs(&["RU-ru"])), Lang::Ru);
    assert_eq!(detect(&langs(&["Ru"])), Lang::Ru);
}

#[test]
fn detect_other_first_language_is_english() {
    assert_eq!(detect(&langs(&["en-US", "ru-RU"])), Lang::En);
    assert_eq!(detect(&langs(&["de"])), Lang::En);
    assert_eq!(detect(&langs(&["r"])), Lang::En);
    assert_eq!(detect(&langs(&["uk-UA"])), Lang::En);
    assert_eq!(detect(&langs(&["rum"])), Lang::Ru);
    assert_eq!(detect(&langs(&[""])), Lang::En);
}

#[test]
fn detect_no_language_is_english() {
    assert_eq!(detect(&Vec::new()), Lang::En);
}

#[test]
fn is_russian_handles_non_ascii() {
    assert!(!is_russian("рус"));
    assert!(!is_russian("ŕu"));
    assert!(is_russian("rU"));
    assert!(!is_russian("ur"));
}

#[test]
fn strings_in_both_languages() {
    assert_eq!(menu_quit(Lang::En), "Quit");
    assert_eq!(menu_quit(Lang::Ru), "Выход");
    assert_eq!(menu_about(Lang::En), "About Nook");
    assert_eq!(menu_about(Lang::Ru), "О Nook");
    assert_eq!(menu_login(Lang::En), "Open at Login");
    assert_eq!(menu_login(Lang::Ru), "Запускать при входе");
    assert_eq!(
        anchor_tooltip(Lang::En),
        "The anchor must sit after the cutter (cutter on its left). Fix with Cmd+drag."
    );
    assert_eq!(
        anchor_tooltip(Lang::Ru),
        "Якорь должен идти за cutter (cutter слева от него). Поправь Cmd+drag."
    );
    assert_eq!(cutter_tooltip(Lang::En), "Cutter — boundary of the hide zone");
    assert_eq!(cutter_tooltip(Lang::Ru), "Cutter — граница зоны скрытия");
}

#[test]
fn login_counts_as_on_when_enabled_or_awaiting_approval() {
    assert!(is_enabled(LoginStatus::Enabled));
    assert!(is_enabled(LoginStatus::RequiresApproval));
    assert!(!is_enabled(LoginStatus::NotRegistered));
    assert!(!is_enabled(LoginStatus::NotFound));
}

#[test]
fn login_toggle_unregisters_when_on_and_registers_otherwise() {
    assert_eq!(toggle(LoginStatus::Enabled), LoginAction::Unregister);
    assert_eq!(toggle(LoginStatus::RequiresApproval), LoginAction::Unregister);
    assert_eq!(toggle(LoginStatus::NotRegistered), LoginAction::Register);
    assert_eq!(toggle(LoginStatus::NotFound), LoginAction::Register);
}

#[test]
fn menu_layout_with_login_on() {
    let menu = build(Lang::En, true, "0.1.2");
    assert_eq!(
        menu,
        vec![
            MenuEntry::Version { text: "Nook 0.1.2".to_string() },
            MenuEntry::Separator,
            MenuEntry::Item {
                title: "Open at Login",
                command: MenuCommand::ToggleLogin,
                key_equivalent: "",
                checked: true,
            },
            MenuEntry::Separator,
            MenuEntry::Item {
                title: "Quit",
                command: MenuCommand::Quit,
                key_equivalent: "",
                checked: false,
            },
        ]
    );
}

#[test]
fn menu_layout_in_russian_with_login_off() {
    let menu = build(Lang::Ru, false, "2.0.0-beta");
    assert_eq!(
        menu,
        vec![
            MenuEntry::Version { text: "Nook 2.0.0-beta".to_string() },
            MenuEntry::Separator,
            MenuEntry::Item {
                title: "Запускать при входе",
                command: MenuCommand::ToggleLogin,
                key_equivalent: "",
                checked: false,
            },
            MenuEntry::Separator,
            MenuEntry::Item {
                title: "Выход",
                command: MenuCommand::Quit,
                key_equivalent: "",
                checked: false,
            },
        ]
    );
}

#[test]
fn anchor_symbol_names() {
    assert_eq!(AnchorSymbol::Shown.name(), "chevron.left");
    assert_eq!(AnchorSymbol::Hidden.name(), "chevron.down");
    assert_eq!(AnchorSymbol::Blocked.name(), "exclamationmark.triangle");
}

#[test]
fn guard_requires_both_placed_and_spacer_left() {
    let pos = |s: Option<i64>, a: Option<i64>| ItemPositions { spacer_x: s, anchor_x: a };
    assert!(pos(Some(100), Some(200)).spacer_is_left_of_anchor());
    assert!(!pos(Some(200), Some(100)).spacer_is_left_of_anchor());
    assert!(!pos(Some(150), Some(150)).spacer_is_left_of_anchor());
    assert!(!pos(Some(0), Some(100)).spacer_is_left_of_anchor());
    assert!(!pos(Some(-5), Some(100)).spacer_is_left_of_anchor());
    assert!(!pos(Some(100), Some(0)).spacer_is_left_of_anchor());
    assert!(!pos(None, Some(100)).spacer_is_left_of_anchor());
    assert!(!pos(Some(100), None).spacer_is_left_of_anchor());
}

#[test]
fn both_placed_means_both_right_of_origin() {
    let pos = |s: Option<i64>, a: Option<i64>| ItemPositions { spacer_x: s, anchor_x: a };
    assert!(pos(Some(1), Some(2)).both_placed());
    assert!(!pos(Some(-1), Some(2)).both_placed());
    assert!(!pos(Some(2), Some(-1)).both_placed());
    assert!(!pos(Some(0), Some(2)).both_placed());
    assert!(!pos(Some(3), Some(0)).both_placed());
    assert!(!pos(None, Some(2)).both_placed());
}
