use nook::controller::{
    Action, Controller, ANCHOR_MAX_RETRIES, PLACEMENT_ESCALATE_AFTER, PLACEMENT_MAX_ATTEMPTS,
};
use nook::status_bar::{AnchorSymbol, ItemPositions, SpacerLength};
use nook::strings::Lang;

fn good() -> ItemPositions {
    ItemPositions { spacer_x: Some(1700), anchor_x: Some(1720) }
}

fn swapped() -> ItemPositions {
    ItemPositions { spacer_x: Some(1720), anchor_x: Some(1700) }
}

fn unplaced() -> ItemPositions {
    ItemPositions { spacer_x: Some(0), anchor_x: Some(0) }
}

fn hide_actions() -> Vec<Action> {
    vec![
        Action::SetSpacerLength(SpacerLength::Hidden),
        Action::SetAnchorSymbol(AnchorSymbol::Hidden),
    ]
}

fn launched() -> Controller {
    let mut c = Controller::new(Lang::En);
    c.did_finish_launching();
    c
}

#[test]
fn new_controller_state() {
    let c = Controller::new(Lang::Ru);
    let s = c.ivars();
    assert!(!s.items && !s.hidden && !s.monitor && !s.collapse_timer && !s.placement_done);
    assert_eq!(s.lang, Lang::Ru);
    assert_eq!(s.anchor_retries, 10);
    assert_eq!(s.spacer_retries, 10);
    assert_eq!(s.placement_attempts, 0);
    assert_eq!(ANCHOR_MAX_RETRIES, 10);
    assert_eq!(PLACEMENT_ESCALATE_AFTER, 4);
    assert_eq!(PLACEMENT_MAX_ATTEMPTS, 30);
}

#[test]
fn launch_creates_items_and_waits_for_placement() {
    let mut c = Controller::new(Lang::En);
    let a = c.did_finish_launching();
    assert_eq!(
        a,
        vec![Action::CreateItems, Action::ObserveWindowMoves, Action::StartPlacementTimer]
    );
    assert!(c.ivars().items);
    assert!(!c.ivars().hidden);
}

#[test]
fn toggle_before_launch_does_nothing() {
    let mut c = Controller::new(Lang::En);
    assert_eq!(c.toggle(&good()), vec![]);
    assert!(!c.ivars().hidden);
    assert_eq!(c.on_anchor_click(true, &good()), vec![]);
}

#[test]
fn left_click_hides_in_good_layout() {
    let mut c = launched();
    let a = c.on_anchor_click(false, &good());
    assert_eq!(a, hide_actions());
    assert!(c.ivars().hidden);
}

#[test]
fn right_click_opens_menu() {
    let mut c = launched();
    assert_eq!(c.on_anchor_click(true, &good()), vec![Action::ShowMenu]);
    assert!(!c.ivars().hidden);
}

#[test]
fn swapped_layout_blocks_hiding_with_warning() {
    let mut c = launched();
    let before = *c.ivars();
    let a = c.toggle(&swapped());
    assert_eq!(a, vec![Action::SetAnchorSymbol(AnchorSymbol::Blocked)]);
    assert_eq!(*c.ivars(), before);
}

#[test]
fn unplaced_or_unknown_layout_blocks_hiding() {
    let mut c = launched();
    assert_eq!(c.toggle(&unplaced()), vec![Action::SetAnchorSymbol(AnchorSymbol::Blocked)]);
    let unknown = ItemPositions { spacer_x: None, anchor_x: Some(1720) };
    assert_eq!(c.toggle(&unknown), vec![Action::SetAnchorSymbol(AnchorSymbol::Blocked)]);
    assert!(!c.ivars().hidden);
}

#[test]
fn showing_is_allowed_in_any_layout() {
    let mut c = launched();
    c.toggle(&good());
    let a = c.toggle(&swapped());
    assert_eq!(
        a,
        vec![
            Action::SetSpacerLength(SpacerLength::Shown),
            Action::SetAnchorSymbol(AnchorSymbol::Shown),
            Action::StartMouseWatch,
        ]
    );
    assert!(!c.ivars().hidden);
    assert!(c.ivars().monitor);
}

#[test]
fn two_toggles_restore_shown_state() {
    let mut c = launched();
    c.toggle(&good());
    c.toggle(&good());
    let a = c.toggle(&good());
    assert_eq!(
        a,
        vec![
            Action::SetSpacerLength(SpacerLength::Hidden),
            Action::SetAnchorSymbol(AnchorSymbol::Hidden),
            Action::StopMouseWatch,
        ]
    );
    assert!(c.ivars().hidden && !c.ivars().monitor);
}

#[test]
fn window_move_with_both_placed_finishes_setup_and_hides_once() {
    let mut c = launched();
    let a = c.on_window_moved(&good());
    let mut expected = vec![Action::StopObservingWindowMoves];
    expected.extend(hide_actions());
    assert_eq!(a, expected);
    assert!(c.ivars().hidden && c.ivars().placement_done);
    assert_eq!(c.on_window_moved(&good()), vec![]);
}

#[test]
fn window_move_before_placement_does_nothing() {
    let mut c = launched();
    let half = ItemPositions { spacer_x: Some(1700), anchor_x: Some(0) };
    assert_eq!(c.on_window_moved(&half), vec![]);
    assert!(!c.ivars().placement_done);
}

#[test]
fn negative_position_does_not_finish_setup() {
    let mut c = launched();
    let left_of_screen = ItemPositions { spacer_x: Some(-5), anchor_x: Some(1700) };
    assert_eq!(c.on_window_moved(&left_of_screen), vec![]);
    assert!(!c.ivars().placement_done && !c.ivars().hidden);
    // A placement check counts it as a failure and keeps checking.
    assert_eq!(c.on_placement_check(&left_of_screen), vec![]);
    assert_eq!(c.ivars().placement_attempts, 1);
}

#[test]
fn finish_placement_in_swapped_layout_warns() {
    let mut c = launched();
    let a = c.on_window_moved(&swapped());
    assert_eq!(
        a,
        vec![Action::StopObservingWindowMoves, Action::SetAnchorSymbol(AnchorSymbol::Blocked)]
    );
    assert!(c.ivars().placement_done && !c.ivars().hidden);
}

#[test]
fn placement_check_with_both_placed_stops_timer_and_hides() {
    let mut c = launched();
    let a = c.on_placement_check(&good());
    let mut expected = vec![Action::StopPlacementTimer, Action::StopObservingWindowMoves];
    expected.extend(hide_actions());
    assert_eq!(a, expected);
    // The setup already ran: another check only stops the timer.
    assert_eq!(c.on_placement_check(&good()), vec![Action::StopPlacementTimer]);
}

#[test]
fn placement_check_before_launch_does_nothing() {
    let mut c = Controller::new(Lang::En);
    assert_eq!(c.on_placement_check(&unplaced()), vec![]);
    assert_eq!(c.ivars().placement_attempts, 0);
}

#[test]
fn stuck_spacer_is_recreated_first_then_anchor() {
    let mut c = launched();
    assert_eq!(c.on_placement_check(&unplaced()), vec![Action::RecreateSpacer]);
    assert_eq!(c.ivars().spacer_retries, 9);
    let anchor_stuck = ItemPositions { spacer_x: Some(1700), anchor_x: Some(0) };
    assert_eq!(c.on_placement_check(&anchor_stuck), vec![Action::RecreateAnchor]);
    assert_eq!(c.ivars().anchor_retries, 9);
    assert_eq!(c.ivars().placement_attempts, 2);
}

#[test]
fn fourth_failed_check_escalates_to_both() {
    let mut c = launched();
    let missing = ItemPositions { spacer_x: None, anchor_x: None };
    assert_eq!(c.on_placement_check(&missing), vec![]);
    assert_eq!(c.on_placement_check(&missing), vec![]);
    assert_eq!(c.on_placement_check(&missing), vec![]);
    assert_eq!(c.on_placement_check(&unplaced()), vec![Action::RecreateBoth]);
    assert_eq!(c.ivars().placement_attempts, 4);
    assert_eq!(c.ivars().spacer_retries, 10);
}

#[test]
fn placement_checks_give_up_after_limit() {
    let mut c = launched();
    let mut stops = 0;
    let mut spacer_recreations = 0;
    for i in 1..=30u32 {
        let a = c.on_placement_check(&unplaced());
        if a.contains(&Action::StopPlacementTimer) {
            stops += 1;
            assert_eq!(i, 30);
            assert_eq!(a, vec![Action::StopPlacementTimer]);
        }
        if a == vec![Action::RecreateSpacer] {
            spacer_recreations += 1;
        }
    }
    assert_eq!(stops, 1);
    assert_eq!(c.ivars().placement_attempts, 30);
    assert_eq!(spacer_recreations, 10);
    assert_eq!(c.ivars().spacer_retries, 0);
}

#[test]
fn retries_exhausted_do_nothing() {
    let mut c = launched();
    for _ in 0..10 {
        c.on_placement_check(&ItemPositions { spacer_x: Some(0), anchor_x: Some(5) });
    }
    // 10 checks: two escalations (4th, 8th), eight spacer recreations.
    assert_eq!(c.ivars().spacer_retries, 2);
    assert_eq!(c.ivars().placement_attempts, 10);
}

#[test]
fn mouse_leaving_strip_arms_and_return_cancels() {
    let mut c = launched();
    assert_eq!(c.on_mouse_moved(false), vec![Action::ArmCollapseTimer]);
    assert!(c.ivars().collapse_timer);
    assert_eq!(c.on_mouse_moved(false), vec![]);
    assert_eq!(c.on_mouse_moved(true), vec![Action::CancelCollapseTimer]);
    assert!(!c.ivars().collapse_timer);
    assert_eq!(c.on_mouse_moved(true), vec![]);
}

#[test]
fn mouse_moves_ignored_while_hidden() {
    let mut c = launched();
    c.toggle(&good());
    assert_eq!(c.on_mouse_moved(false), vec![]);
    assert!(!c.ivars().collapse_timer);
}

#[test]
fn collapse_timer_hides_shown_icons() {
    let mut c = launched();
    c.toggle(&good());
    c.toggle(&good());
    c.on_mouse_moved(false);
    let a = c.on_auto_collapse(&good());
    assert_eq!(
        a,
        vec![
            Action::ReleaseCollapseTimer,
            Action::SetSpacerLength(SpacerLength::Hidden),
            Action::SetAnchorSymbol(AnchorSymbol::Hidden),
            Action::StopMouseWatch,
        ]
    );
    assert!(c.ivars().hidden && !c.ivars().collapse_timer && !c.ivars().monitor);
}

#[test]
fn collapse_timer_after_hide_does_nothing() {
    let mut c = launched();
    c.toggle(&good());
    assert_eq!(c.on_auto_collapse(&good()), vec![]);
    assert!(c.ivars().hidden);
}

#[test]
fn toggle_cancels_armed_collapse_timer() {
    let mut c = launched();
    c.on_mouse_moved(false);
    let a = c.toggle(&good());
    let mut expected = hide_actions();
    expected.push(Action::CancelCollapseTimer);
    assert_eq!(a, expected);
    assert!(!c.ivars().collapse_timer);
}

#[test]
fn menu_items_ask_for_login_toggle_and_quit() {
    let c = launched();
    assert_eq!(c.on_toggle_login(), vec![Action::ToggleLogin]);
    assert_eq!(c.on_quit(), vec![Action::Quit]);
}

#[test]
fn show_menu_needs_items() {
    let c = Controller::new(Lang::En);
    assert_eq!(c.show_menu(), vec![]);
    assert_eq!(launched().show_menu(), vec![Action::ShowMenu]);
}

#[test]
fn helper_actions() {
    let mut c = launched();
    let mut acts = Vec::new();
    c.start_mouse_watch(&mut acts);
    c.start_mouse_watch(&mut acts);
    c.arm_collapse_timer(&mut acts);
    c.cancel_collapse_timer(&mut acts);
    c.cancel_collapse_timer(&mut acts);
    c.stop_mouse_watch(&mut acts);
    c.stop_mouse_watch(&mut acts);
    Controller::show_blocked(&mut acts);
    assert_eq!(
        acts,
        vec![
            Action::StartMouseWatch,
            Action::ArmCollapseTimer,
            Action::CancelCollapseTimer,
            Action::StopMouseWatch,
            Action::SetAnchorSymbol(AnchorSymbol::Blocked),
        ]
    );
    assert!(Controller::spacer_is_left_of_anchor(&good()));
    assert!(!Controller::spacer_is_left_of_anchor(&swapped()));
}

#[test]
fn finish_placement_appends_to_given_actions() {
    let mut c = launched();
    let mut acts = vec![Action::StopPlacementTimer];
    c.finish_placement_if_ready(&good(), &mut acts);
    let mut expected = vec![Action::StopPlacementTimer, Action::StopObservingWindowMoves];
    expected.extend(hide_actions());
    assert_eq!(acts, expected);
}

#[test]
fn helpers_accept_a_hidden_controller() {
    let mut c = launched();
    c.toggle(&good());
    let mut acts = Vec::new();
    c.arm_collapse_timer(&mut acts);
    c.start_mouse_watch(&mut acts);
    c.start_mouse_watch(&mut acts);
    assert_eq!(acts, vec![Action::ArmCollapseTimer, Action::StartMouseWatch]);
    assert!(c.ivars().hidden && c.ivars().collapse_timer && c.ivars().monitor);
}
