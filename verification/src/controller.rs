//! The controller's decisions: when to hide and show the icons, the guard
//! that refuses to hide in a wrong layout, the start-up placement checks with
//! their retries, and the automatic collapse once the mouse leaves the menu
//! bar.
//!
//! Each handler takes the controller's state and an event's data, changes the
//! state and returns the actions that the application then performs on the
//! real status items, timers and monitors, in order.

use vstd::prelude::*;

use crate::status_bar::{AnchorSymbol, ItemPositions, SpacerLength};
use crate::strings::Lang;

verus! {

/// How many times one item stuck at the origin may be created anew.
pub const ANCHOR_MAX_RETRIES: u32 = 10;

/// After this many unsuccessful placement checks (and every multiple of it),
/// both items are created anew: recreating one alone sometimes lands on the
/// origin again.
pub const PLACEMENT_ESCALATE_AFTER: u32 = 4;

/// After this many unsuccessful placement checks the checks stop for good.
pub const PLACEMENT_MAX_ATTEMPTS: u32 = 30;

/// What the application is asked to do, in the order given.
#[derive(Clone, Copy, Debug, PartialEq, Eq, Structural)]
pub enum Action {
    /// Create the spacer, then the anchor.
    CreateItems,
    /// Start listening for window moves (an item receiving its slot).
    ObserveWindowMoves,
    /// Stop listening for window moves.
    StopObservingWindowMoves,
    /// Start the repeating placement check.
    StartPlacementTimer,
    /// Stop the repeating placement check.
    StopPlacementTimer,
    /// Remove the spacer from the bar and create it anew.
    RecreateSpacer,
    /// Remove the anchor from the bar and create it anew.
    RecreateAnchor,
    /// Remove both items and create them anew, spacer first.
    RecreateBoth,
    /// Give the spacer this width.
    SetSpacerLength(SpacerLength),
    /// Put this symbol on the anchor.
    SetAnchorSymbol(AnchorSymbol),
    /// Invalidate and drop the armed collapse timer.
    CancelCollapseTimer,
    /// Drop the collapse timer that has just fired.
    ReleaseCollapseTimer,
    /// Arm the one-shot collapse timer.
    ArmCollapseTimer,
    /// Start the global mouse monitor.
    StartMouseWatch,
    /// Stop the global mouse monitor.
    StopMouseWatch,
    /// Pop up the context menu under the anchor.
    ShowMenu,
    /// Turn launching at login on or off.
    ToggleLogin,
    /// Terminate the application.
    Quit,
}

/// The controller's state.
#[derive(Clone, Copy, Debug, PartialEq, Eq, Structural)]
pub struct ControllerIvars {
    /// The two status items exist.
    pub items: bool,
    /// The icons left of the spacer are hidden.
    pub hidden: bool,
    /// The mouse monitor is running.
    pub monitor: bool,
    /// The collapse timer is armed.
    pub collapse_timer: bool,
    /// Interface language, chosen once at start.
    pub lang: Lang,
    /// How many more times a stuck anchor may be created anew.
    pub anchor_retries: u32,
    /// How many more times a stuck spacer may be created anew.
    pub spacer_retries: u32,
    /// Placement checks so far that found an item not yet placed.
    pub placement_attempts: u32,
    /// The start-up setup (and its automatic hide) has run.
    pub placement_done: bool,
}

impl ControllerIvars {
    /// What holds of the state between any two events.
    pub open spec fn wf(self) -> bool {
        &&& self.hidden ==> self.items
        &&& self.monitor ==> !self.hidden
        &&& self.collapse_timer ==> !self.hidden
        &&& self.anchor_retries <= ANCHOR_MAX_RETRIES
        &&& self.spacer_retries <= ANCHOR_MAX_RETRIES
    }
}

/// The state of a controller that has just been made.
pub open spec fn initial_state(lang: Lang) -> ControllerIvars {
    ControllerIvars {
        items: false,
        hidden: false,
        monitor: false,
        collapse_timer: false,
        lang,
        anchor_retries: ANCHOR_MAX_RETRIES,
        spacer_retries: ANCHOR_MAX_RETRIES,
        placement_attempts: 0,
        placement_done: false,
    }
}

/// What the two items look like in the shown or hidden state.
pub open spec fn appearance(hidden: bool) -> Seq<Action> {
    if hidden {
        seq![
            Action::SetSpacerLength(SpacerLength::Hidden),
            Action::SetAnchorSymbol(AnchorSymbol::Hidden),
        ]
    } else {
        seq![
            Action::SetSpacerLength(SpacerLength::Shown),
            Action::SetAnchorSymbol(AnchorSymbol::Shown),
        ]
    }
}

/// Disarming the collapse timer, if it is armed.
pub open spec fn cancel_collapse_step(s: ControllerIvars) -> (ControllerIvars, Seq<Action>) {
    if s.collapse_timer {
        (ControllerIvars { collapse_timer: false, ..s }, seq![Action::CancelCollapseTimer])
    } else {
        (s, seq![])
    }
}

/// Starting (when showing) or stopping (when hiding) the mouse monitor, each
/// only if it is not already so.
pub open spec fn mouse_watch_step(s: ControllerIvars, hide: bool) -> (ControllerIvars, Seq<Action>) {
    if hide {
        if s.monitor {
            (ControllerIvars { monitor: false, ..s }, seq![Action::StopMouseWatch])
        } else {
            (s, seq![])
        }
    } else {
        if s.monitor {
            (s, seq![])
        } else {
            (ControllerIvars { monitor: true, ..s }, seq![Action::StartMouseWatch])
        }
    }
}

/// A toggle of the hide zone. Nothing happens before the items exist.
/// Hiding is refused, with a warning symbol on the anchor and nothing else
/// changed, unless the spacer stands strictly left of the anchor; showing is
/// never refused. A toggle that goes through flips `hidden`, sets both items'
/// appearance, disarms the collapse timer and starts (show) or stops (hide)
/// the mouse monitor.
pub open spec fn toggle_step(s: ControllerIvars, pos: ItemPositions) -> (ControllerIvars, Seq<Action>) {
    if !s.items {
        (s, seq![])
    } else if !s.hidden && !pos.spacer_left_of_anchor() {
        (s, seq![Action::SetAnchorSymbol(AnchorSymbol::Blocked)])
    } else {
        let hide = !s.hidden;
        let s1 = ControllerIvars { hidden: hide, ..s };
        let (s2, cancel) = cancel_collapse_step(s1);
        let (s3, watch) = mouse_watch_step(s2, hide);
        (s3, appearance(hide) + cancel + watch)
    }
}

/// The end of the start-up setup, once both items are placed (right of the origin): it
/// runs once, stops listening for window moves and hides the icons unless
/// they are hidden already.
pub open spec fn finish_placement_step(s: ControllerIvars, pos: ItemPositions) -> (ControllerIvars, Seq<Action>) {
    if s.placement_done || !s.items || !pos.both_right_of_origin() {
        (s, seq![])
    } else {
        let s1 = ControllerIvars { placement_done: true, ..s };
        if s1.hidden {
            (s1, seq![Action::StopObservingWindowMoves])
        } else {
            let (s2, acts) = toggle_step(s1, pos);
            (s2, seq![Action::StopObservingWindowMoves] + acts)
        }
    }
}

/// One tick of the placement check. With both items placed the
/// checks stop and the setup finishes. Otherwise the failure is counted; at
/// the limit the checks stop for good; on every multiple of the escalation
/// step both items are created anew; otherwise an item stuck at the origin is
/// created anew while its retries last, the spacer before the anchor.
pub open spec fn placement_check_step(s: ControllerIvars, pos: ItemPositions) -> (ControllerIvars, Seq<Action>) {
    if !s.items {
        (s, seq![])
    } else if pos.both_right_of_origin() {
        let (s1, acts) = finish_placement_step(s, pos);
        (s1, seq![Action::StopPlacementTimer] + acts)
    } else {
        let attempts = (s.placement_attempts + 1) as u32;
        let s1 = ControllerIvars { placement_attempts: attempts, ..s };
        if attempts >= PLACEMENT_MAX_ATTEMPTS {
            (s1, seq![Action::StopPlacementTimer])
        } else if attempts % PLACEMENT_ESCALATE_AFTER == 0 {
            (s1, seq![Action::RecreateBoth])
        } else if pos.spacer_x == Some(0i64) && s.spacer_retries > 0 {
            (
                ControllerIvars { spacer_retries: (s.spacer_retries - 1) as u32, ..s1 },
                seq![Action::RecreateSpacer],
            )
        } else if pos.anchor_x == Some(0i64) && s.anchor_retries > 0 {
            (
                ControllerIvars { anchor_retries: (s.anchor_retries - 1) as u32, ..s1 },
                seq![Action::RecreateAnchor],
            )
        } else {
            (s1, seq![])
        }
    }
}

/// A mouse move while the icons are shown: inside the menu bar strip it
/// disarms the collapse timer, outside it arms the timer unless it is armed.
/// While the icons are hidden nothing is watched.
pub open spec fn mouse_moved_step(s: ControllerIvars, in_strip: bool) -> (ControllerIvars, Seq<Action>) {
    if s.hidden {
        (s, seq![])
    } else if in_strip {
        cancel_collapse_step(s)
    } else if !s.collapse_timer {
        (ControllerIvars { collapse_timer: true, ..s }, seq![Action::ArmCollapseTimer])
    } else {
        (s, seq![])
    }
}

/// The collapse timer has fired: it is let go, and the icons are hidden
/// (through the guard) if they are still shown.
pub open spec fn auto_collapse_step(s: ControllerIvars, pos: ItemPositions) -> (ControllerIvars, Seq<Action>) {
    let (s1, release) = if s.collapse_timer {
        (ControllerIvars { collapse_timer: false, ..s }, seq![Action::ReleaseCollapseTimer])
    } else {
        (s, seq![])
    };
    if s1.hidden {
        (s1, release)
    } else {
        let (s2, acts) = toggle_step(s1, pos);
        (s2, release + acts)
    }
}

/// A click on the anchor: the right button opens the menu (once the items
/// exist), any other toggles.
pub open spec fn anchor_click_step(s: ControllerIvars, right_button: bool, pos: ItemPositions) -> (ControllerIvars, Seq<Action>) {
    if right_button {
        if s.items {
            (s, seq![Action::ShowMenu])
        } else {
            (s, seq![])
        }
    } else {
        toggle_step(s, pos)
    }
}

/// The application has finished launching: the items are made, shown, and the
/// wait for their placement begins.
pub open spec fn launch_step(s: ControllerIvars) -> (ControllerIvars, Seq<Action>) {
    (
        ControllerIvars { items: true, hidden: false, ..s },
        seq![Action::CreateItems, Action::ObserveWindowMoves, Action::StartPlacementTimer],
    )
}

/// The controller: owns the state and answers each event with actions.
pub struct Controller {
    ivars: ControllerIvars,
}

impl View for Controller {
    type V = ControllerIvars;

    closed spec fn view(&self) -> ControllerIvars {
        self.ivars
    }
}

impl Controller {
    /// A controller for the given interface language, before launch.
    pub fn new(lang: Lang) -> (c: Controller)
        ensures
            c@ == initial_state(lang),
            c@.wf(),
    {
        Controller {
            ivars: ControllerIvars {
                items: false,
                hidden: false,
                monitor: false,
                collapse_timer: false,
                lang,
                anchor_retries: ANCHOR_MAX_RETRIES,
                spacer_retries: ANCHOR_MAX_RETRIES,
                placement_attempts: 0,
                placement_done: false,
            },
        }
    }

    /// The current state.
    pub fn ivars(&self) -> (s: &ControllerIvars)
        ensures
            *s == self@,
    {
        &self.ivars
    }

    /// The application has finished launching.
    pub fn did_finish_launching(&mut self) -> (actions: Vec<Action>)
        requires
            old(self)@.wf(),
        ensures
            final(self)@ == launch_step(old(self)@).0,
            actions@ == launch_step(old(self)@).1,
            final(self)@.wf(),
    {
        let mut actions = Vec::new();
        actions.push(Action::CreateItems);
        self.ivars.items = true;
        self.ivars.hidden = false;
        actions.push(Action::ObserveWindowMoves);
        actions.push(Action::StartPlacementTimer);
        actions
    }

    /// A click on the anchor, with the button that made it and where the
    /// items stand.
    pub fn on_anchor_click(&mut self, right_button: bool, positions: &ItemPositions) -> (actions: Vec<Action>)
        requires
            old(self)@.wf(),
        ensures
            final(self)@ == anchor_click_step(old(self)@, right_button, *positions).0,
            actions@ == anchor_click_step(old(self)@, right_button, *positions).1,
            final(self)@.wf(),
    {
        if right_button {
            self.show_menu()
        } else {
            self.toggle(positions)
        }
    }

    /// The menu item that turns launching at login on and off.
    pub fn on_toggle_login(&self) -> (actions: Vec<Action>)
        ensures
            actions@ == seq![Action::ToggleLogin],
    {
        let mut actions = Vec::new();
        actions.push(Action::ToggleLogin);
        actions
    }

    /// The menu item "Quit".
    pub fn on_quit(&self) -> (actions: Vec<Action>)
        ensures
            actions@ == seq![Action::Quit],
    {
        let mut actions = Vec::new();
        actions.push(Action::Quit);
        actions
    }

    /// An item's window has moved (it may just have been given its slot).
    pub fn on_window_moved(&mut self, positions: &ItemPositions) -> (actions: Vec<Action>)
        requires
            old(self)@.wf(),
        ensures
            final(self)@ == finish_placement_step(old(self)@, *positions).0,
            actions@ == finish_placement_step(old(self)@, *positions).1,
            final(self)@.wf(),
    {
        let mut actions = Vec::new();
        self.finish_placement_if_ready(positions, &mut actions);
        actions
    }

    /// A tick of the placement check.
    pub fn on_placement_check(&mut self, positions: &ItemPositions) -> (actions: Vec<Action>)
        requires
            old(self)@.wf(),
            old(self)@.placement_attempts < u32::MAX,
        ensures
            final(self)@ == placement_check_step(old(self)@, *positions).0,
            actions@ == placement_check_step(old(self)@, *positions).1,
            final(self)@.wf(),
    {
        let mut actions = Vec::new();
        if !self.ivars.items {
            return actions;
        }
        if positions.both_placed() {
            actions.push(Action::StopPlacementTimer);
            self.finish_placement_if_ready(positions, &mut actions);
            return actions;
        }
        let attempts = self.ivars.placement_attempts + 1;
        self.ivars.placement_attempts = attempts;
        if attempts >= PLACEMENT_MAX_ATTEMPTS {
            actions.push(Action::StopPlacementTimer);
            return actions;
        }
        if attempts % PLACEMENT_ESCALATE_AFTER == 0 {
            actions.push(Action::RecreateBoth);
            return actions;
        }
        if positions.spacer_x == Some(0i64) && self.ivars.spacer_retries > 0 {
            self.ivars.spacer_retries = self.ivars.spacer_retries - 1;
            actions.push(Action::RecreateSpacer);
            return actions;
        }
        if positions.anchor_x == Some(0i64) && self.ivars.anchor_retries > 0 {
            self.ivars.anchor_retries = self.ivars.anchor_retries - 1;
            actions.push(Action::RecreateAnchor);
        }
        actions
    }

    /// A mouse move, and whether the mouse is now in the menu bar strip.
    pub fn on_mouse_moved(&mut self, in_menu_bar_strip: bool) -> (actions: Vec<Action>)
        requires
            old(self)@.wf(),
        ensures
            final(self)@ == mouse_moved_step(old(self)@, in_menu_bar_strip).0,
            actions@ == mouse_moved_step(old(self)@, in_menu_bar_strip).1,
            final(self)@.wf(),
    {
        let mut actions = Vec::new();
        if self.ivars.hidden {
            return actions;
        }
        if in_menu_bar_strip {
            self.cancel_collapse_timer(&mut actions);
        } else if !self.ivars.collapse_timer {
            self.arm_collapse_timer(&mut actions);
        }
        actions
    }

    /// The collapse timer has fired.
    pub fn on_auto_collapse(&mut self, positions: &ItemPositions) -> (actions: Vec<Action>)
        requires
            old(self)@.wf(),
        ensures
            final(self)@ == auto_collapse_step(old(self)@, *positions).0,
            actions@ == auto_collapse_step(old(self)@, *positions).1,
            final(self)@.wf(),
    {
        let mut actions = Vec::new();
        if self.ivars.collapse_timer {
            self.ivars.collapse_timer = false;
            actions.push(Action::ReleaseCollapseTimer);
        }
        if self.ivars.hidden {
            return actions;
        }
        let toggled = self.toggle(positions);
        let mut toggled = toggled;
        actions.append(&mut toggled);
        actions
    }

    /// Toggles the hide zone left of the anchor, through the guard.
    pub fn toggle(&mut self, positions: &ItemPositions) -> (actions: Vec<Action>)
        requires
            old(self)@.wf(),
        ensures
            final(self)@ == toggle_step(old(self)@, *positions).0,
            actions@ == toggle_step(old(self)@, *positions).1,
            final(self)@.wf(),
    {
        let mut actions = Vec::new();
        if !self.ivars.items {
            return actions;
        }
        let going_to_hide = !self.ivars.hidden;
        if going_to_hide && !Self::spacer_is_left_of_anchor(positions) {
            Self::show_blocked(&mut actions);
            return actions;
        }
        self.ivars.hidden = going_to_hide;
        let (spacer_width, anchor_symbol) = if going_to_hide {
            (SpacerLength::Hidden, AnchorSymbol::Hidden)
        } else {
            (SpacerLength::Shown, AnchorSymbol::Shown)
        };
        actions.push(Action::SetSpacerLength(spacer_width));
        actions.push(Action::SetAnchorSymbol(anchor_symbol));
        self.cancel_collapse_timer(&mut actions);
        if going_to_hide {
            self.stop_mouse_watch(&mut actions);
        } else {
            self.start_mouse_watch(&mut actions);
        }
        actions
    }

    /// Finishes the start-up setup once both items are placed (right of the origin); runs
    /// once.
    pub fn finish_placement_if_ready(&mut self, positions: &ItemPositions, actions: &mut Vec<Action>)
        requires
            old(self)@.wf(),
        ensures
            final(self)@ == finish_placement_step(old(self)@, *positions).0,
            final(actions)@ == old(actions)@ + finish_placement_step(old(self)@, *positions).1,
            final(self)@.wf(),
    {
        if self.ivars.placement_done || !self.ivars.items {
            return;
        }
        if !positions.both_placed() {
            return;
        }
        self.ivars.placement_done = true;
        actions.push(Action::StopObservingWindowMoves);
        if !self.ivars.hidden {
            let mut toggled = self.toggle(positions);
            actions.append(&mut toggled);
        }
    }

    /// Starts the mouse monitor unless it runs, so that at most one runs.
    pub fn start_mouse_watch(&mut self, actions: &mut Vec<Action>)
        ensures
            old(self)@.wf() && !old(self)@.hidden ==> final(self)@.wf(),
            final(self)@ == mouse_watch_step(old(self)@, false).0,
            final(actions)@ == old(actions)@ + mouse_watch_step(old(self)@, false).1,
    {
        if self.ivars.monitor {
            return;
        }
        self.ivars.monitor = true;
        actions.push(Action::StartMouseWatch);
    }

    /// Stops the mouse monitor if it runs.
    pub fn stop_mouse_watch(&mut self, actions: &mut Vec<Action>)
        ensures
            old(self)@.wf() ==> final(self)@.wf(),
            final(self)@ == mouse_watch_step(old(self)@, true).0,
            final(actions)@ == old(actions)@ + mouse_watch_step(old(self)@, true).1,
    {
        if self.ivars.monitor {
            self.ivars.monitor = false;
            actions.push(Action::StopMouseWatch);
        }
    }

    /// Disarms the collapse timer if it is armed.
    pub fn cancel_collapse_timer(&mut self, actions: &mut Vec<Action>)
        ensures
            old(self)@.wf() ==> final(self)@.wf(),
            final(self)@ == cancel_collapse_step(old(self)@).0,
            final(actions)@ == old(actions)@ + cancel_collapse_step(old(self)@).1,
    {
        if self.ivars.collapse_timer {
            self.ivars.collapse_timer = false;
            actions.push(Action::CancelCollapseTimer);
        }
    }

    /// Arms the collapse timer (the mouse has left the strip).
    pub fn arm_collapse_timer(&mut self, actions: &mut Vec<Action>)
        ensures
            old(self)@.wf() && !old(self)@.hidden ==> final(self)@.wf(),
            final(self)@ == (ControllerIvars { collapse_timer: true, ..old(self)@ }),
            final(actions)@ == old(actions)@.push(Action::ArmCollapseTimer),
    {
        self.ivars.collapse_timer = true;
        actions.push(Action::ArmCollapseTimer);
    }

    /// The guard: the spacer stands strictly left of the anchor, both placed.
    pub fn spacer_is_left_of_anchor(positions: &ItemPositions) -> (ok: bool)
        ensures
            ok == positions.spacer_left_of_anchor(),
    {
        positions.spacer_is_left_of_anchor()
    }

    /// Opens the context menu, once the items exist.
    pub fn show_menu(&self) -> (actions: Vec<Action>)
        ensures
            actions@ == (if self@.items { seq![Action::ShowMenu] } else { seq![] }),
    {
        let mut actions = Vec::new();
        if self.ivars.items {
            actions.push(Action::ShowMenu);
        }
        actions
    }

    /// Puts the warning symbol on the anchor and leaves everything else.
    pub fn show_blocked(actions: &mut Vec<Action>)
        ensures
            final(actions)@ == old(actions)@.push(Action::SetAnchorSymbol(AnchorSymbol::Blocked)),
    {
        actions.push(Action::SetAnchorSymbol(AnchorSymbol::Blocked));
    }
}

} // verus!
