//! Properties of the controller that span events or calls.

use vstd::prelude::*;

use crate::controller::{
    anchor_click_step, appearance, auto_collapse_step, finish_placement_step, launch_step,
    mouse_moved_step, mouse_watch_step, placement_check_step, toggle_step, Action, ControllerIvars,
    PLACEMENT_ESCALATE_AFTER, PLACEMENT_MAX_ATTEMPTS,
};
use crate::status_bar::{AnchorSymbol, ItemPositions, SpacerLength};
use crate::strings::{detected_lang, is_russian_tag, Lang};

verus! {

/// The icons become hidden only where the spacer stands strictly left of the
/// anchor, both placed: whatever the event, a state that goes from shown to
/// hidden went through the guard with the positions that came with it.
pub proof fn hiding_needs_spacer_left_of_anchor(
    s: ControllerIvars,
    pos: ItemPositions,
    right_button: bool,
)
    requires
        s.wf(),
        !s.hidden,
    ensures
        toggle_step(s, pos).0.hidden ==> pos.spacer_left_of_anchor(),
        anchor_click_step(s, right_button, pos).0.hidden ==> pos.spacer_left_of_anchor(),
        finish_placement_step(s, pos).0.hidden ==> pos.spacer_left_of_anchor(),
        s.placement_attempts < u32::MAX ==> (placement_check_step(s, pos).0.hidden
            ==> pos.spacer_left_of_anchor()),
        auto_collapse_step(s, pos).0.hidden ==> pos.spacer_left_of_anchor(),
{
}

/// A refused hide changes nothing but the anchor's symbol, which becomes the
/// warning sign.
pub proof fn refused_hide_only_warns(s: ControllerIvars, pos: ItemPositions)
    requires
        s.wf(),
        s.items,
        !s.hidden,
        !pos.spacer_left_of_anchor(),
    ensures
        toggle_step(s, pos).0 == s,
        toggle_step(s, pos).1 == seq![Action::SetAnchorSymbol(AnchorSymbol::Blocked)],
{
}

/// Showing the icons is never refused, whatever the layout: the spacer goes
/// back to its narrow width, the anchor to its left chevron, and the mouse is
/// watched.
pub proof fn showing_is_never_refused(s: ControllerIvars, pos: ItemPositions)
    requires
        s.wf(),
        s.hidden,
    ensures
        !toggle_step(s, pos).0.hidden,
        toggle_step(s, pos).0.monitor,
        toggle_step(s, pos).1 == seq![
            Action::SetSpacerLength(SpacerLength::Shown),
            Action::SetAnchorSymbol(AnchorSymbol::Shown),
            Action::StartMouseWatch,
        ],
{
}

/// A toggle that goes through leaves the items looking as the new state says:
/// its first two actions set the spacer's width and the anchor's symbol for
/// that state.
pub proof fn toggle_sets_appearance_of_new_state(s: ControllerIvars, pos: ItemPositions)
    requires
        s.wf(),
        toggle_step(s, pos).0.hidden != s.hidden,
    ensures
        toggle_step(s, pos).1.take(2) == appearance(toggle_step(s, pos).0.hidden),
{
    let r = toggle_step(s, pos);
    assert(r.1.take(2) =~= appearance(r.0.hidden));
}

/// In a good layout two clicks on the anchor give back the state before them,
/// with the collapse timer disarmed and the mouse watched exactly when the
/// icons are shown.
pub proof fn two_toggles_restore(s: ControllerIvars, pos: ItemPositions)
    requires
        s.wf(),
        s.items,
        pos.spacer_left_of_anchor(),
    ensures
        toggle_step(toggle_step(s, pos).0, pos).0 == (ControllerIvars {
            collapse_timer: false,
            monitor: !s.hidden,
            ..s
        }),
        toggle_step(toggle_step(s, pos).0, pos).1.take(2) == appearance(s.hidden),
{
    let r = toggle_step(toggle_step(s, pos).0, pos);
    assert(r.1.take(2) =~= appearance(s.hidden));
}

/// After launch, the first report that both items sit right of the origin, in
/// a good layout, stops the wait for placement and hides the icons; the
/// setup runs once, so a later report does nothing.
pub proof fn start_up_hides_once(s: ControllerIvars, pos: ItemPositions)
    requires
        s.wf(),
        !s.placement_done,
        pos.spacer_left_of_anchor(),
    ensures
        ({
            let launched = launch_step(s).0;
            let done = finish_placement_step(launched, pos);
            &&& done.0.hidden
            &&& done.0.placement_done
            &&& done.1[0] == Action::StopObservingWindowMoves
            &&& finish_placement_step(done.0, pos) == (done.0, Seq::<Action>::empty())
        }),
{
}

/// A placement check that finds an item not yet placed counts one failure;
/// the check that reaches the limit stops the checks and does nothing else,
/// so the checks end after at most that many failures.
pub proof fn placement_checks_end(s: ControllerIvars, pos: ItemPositions)
    requires
        s.wf(),
        s.items,
        !pos.both_right_of_origin(),
        s.placement_attempts < u32::MAX,
    ensures
        placement_check_step(s, pos).0.placement_attempts == s.placement_attempts + 1,
        s.placement_attempts + 1 >= PLACEMENT_MAX_ATTEMPTS ==> placement_check_step(s, pos).1
            == seq![Action::StopPlacementTimer],
        s.placement_attempts + 1 < PLACEMENT_MAX_ATTEMPTS ==> !placement_check_step(
            s,
            pos,
        ).1.contains(Action::StopPlacementTimer),
{
    let r = placement_check_step(s, pos);
    if s.placement_attempts + 1 < PLACEMENT_MAX_ATTEMPTS {
        assert(!r.1.contains(Action::StopPlacementTimer)) by {
            if r.1.contains(Action::StopPlacementTimer) {
                let i = choose|i: int| 0 <= i < r.1.len() && r.1[i] == Action::StopPlacementTimer;
                assert(r.1[i] == Action::StopPlacementTimer);
            }
        }
    }
}

/// Each re-creation of a single stuck item uses up one of that item's
/// retries, so neither is created anew more than its limit allows.
pub proof fn recreation_uses_a_retry(s: ControllerIvars, pos: ItemPositions)
    requires
        s.wf(),
        s.placement_attempts < u32::MAX,
    ensures
        placement_check_step(s, pos).1 == seq![Action::RecreateSpacer] ==> {
            &&& s.spacer_retries > 0
            &&& placement_check_step(s, pos).0.spacer_retries == s.spacer_retries - 1
        },
        placement_check_step(s, pos).1 == seq![Action::RecreateAnchor] ==> {
            &&& s.anchor_retries > 0
            &&& placement_check_step(s, pos).0.anchor_retries == s.anchor_retries - 1
        },
        placement_check_step(s, pos).0.spacer_retries <= s.spacer_retries,
        placement_check_step(s, pos).0.anchor_retries <= s.anchor_retries,
{
    let r = placement_check_step(s, pos);
    assert(seq![Action::RecreateSpacer][0] == Action::RecreateSpacer);
    assert(seq![Action::RecreateAnchor][0] == Action::RecreateAnchor);
    assert(seq![Action::RecreateBoth][0] == Action::RecreateBoth);
    assert(seq![Action::StopPlacementTimer][0] == Action::StopPlacementTimer);
}

/// While the icons are shown, leaving the menu bar strip arms the collapse
/// timer and coming back disarms it, leaving the state as it was.
pub proof fn leaving_and_returning_disarms(s: ControllerIvars)
    requires
        s.wf(),
        !s.hidden,
        !s.collapse_timer,
    ensures
        ({
            let left = mouse_moved_step(s, false);
            let back = mouse_moved_step(left.0, true);
            &&& left.0.collapse_timer
            &&& left.1 == seq![Action::ArmCollapseTimer]
            &&& back.0 == s
            &&& back.1 == seq![Action::CancelCollapseTimer]
        }),
{
}

/// A collapse timer that fires while the icons are shown, in a good layout,
/// is let go and hides the icons.
pub proof fn collapse_hides(s: ControllerIvars, pos: ItemPositions)
    requires
        s.wf(),
        s.items,
        !s.hidden,
        s.collapse_timer,
        pos.spacer_left_of_anchor(),
    ensures
        auto_collapse_step(s, pos).0.hidden,
        !auto_collapse_step(s, pos).0.collapse_timer,
        auto_collapse_step(s, pos).1.take(3) == seq![Action::ReleaseCollapseTimer].add(
            appearance(true),
        ),
{
    let r = auto_collapse_step(s, pos);
    assert(r.1.take(3) =~= seq![Action::ReleaseCollapseTimer].add(appearance(true)));
}

/// Starting the mouse monitor again while it runs does nothing: however
/// often it is started, one monitor runs.
pub proof fn repeated_starts_run_one_monitor(s: ControllerIvars)
    ensures
        mouse_watch_step(s, false).0.monitor,
        mouse_watch_step(mouse_watch_step(s, false).0, false) == (
        mouse_watch_step(s, false).0,
        Seq::<Action>::empty(),
        ),
        s.monitor ==> mouse_watch_step(s, false) == (s, Seq::<Action>::empty()),
        !s.monitor ==> mouse_watch_step(s, false).1 == seq![Action::StartMouseWatch],
{
}

/// While the icons are hidden, mouse moves change nothing.
pub proof fn hidden_ignores_mouse(s: ControllerIvars, in_strip: bool)
    requires
        s.hidden,
    ensures
        mouse_moved_step(s, in_strip) == (s, Seq::<Action>::empty()),
{
}

/// Whether `acts` holds a recreation of one or both items.
pub open spec fn recreates_an_item(acts: Seq<Action>) -> bool {
    acts.contains(Action::RecreateBoth) || acts.contains(Action::RecreateSpacer) || acts.contains(
        Action::RecreateAnchor,
    )
}

/// A placement check that finds both items placed, in whatever order, stops
/// the checks first, counts no failure, recreates nothing and then finishes
/// the setup exactly as a window move would; so the setup is done afterwards.
/// In the wrong order (anchor left of spacer) on a first setup with icons
/// shown, that finish ends in the warning sign.
pub proof fn placed_items_end_the_checks(s: ControllerIvars, pos: ItemPositions)
    requires
        s.wf(),
        s.items,
        pos.both_right_of_origin(),
        s.placement_attempts < u32::MAX,
    ensures
        ({
            let r = placement_check_step(s, pos);
            let f = finish_placement_step(s, pos);
            &&& r.0 == f.0
            &&& r.1 == seq![Action::StopPlacementTimer] + f.1
            &&& r.1[0] == Action::StopPlacementTimer
            &&& r.0.placement_attempts == s.placement_attempts
            &&& r.0.spacer_retries == s.spacer_retries
            &&& r.0.anchor_retries == s.anchor_retries
            &&& r.0.placement_done
            &&& !recreates_an_item(r.1)
        }),
        !s.placement_done && !s.hidden && !pos.spacer_left_of_anchor() ==> placement_check_step(
            s,
            pos,
        ) == (ControllerIvars { placement_done: true, ..s }, seq![
            Action::StopPlacementTimer,
            Action::StopObservingWindowMoves,
            Action::SetAnchorSymbol(AnchorSymbol::Blocked),
        ]),
{
    let r = placement_check_step(s, pos);
    assert(!recreates_an_item(r.1)) by {
        if r.1.contains(Action::RecreateBoth) {
            let i = choose|i: int| 0 <= i < r.1.len() && r.1[i] == Action::RecreateBoth;
            assert(r.1[i] == Action::RecreateBoth);
        }
        if r.1.contains(Action::RecreateSpacer) {
            let i = choose|i: int| 0 <= i < r.1.len() && r.1[i] == Action::RecreateSpacer;
            assert(r.1[i] == Action::RecreateSpacer);
        }
        if r.1.contains(Action::RecreateAnchor) {
            let i = choose|i: int| 0 <= i < r.1.len() && r.1[i] == Action::RecreateAnchor;
            assert(r.1[i] == Action::RecreateAnchor);
        }
    }
}

/// Once the start-up setup has run it never runs again: whatever the state
/// and the positions, finishing it changes nothing and asks for nothing, and
/// a placement check only stops the checks or counts a failure.
pub proof fn setup_runs_once(s: ControllerIvars, pos: ItemPositions)
    requires
        s.placement_done,
    ensures
        finish_placement_step(s, pos) == (s, Seq::<Action>::empty()),
        s.items && pos.both_right_of_origin() ==> placement_check_step(s, pos) == (
        s,
        seq![Action::StopPlacementTimer],
        ),
{
}

/// When the collapse timer fires with the icons shown, the result is the
/// timer's release followed by exactly what a click toggle would do in the
/// same state and layout; so in a wrong layout the anchor shows the warning
/// sign and the icons stay shown.
pub proof fn collapse_is_a_toggle(s: ControllerIvars, pos: ItemPositions)
    requires
        s.wf(),
        !s.hidden,
    ensures
        ({
            let s1 = ControllerIvars { collapse_timer: false, ..s };
            let release = if s.collapse_timer {
                seq![Action::ReleaseCollapseTimer]
            } else {
                Seq::<Action>::empty()
            };
            &&& auto_collapse_step(s, pos).0 == toggle_step(s1, pos).0
            &&& auto_collapse_step(s, pos).1 == release + toggle_step(s1, pos).1
        }),
        s.items && !pos.spacer_left_of_anchor() ==> {
            &&& !auto_collapse_step(s, pos).0.hidden
            &&& auto_collapse_step(s, pos).1.last() == Action::SetAnchorSymbol(AnchorSymbol::Blocked)
            &&& auto_collapse_step(s, pos).1 == (if s.collapse_timer {
                seq![Action::ReleaseCollapseTimer, Action::SetAnchorSymbol(AnchorSymbol::Blocked)]
            } else {
                seq![Action::SetAnchorSymbol(AnchorSymbol::Blocked)]
            })
        },
{
    let s1 = ControllerIvars { collapse_timer: false, ..s };
    let release = if s.collapse_timer {
        seq![Action::ReleaseCollapseTimer]
    } else {
        Seq::<Action>::empty()
    };
    if s.items && !pos.spacer_left_of_anchor() {
        assert(release + seq![Action::SetAnchorSymbol(AnchorSymbol::Blocked)] =~= (if s.collapse_timer {
            seq![Action::ReleaseCollapseTimer, Action::SetAnchorSymbol(AnchorSymbol::Blocked)]
        } else {
            seq![Action::SetAnchorSymbol(AnchorSymbol::Blocked)]
        }));
    }
}

/// A right click on the anchor never toggles: in every state and layout it
/// leaves the state alone and only opens the menu (once the items exist);
/// a left click is a toggle.
pub proof fn right_click_only_opens_menu(s: ControllerIvars, pos: ItemPositions)
    ensures
        anchor_click_step(s, true, pos).0 == s,
        anchor_click_step(s, true, pos).1 == (if s.items {
            seq![Action::ShowMenu]
        } else {
            Seq::<Action>::empty()
        }),
        anchor_click_step(s, false, pos) == toggle_step(s, pos),
{
}

/// ASCII lower case of a character; other characters are left as they are.
pub open spec fn ascii_lower(c: char) -> char {
    if 'A' <= c && c <= 'Z' {
        ((c as u32) + 32) as char
    } else {
        c
    }
}

/// A language tag is Russian exactly when its first two characters, lower
/// cased, are `r` and `u`; the interface is Russian exactly when the most
/// preferred language is such a tag.
pub proof fn russian_means_ru_prefix(tag: Seq<char>, preferred: Seq<Seq<char>>)
    ensures
        is_russian_tag(tag) <==> (tag.len() >= 2 && ascii_lower(tag[0]) == 'r' && ascii_lower(tag[1])
            == 'u'),
        tag.len() >= 2 && ascii_lower(tag[1]) != 'u' ==> !is_russian_tag(tag),
        detected_lang(preferred) == Lang::Ru <==> (preferred.len() > 0 && preferred[0].len() >= 2
            && ascii_lower(preferred[0][0]) == 'r' && ascii_lower(preferred[0][1]) == 'u'),
{
    if tag.len() >= 2 {
        lower_is_r_or_u(tag[0]);
        lower_is_r_or_u(tag[1]);
    }
    if preferred.len() > 0 && preferred[0].len() >= 2 {
        lower_is_r_or_u(preferred[0][0]);
        lower_is_r_or_u(preferred[0][1]);
    }
}

proof fn lower_is_r_or_u(c: char)
    ensures
        ascii_lower(c) == 'r' <==> (c == 'r' || c == 'R'),
        ascii_lower(c) == 'u' <==> (c == 'u' || c == 'U'),
{
}

/// The guard's two tests on known positions: both items are placed when both
/// x are right of the origin, and the spacer stands left of the anchor when
/// moreover its x is the smaller; an unknown position passes neither.
pub proof fn guard_on_positions(sx: i64, ax: i64, x: Option<i64>)
    ensures
        (ItemPositions { spacer_x: Some(sx), anchor_x: Some(ax) }).both_right_of_origin() <==> (0
            < sx && 0 < ax),
        (ItemPositions { spacer_x: Some(sx), anchor_x: Some(ax) }).spacer_left_of_anchor() <==> (0
            < sx && sx < ax),
        !(ItemPositions { spacer_x: None, anchor_x: x }).both_right_of_origin(),
        !(ItemPositions { spacer_x: x, anchor_x: None }).both_right_of_origin(),
        !(ItemPositions { spacer_x: None, anchor_x: x }).spacer_left_of_anchor(),
        !(ItemPositions { spacer_x: x, anchor_x: None }).spacer_left_of_anchor(),
{
}

/// Before the items exist a toggle does nothing at all.
pub proof fn toggle_needs_items(s: ControllerIvars, pos: ItemPositions)
    requires
        !s.items,
    ensures
        toggle_step(s, pos) == (s, Seq::<Action>::empty()),
{
}

/// Hiding in a good layout: the icons become hidden, the spacer is widened,
/// the anchor shows the down chevron, an armed collapse timer is cancelled
/// and a running mouse monitor is stopped, in that order; nothing else of
/// the state changes.
pub proof fn hiding_in_good_layout(s: ControllerIvars, pos: ItemPositions)
    requires
        s.wf(),
        s.items,
        !s.hidden,
        pos.spacer_left_of_anchor(),
    ensures
        toggle_step(s, pos).0 == (ControllerIvars {
            hidden: true,
            monitor: false,
            collapse_timer: false,
            ..s
        }),
        toggle_step(s, pos).1 == seq![
            Action::SetSpacerLength(SpacerLength::Hidden),
            Action::SetAnchorSymbol(AnchorSymbol::Hidden),
        ] + (if s.collapse_timer {
            seq![Action::CancelCollapseTimer]
        } else {
            Seq::<Action>::empty()
        }) + (if s.monitor {
            seq![Action::StopMouseWatch]
        } else {
            Seq::<Action>::empty()
        }),
{
}

/// Launch makes the items, shows the icons and starts waiting for placement:
/// create the items, listen for window moves, start the placement checks.
pub proof fn launch_creates_and_waits(s: ControllerIvars)
    ensures
        launch_step(s).0 == (ControllerIvars { items: true, hidden: false, ..s }),
        launch_step(s).1 == seq![
            Action::CreateItems,
            Action::ObserveWindowMoves,
            Action::StartPlacementTimer,
        ],
{
}

/// A first finish of the setup: it needs the items and both placed, and
/// then marks the setup done and stops listening for window moves; it hides
/// the icons (through the guard) only if they are shown.
pub proof fn first_finish_of_setup(s: ControllerIvars, pos: ItemPositions)
    requires
        s.wf(),
        !s.placement_done,
    ensures
        !(s.items && pos.both_right_of_origin()) ==> finish_placement_step(s, pos) == (
        s,
        Seq::<Action>::empty(),
        ),
        s.items && pos.both_right_of_origin() ==> {
            &&& finish_placement_step(s, pos).0.placement_done
            &&& finish_placement_step(s, pos).1[0] == Action::StopObservingWindowMoves
        },
        s.items && pos.both_right_of_origin() && s.hidden ==> finish_placement_step(s, pos) == (
        ControllerIvars { placement_done: true, ..s },
        seq![Action::StopObservingWindowMoves],
        ),
        s.items && pos.both_right_of_origin() && !s.hidden ==> finish_placement_step(s, pos) == (
        toggle_step(ControllerIvars { placement_done: true, ..s }, pos).0,
        seq![Action::StopObservingWindowMoves] + toggle_step(
            ControllerIvars { placement_done: true, ..s },
            pos,
        ).1,
        ),
{
}

/// A placement check before launch does nothing. A failing check (an item
/// not placed) below the limit recreates both items on every multiple of the
/// escalation step; otherwise it recreates the spacer if it sits at the
/// origin and has retries left, else the anchor on the same terms, else
/// nothing; a single recreation uses one retry of that item, and nothing else
/// but the failure count changes.
pub proof fn failing_placement_check(s: ControllerIvars, pos: ItemPositions)
    requires
        s.wf(),
        s.placement_attempts < u32::MAX,
    ensures
        !s.items ==> placement_check_step(s, pos) == (s, Seq::<Action>::empty()),
        ({
            let n = s.placement_attempts + 1;
            let counted = ControllerIvars { placement_attempts: n as u32, ..s };
            let spacer_stuck = pos.spacer_x == Some(0i64) && s.spacer_retries > 0;
            let anchor_stuck = pos.anchor_x == Some(0i64) && s.anchor_retries > 0;
            s.items && !pos.both_right_of_origin() && n < PLACEMENT_MAX_ATTEMPTS ==> {
                &&& n % PLACEMENT_ESCALATE_AFTER as int == 0 ==> placement_check_step(s, pos) == (
                counted,
                seq![Action::RecreateBoth],
                )
                &&& n % PLACEMENT_ESCALATE_AFTER as int != 0 && spacer_stuck ==> placement_check_step(
                    s,
                    pos,
                ) == (
                ControllerIvars { spacer_retries: (s.spacer_retries - 1) as u32, ..counted },
                seq![Action::RecreateSpacer],
                )
                &&& n % PLACEMENT_ESCALATE_AFTER as int != 0 && !spacer_stuck && anchor_stuck
                    ==> placement_check_step(s, pos) == (
                ControllerIvars { anchor_retries: (s.anchor_retries - 1) as u32, ..counted },
                seq![Action::RecreateAnchor],
                )
                &&& n % PLACEMENT_ESCALATE_AFTER as int != 0 && !spacer_stuck && !anchor_stuck
                    ==> placement_check_step(s, pos) == (counted, Seq::<Action>::empty())
            }
        }),
{
}

/// A mouse move while the icons are shown: inside the strip it disarms an
/// armed timer and otherwise does nothing; outside it arms an unarmed timer
/// and otherwise does nothing. The monitor and the icons are never touched.
pub proof fn mouse_move_while_shown(s: ControllerIvars, in_strip: bool)
    requires
        !s.hidden,
    ensures
        in_strip && s.collapse_timer ==> mouse_moved_step(s, in_strip) == (
        ControllerIvars { collapse_timer: false, ..s },
        seq![Action::CancelCollapseTimer],
        ),
        in_strip && !s.collapse_timer ==> mouse_moved_step(s, in_strip) == (
        s,
        Seq::<Action>::empty(),
        ),
        !in_strip && !s.collapse_timer ==> mouse_moved_step(s, in_strip) == (
        ControllerIvars { collapse_timer: true, ..s },
        seq![Action::ArmCollapseTimer],
        ),
        !in_strip && s.collapse_timer ==> mouse_moved_step(s, in_strip) == (
        s,
        Seq::<Action>::empty(),
        ),
{
}

/// A collapse timer firing while the icons are hidden is only let go.
pub proof fn collapse_while_hidden(s: ControllerIvars, pos: ItemPositions)
    requires
        s.wf(),
        s.hidden,
    ensures
        auto_collapse_step(s, pos) == (s, Seq::<Action>::empty()),
{
}

} // verus!
