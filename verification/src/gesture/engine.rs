//! Timing decisions of the gesture engine.

use vstd::prelude::*;

use crate::gesture::tap::{tap_feed_spec, wrapped_duration, TapFrame, TapPhase, TapState, TapStep};

verus! {

/// Silence (ms) after which a three-finger tap still being tracked is
/// checked as if the fingers had lifted.
pub const TAP_RECOVERY_MS: i64 = 80;

/// Silence (ms) after which Alt-Tab is released and four-finger gestures
/// are re-armed.
pub const GESTURE_RECOVERY_MS: i64 = 250;

/// Time since the previous frame, or 0 before the first frame.
pub fn contact_elapsed(last_contact_time: i64, now: i64) -> (e: i64)
    requires
        last_contact_time > 0 ==> i64::MIN <= now - last_contact_time <= i64::MAX,
    ensures
        e == (if last_contact_time > 0 {
            now - last_contact_time
        } else {
            0
        }),
{
    if last_contact_time > 0 {
        now - last_contact_time
    } else {
        0
    }
}

/// What to recover when no contact report arrived for a while (lost
/// release reports).
#[derive(Debug, Clone, Copy, PartialEq, Eq, Structural)]
pub struct TimeoutPlan {
    /// Finish the three-finger tap being tracked, as if the fingers lifted.
    pub check_tap: bool,
    /// Release the Alt key held for Alt-Tab.
    pub release_alt_tab: bool,
    /// Re-arm four-finger gestures.
    pub rearm_four_finger: bool,
    /// Reset every gesture detector.
    pub reset_detectors: bool,
}

pub open spec fn timeout_plan_spec(
    last_contact_time: i64,
    now: i64,
    tap_touching: bool,
    alt_tab_active: bool,
    four_finger_triggered: bool,
) -> TimeoutPlan {
    let elapsed = now - last_contact_time;
    let active = last_contact_time > 0;
    let long = active && elapsed > GESTURE_RECOVERY_MS;
    TimeoutPlan {
        check_tap: active && elapsed > TAP_RECOVERY_MS && tap_touching,
        release_alt_tab: long && alt_tab_active,
        rearm_four_finger: long && four_finger_triggered,
        reset_detectors: long && (alt_tab_active || four_finger_triggered),
    }
}

/// Decide the recovery steps after a silence since the last contact report.
pub fn timeout_plan(
    last_contact_time: i64,
    now: i64,
    tap_touching: bool,
    alt_tab_active: bool,
    four_finger_triggered: bool,
) -> (p: TimeoutPlan)
    requires
        last_contact_time > 0 ==> i64::MIN <= now - last_contact_time <= i64::MAX,
    ensures
        p == timeout_plan_spec(last_contact_time, now, tap_touching, alt_tab_active, four_finger_triggered),
{
    let mut plan = TimeoutPlan {
        check_tap: false,
        release_alt_tab: false,
        rearm_four_finger: false,
        reset_detectors: false,
    };
    if last_contact_time > 0 {
        let elapsed = now - last_contact_time;
        if elapsed > TAP_RECOVERY_MS && tap_touching {
            plan.check_tap = true;
        }
        if elapsed > GESTURE_RECOVERY_MS {
            if alt_tab_active {
                plan.release_alt_tab = true;
                plan.reset_detectors = true;
            }
            if four_finger_triggered {
                plan.rearm_four_finger = true;
                plan.reset_detectors = true;
            }
        }
    }
    plan
}

/// Recovery never touches a gesture that is not pending, and nothing is
/// recovered before any contact arrived.
pub proof fn lemma_recovery_only_when_needed(
    last_contact_time: i64,
    now: i64,
    tap_touching: bool,
    alt_tab_active: bool,
    four_finger_triggered: bool,
)
    ensures
        ({
            let p = timeout_plan_spec(last_contact_time, now, tap_touching, alt_tab_active, four_finger_triggered);
            &&& p.release_alt_tab ==> alt_tab_active
            &&& p.rearm_four_finger ==> four_finger_triggered
            &&& p.check_tap ==> tap_touching
            &&& p.reset_detectors <==> (p.release_alt_tab || p.rearm_four_finger)
            &&& last_contact_time <= 0 ==> !p.check_tap && !p.reset_detectors
        }),
{
}

/// Which recognizers a frame goes to, by its number of fingers.
#[derive(Debug, Clone, Copy, PartialEq, Eq, Structural)]
pub enum FrameHandler {
    /// Four-finger swipes, pinches, taps and Alt-Tab navigation.
    FourFingers,
    /// Three-finger drag and tap.
    ThreeFingers,
    /// Native two-finger scrolling.
    TwoFingers,
    /// One-finger edge slides.
    OneFinger,
    /// All fingers lifted.
    Lift,
    /// Five or more fingers: no gesture; everything pending is abandoned
    /// and four-finger gestures are re-armed.
    ManyFingers,
}

/// What the engine does with a frame before and around its recognizers.
#[derive(Debug, Clone, Copy, PartialEq, Eq, Structural)]
pub struct FrameRoute {
    pub handler: FrameHandler,
    /// Release the Alt key held for Alt-Tab.
    pub release_alt_tab: bool,
    /// End a running three-finger drag.
    pub stop_drag: bool,
    pub reset_two_finger_swipe: bool,
    pub reset_edge_slide: bool,
    /// Reset the four-finger swipe and pinch detectors.
    pub reset_swipe_and_pinch: bool,
    pub reset_four_finger_tap: bool,
    /// The touchpad no longer scrolls with two fingers.
    pub end_touchpad_scroll: bool,
    /// Run three-finger drag recognition.
    pub three_finger_gestures: bool,
    /// Feed the edge slide detector.
    pub feed_edge_slide: bool,
    /// Feed the frame's contacts to the three-finger tap recognizer.
    pub feed_three_finger_tap: bool,
    /// Check whether the lift completes a three-finger tap.
    pub check_three_finger_tap: bool,
    /// Abandon the three-finger tap being tracked.
    pub reset_three_finger_tap: bool,
    /// Re-arm four-finger gestures.
    pub rearm_four_finger: bool,
}

pub open spec fn handler_of(finger_count: nat) -> FrameHandler {
    if finger_count == 4 {
        FrameHandler::FourFingers
    } else if finger_count == 3 {
        FrameHandler::ThreeFingers
    } else if finger_count == 2 {
        FrameHandler::TwoFingers
    } else if finger_count == 1 {
        FrameHandler::OneFinger
    } else if finger_count == 0 {
        FrameHandler::Lift
    } else {
        FrameHandler::ManyFingers
    }
}

/// The routing of a frame with `finger_count` fingers.
pub open spec fn route_spec(
    finger_count: nat,
    alt_tab_active: bool,
    four_finger_triggered: bool,
    edge_slide_enabled: bool,
    three_finger_tap_enabled: bool,
) -> FrameRoute {
    let h = handler_of(finger_count);
    let ends_touch = h == FrameHandler::Lift || h == FrameHandler::ManyFingers;
    FrameRoute {
        handler: h,
        release_alt_tab: finger_count != 4 && alt_tab_active,
        stop_drag: h != FrameHandler::ThreeFingers,
        reset_two_finger_swipe: h != FrameHandler::TwoFingers,
        reset_edge_slide: h != FrameHandler::OneFinger,
        reset_swipe_and_pinch: h == FrameHandler::TwoFingers || h == FrameHandler::OneFinger || ends_touch,
        reset_four_finger_tap: ends_touch,
        end_touchpad_scroll: h == FrameHandler::TwoFingers || ends_touch,
        three_finger_gestures: h == FrameHandler::ThreeFingers && !four_finger_triggered,
        feed_edge_slide: h == FrameHandler::OneFinger && edge_slide_enabled && !four_finger_triggered,
        feed_three_finger_tap: h == FrameHandler::FourFingers || (h == FrameHandler::ThreeFingers
            && !four_finger_triggered && three_finger_tap_enabled),
        check_three_finger_tap: h == FrameHandler::Lift && !four_finger_triggered
            && three_finger_tap_enabled,
        reset_three_finger_tap: h == FrameHandler::ManyFingers,
        rearm_four_finger: ends_touch,
    }
}

/// Route a frame: which recognizers it reaches and what is reset first.
/// Four fingers take priority over a running drag; four fingers also reach
/// the three-finger tap recognizer, so that the change of finger count
/// cancels a tap; lifting all fingers ends every gesture, completes a
/// pending three-finger tap and re-arms four-finger gestures; five or more
/// fingers abandon every gesture, a pending three-finger tap included, and
/// re-arm four-finger gestures as a lift does.
pub fn route_frame(
    finger_count: usize,
    alt_tab_active: bool,
    four_finger_triggered: bool,
    edge_slide_enabled: bool,
    three_finger_tap_enabled: bool,
) -> (r: FrameRoute)
    ensures
        r == route_spec(
            finger_count as nat,
            alt_tab_active,
            four_finger_triggered,
            edge_slide_enabled,
            three_finger_tap_enabled,
        ),
{
    let handler = if finger_count == 4 {
        FrameHandler::FourFingers
    } else if finger_count == 3 {
        FrameHandler::ThreeFingers
    } else if finger_count == 2 {
        FrameHandler::TwoFingers
    } else if finger_count == 1 {
        FrameHandler::OneFinger
    } else if finger_count == 0 {
        FrameHandler::Lift
    } else {
        FrameHandler::ManyFingers
    };
    let four = matches!(handler, FrameHandler::FourFingers);
    let three = matches!(handler, FrameHandler::ThreeFingers);
    let two = matches!(handler, FrameHandler::TwoFingers);
    let one = matches!(handler, FrameHandler::OneFinger);
    let lift = matches!(handler, FrameHandler::Lift);
    let many = matches!(handler, FrameHandler::ManyFingers);
    let ends_touch = lift || many;
    FrameRoute {
        handler,
        release_alt_tab: finger_count != 4 && alt_tab_active,
        stop_drag: !three,
        reset_two_finger_swipe: !two,
        reset_edge_slide: !one,
        reset_swipe_and_pinch: two || one || ends_touch,
        reset_four_finger_tap: ends_touch,
        end_touchpad_scroll: two || ends_touch,
        three_finger_gestures: three && !four_finger_triggered,
        feed_edge_slide: one && edge_slide_enabled && !four_finger_triggered,
        feed_three_finger_tap: four || (three && !four_finger_triggered && three_finger_tap_enabled),
        check_three_finger_tap: lift && !four_finger_triggered && three_finger_tap_enabled,
        reset_three_finger_tap: many,
        rearm_four_finger: ends_touch,
    }
}

/// Alt-Tab stays held exactly while four fingers stay down; once a
/// four-finger gesture fired, nothing else is recognized until all fingers
/// lift or five or more fingers touch, and only those frames re-arm
/// four-finger gestures.
pub proof fn lemma_four_finger_gesture_owns_the_touch(
    finger_count: nat,
    alt_tab_active: bool,
    edge_slide_enabled: bool,
    three_finger_tap_enabled: bool,
)
    ensures
        ({
            let r = route_spec(finger_count, alt_tab_active, true, edge_slide_enabled, three_finger_tap_enabled);
            &&& r.release_alt_tab <==> (alt_tab_active && finger_count != 4)
            &&& !r.three_finger_gestures && !r.feed_edge_slide && !r.check_three_finger_tap
            &&& r.rearm_four_finger <==> (finger_count == 0 || finger_count >= 5)
        }),
{
}

/// Only an empty frame can complete a three-finger tap: a frame with
/// fingers on the pad never checks for one, and a frame with five or more
/// fingers abandons the tap being tracked.
pub proof fn lemma_only_a_lift_completes_a_tap(
    finger_count: nat,
    alt_tab_active: bool,
    four_finger_triggered: bool,
    edge_slide_enabled: bool,
    three_finger_tap_enabled: bool,
)
    ensures
        ({
            let r = route_spec(
                finger_count,
                alt_tab_active,
                four_finger_triggered,
                edge_slide_enabled,
                three_finger_tap_enabled,
            );
            &&& r.check_three_finger_tap ==> finger_count == 0
            &&& finger_count >= 5 ==> r.reset_three_finger_tap && !r.feed_three_finger_tap
        }),
{
}

/// The three-finger tap recognizer after the engine routes one frame to
/// it, and whether that frame completed a tap (which sends Win+S). The
/// recognizer is fed the frames that `route_spec` sends it, checked on a
/// lift, and reset by five or more fingers; Alt-Tab is not held and no
/// three-finger drag runs.
pub open spec fn engine_tap_step(
    t: TapState,
    f: TapFrame,
    four_finger_triggered: bool,
    three_finger_tap_enabled: bool,
    max_duration_ms: u64,
) -> (TapState, bool) {
    let r = route_spec(f.count as nat, false, four_finger_triggered, true, three_finger_tap_enabled);
    if r.feed_three_finger_tap || r.check_three_finger_tap {
        let (t2, step) = tap_feed_spec(t, f.count as nat, f.now, max_duration_ms, f.moved_far);
        (t2, r.check_three_finger_tap && step == TapStep::Tapped)
    } else if r.reset_three_finger_tap {
        (TapState { phase: TapPhase::Idle, finger_count: 0, cancelled: false, ..t }, false)
    } else {
        (t, false)
    }
}

/// The recognizer and the taps completed over a sequence of frames.
pub open spec fn engine_tap_run(
    t: TapState,
    frames: Seq<TapFrame>,
    four_finger_triggered: bool,
    three_finger_tap_enabled: bool,
    max_duration_ms: u64,
) -> (TapState, Seq<bool>)
    decreases frames.len(),
{
    if frames.len() == 0 {
        (t, Seq::empty())
    } else {
        let (t1, sent) = engine_tap_step(t, frames[0], four_finger_triggered, three_finger_tap_enabled, max_duration_ms);
        let (t2, rest) = engine_tap_run(
            t1,
            frames.drop_first(),
            four_finger_triggered,
            three_finger_tap_enabled,
            max_duration_ms,
        );
        (t2, seq![sent] + rest)
    }
}

/// Frames after three fingers touched down, up to and including the lift:
/// one to three fingers while down, three-finger frames unmoved and in
/// time, and the lift in time.
pub open spec fn quick_three_finger_release(frames: Seq<TapFrame>, t0: i64, max_duration_ms: u64) -> bool {
    &&& frames.len() >= 1
    &&& frames[frames.len() - 1].count == 0
    &&& wrapped_duration(frames[frames.len() - 1].now, t0) <= max_duration_ms
    &&& forall|i: int|
        0 <= i < frames.len() - 1 ==> {
            &&& 1 <= (#[trigger] frames[i]).count <= 3
            &&& frames[i].count == 3 ==> !frames[i].moved_far && wrapped_duration(frames[i].now, t0)
                <= max_duration_ms
        }
}

proof fn lemma_release_completes_tap(t: TapState, frames: Seq<TapFrame>, max_duration_ms: u64)
    requires
        t.phase == TapPhase::Touching,
        t.finger_count == 3,
        !t.cancelled,
        quick_three_finger_release(frames, t.touch_start_time, max_duration_ms),
    ensures
        ({
            let (t2, sent) = engine_tap_run(t, frames, false, true, max_duration_ms);
            &&& sent.len() == frames.len()
            &&& forall|i: int| 0 <= i < frames.len() - 1 ==> !#[trigger] sent[i]
            &&& sent[frames.len() - 1]
            &&& t2.phase == TapPhase::Idle
        }),
    decreases frames.len(),
{
    let (t1, s0) = engine_tap_step(t, frames[0], false, true, max_duration_ms);
    let rest = frames.drop_first();
    if frames.len() > 1 {
        assert forall|i: int| 0 <= i < rest.len() - 1 implies {
            &&& 1 <= (#[trigger] rest[i]).count <= 3
            &&& rest[i].count == 3 ==> !rest[i].moved_far && wrapped_duration(rest[i].now, t.touch_start_time)
                <= max_duration_ms
        } by {
            assert(rest[i] == frames[i + 1]);
        }
        assert(rest[rest.len() - 1] == frames[frames.len() - 1]);
        assert(t1 == t || (t1.phase == TapPhase::Touching && t1.finger_count == 3 && !t1.cancelled
            && t1.touch_start_time == t.touch_start_time));
        lemma_release_completes_tap(t1, rest, max_duration_ms);
        let sent = engine_tap_run(t1, rest, false, true, max_duration_ms).1;
        assert forall|i: int| 0 <= i < frames.len() - 1 implies !#[trigger] (seq![s0] + sent)[i] by {
            if i > 0 {
                assert((seq![s0] + sent)[i] == sent[i - 1]);
            }
        }
        assert((seq![s0] + sent)[frames.len() - 1] == sent[rest.len() - 1]);
    } else {
        let sent = engine_tap_run(t1, rest, false, true, max_duration_ms).1;
        assert(sent.len() == 0);
        assert((seq![s0] + sent)[0] == s0);
    }
}

/// A quick three-finger tap sends Win+S exactly once, when the fingers
/// lift: from an idle recognizer (target three fingers), with three-finger
/// taps enabled and no four-finger gesture fired, three fingers touch down
/// at `t0`; while they come off, every frame has one to three fingers, the
/// three-finger frames stay within the allowed distance and time, and the
/// empty frame comes within `max_duration_ms` of `t0`. No frame before the
/// lift completes a tap, the lift does, and the recognizer is idle again.
pub proof fn lemma_three_finger_tap_sends_search_once(t: TapState, frames: Seq<TapFrame>, max_duration_ms: u64)
    requires
        t.phase == TapPhase::Idle,
        t.target_fingers == 3,
        frames.len() >= 2,
        frames[0].count == 3,
        quick_three_finger_release(frames.drop_first(), frames[0].now, max_duration_ms),
    ensures
        ({
            let (t2, sent) = engine_tap_run(t, frames, false, true, max_duration_ms);
            &&& sent.len() == frames.len()
            &&& forall|i: int| 0 <= i < frames.len() - 1 ==> !#[trigger] sent[i]
            &&& sent[frames.len() - 1]
            &&& t2.phase == TapPhase::Idle
        }),
{
    let (t1, s0) = engine_tap_step(t, frames[0], false, true, max_duration_ms);
    let rest = frames.drop_first();
    lemma_release_completes_tap(t1, rest, max_duration_ms);
    let sent = engine_tap_run(t1, rest, false, true, max_duration_ms).1;
    assert forall|i: int| 0 <= i < frames.len() - 1 implies !#[trigger] (seq![s0] + sent)[i] by {
        if i > 0 {
            assert((seq![s0] + sent)[i] == sent[i - 1]);
        }
    }
    assert((seq![s0] + sent)[frames.len() - 1] == sent[rest.len() - 1]);
}

} // verus!
