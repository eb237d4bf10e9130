use mac_touchpad_core::config::GestureAction;
use mac_touchpad_core::gesture::pinch::{pinch_action, PinchDirection};
use mac_touchpad_core::gesture::swipe::{
    four_finger_mode, swipe_action, swipe_outcome, FourFingerMode, SwipeDirection, SwipeOutcome,
};
use mac_touchpad_core::gesture::distance::{DistanceManager, RELEASE_FINGERS_THRESHOLD_MS};
use mac_touchpad_core::gesture::drag::{drag_step, release_delay, DragStep, TimerAction};
use mac_touchpad_core::gesture::engine::{
    contact_elapsed, route_frame, timeout_plan, FrameHandler, FrameRoute, TimeoutPlan,
};
use mac_touchpad_core::gesture::two_finger::{EdgeSlideAction, EdgeSlideDetector};
use mac_touchpad_core::hid::types::TouchpadContact;

fn one(x: i32, y: i32) -> Vec<TouchpadContact> {
    vec![TouchpadContact::new(1, x, y)]
}

const X: (i32, i32) = (0, 1000);
const Y: (i32, i32) = (0, 800);

#[test]
fn edge_slide_up_on_left_edge_raises_volume() {
    let mut d = EdgeSlideDetector::new();
    assert_eq!(d.feed(&one(50, 500), X, Y, 100, 80), None);
    assert_eq!(d.feed(&one(60, 460), X, Y, 100, 80), None);
    assert_eq!(d.feed(&one(60, 410), X, Y, 100, 80), Some(EdgeSlideAction::VolumeUp));
    // Travel restarts after an action: another full threshold is needed.
    assert_eq!(d.feed(&one(60, 350), X, Y, 100, 80), None);
    assert_eq!(d.feed(&one(60, 330), X, Y, 100, 80), Some(EdgeSlideAction::VolumeUp));
}

#[test]
fn edge_slide_down_on_left_edge_lowers_volume() {
    let mut d = EdgeSlideDetector::new();
    assert_eq!(d.feed(&one(10, 100), X, Y, 100, 80), None);
    assert_eq!(d.feed(&one(10, 180), X, Y, 100, 80), Some(EdgeSlideAction::VolumeDown));
}

#[test]
fn edge_slide_from_center_never_triggers() {
    let mut d = EdgeSlideDetector::new();
    // 100 + 150 landing tolerance = 250: 251 is off the edge.
    assert_eq!(d.feed(&one(251, 500), X, Y, 100, 80), None);
    assert_eq!(d.feed(&one(20, 300), X, Y, 100, 80), None);
    assert_eq!(d.feed(&one(20, 100), X, Y, 100, 80), None);
    // Lifting the finger resets the detector.
    assert_eq!(d.feed(&[], X, Y, 100, 80), None);
    assert_eq!(d.feed(&one(250, 500), X, Y, 100, 80), None);
    assert_eq!(d.feed(&one(250, 400), X, Y, 100, 80), Some(EdgeSlideAction::VolumeUp));
}

#[test]
fn edge_slide_drifting_into_center_cancels() {
    let mut d = EdgeSlideDetector::new();
    assert_eq!(d.feed(&one(50, 500), X, Y, 100, 80), None);
    // 100 + 200 drift tolerance = 300.
    assert_eq!(d.feed(&one(301, 450), X, Y, 100, 80), None);
    assert_eq!(d.feed(&one(50, 100), X, Y, 100, 80), None);
}

#[test]
fn edge_slide_on_right_edge_controls_brightness() {
    let r = (0, 4096);
    let mut d = EdgeSlideDetector::new();
    assert_eq!(d.feed(&one(4000, 2000), r, r, 800, 200), None);
    assert_eq!(d.feed(&one(4000, 1700), r, r, 800, 200), Some(EdgeSlideAction::BrightnessUp));
    assert_eq!(d.feed(&one(3900, 1800), r, r, 800, 200), None);
    assert_eq!(d.feed(&one(3900, 2000), r, r, 800, 200), Some(EdgeSlideAction::BrightnessDown));

    // On the range (0, 1000) with threshold 100 the right edge starts at 900.
    let mut d = EdgeSlideDetector::new();
    assert_eq!(d.feed(&one(900, 100), X, Y, 100, 80), None);
    assert_eq!(d.feed(&one(950, 190), X, Y, 100, 80), Some(EdgeSlideAction::BrightnessDown));
    let mut d = EdgeSlideDetector::new();
    assert_eq!(d.feed(&one(899, 500), X, Y, 100, 80), None);
    assert_eq!(d.feed(&one(950, 300), X, Y, 100, 80), None);
}

#[test]
fn edge_slide_drifting_off_the_right_edge_cancels() {
    let mut d = EdgeSlideDetector::new();
    assert_eq!(d.feed(&one(950, 500), X, Y, 100, 80), None);
    // 1000 - 100 - 200 drift tolerance = 700.
    assert_eq!(d.feed(&one(700, 480), X, Y, 100, 80), None);
    assert_eq!(d.feed(&one(699, 450), X, Y, 100, 80), None);
    assert_eq!(d.feed(&one(950, 100), X, Y, 100, 80), None);
}

#[test]
fn edge_slide_ignores_multi_finger_frames() {
    let mut d = EdgeSlideDetector::new();
    assert_eq!(d.feed(&one(50, 500), X, Y, 100, 80), None);
    let two = vec![TouchpadContact::new(1, 50, 300), TouchpadContact::new(2, 60, 300)];
    assert_eq!(d.feed(&two, X, Y, 100, 80), None);
    // The second finger reset the slide: this touch starts a new one.
    assert_eq!(d.feed(&one(50, 300), X, Y, 100, 80), None);
    d.reset();
    assert_eq!(d.feed(&one(50, 300), X, Y, 100, 80), None);
}

#[test]
fn distance_manager_quarantines_new_contacts() {
    let mut m = DistanceManager::new();
    let c = [TouchpadContact::new(1, 0, 0)];
    m.update_trust(&c, 100);
    assert!(!m.is_trusted(1));
    m.update_trust(&c, 100 + RELEASE_FINGERS_THRESHOLD_MS);
    assert!(!m.is_trusted(1));
    m.update_trust(&c, 100 + RELEASE_FINGERS_THRESHOLD_MS + 1);
    assert!(m.is_trusted(1));
    // A trusted finger that lifts is forgotten and quarantined again on return.
    m.update_trust(&[], 200);
    assert!(!m.is_trusted(1));
    m.update_trust(&c, 201);
    assert!(!m.is_trusted(1));
    m.update_trust(&c, 230);
    assert!(m.is_trusted(1));
    m.reset();
    assert!(!m.is_trusted(1));
}

#[test]
fn distance_manager_tracks_each_finger() {
    let mut m = DistanceManager::new();
    m.update_trust(&[TouchpadContact::new(1, 0, 0)], 10);
    m.update_trust(&[TouchpadContact::new(1, 0, 0), TouchpadContact::new(2, 0, 0)], 20);
    m.update_trust(&[TouchpadContact::new(1, 0, 0), TouchpadContact::new(2, 0, 0)], 30);
    assert!(m.is_trusted(1));
    assert!(!m.is_trusted(2));
    m.update_trust(&[TouchpadContact::new(1, 0, 0), TouchpadContact::new(2, 0, 0)], 36);
    assert!(m.is_trusted(2));
}

#[test]
fn release_delay_is_at_least_the_threshold() {
    assert_eq!(release_delay(true, 300), 300);
    assert_eq!(release_delay(true, 5), 15);
    assert_eq!(release_delay(true, 15), 15);
    assert_eq!(release_delay(false, 300), 15);
    assert_ne!(TimerAction::StartTimer(15), TimerAction::Idle);
}

#[test]
fn elapsed_is_zero_before_first_contact() {
    assert_eq!(contact_elapsed(0, 5000), 0);
    assert_eq!(contact_elapsed(1000, 1300), 300);
}

#[test]
fn timeout_plan_recovers_pending_gestures() {
    let none = TimeoutPlan {
        check_tap: false,
        release_alt_tab: false,
        rearm_four_finger: false,
        reset_detectors: false,
    };
    assert_eq!(timeout_plan(0, 10_000, true, true, true), none);
    assert_eq!(timeout_plan(1000, 1080, true, true, true), none);
    assert_eq!(
        timeout_plan(1000, 1081, true, true, true),
        TimeoutPlan { check_tap: true, ..none }
    );
    assert_eq!(
        timeout_plan(1000, 1251, false, true, false),
        TimeoutPlan { release_alt_tab: true, reset_detectors: true, ..none }
    );
    assert_eq!(
        timeout_plan(1000, 1251, false, false, true),
        TimeoutPlan { rearm_four_finger: true, reset_detectors: true, ..none }
    );
    assert_eq!(timeout_plan(1000, 1251, false, false, false), none);
}

#[test]
fn edge_slide_overflow_check() {
    let d = EdgeSlideDetector::new();
    assert!(d.can_feed(&one(0, 0), X, 100));
    assert!(d.can_feed(&[], (i32::MAX, 0), i32::MAX));
    // Edge positions are compared without overflow, whatever the range.
    assert!(d.can_feed(&one(0, 0), (i32::MAX, i32::MIN), i32::MAX));
    let mut d = EdgeSlideDetector::new();
    assert_eq!(d.feed(&one(0, i32::MIN), X, Y, 100, i32::MAX), None);
    assert!(d.can_feed(&one(0, -5), X, 100));
    assert!(!d.can_feed(&one(0, 0), X, 100));
    assert!(!d.can_feed(&one(0, i32::MAX), X, 100));
}

#[test]
fn drag_steps() {
    // Three fingers moving together start a drag.
    assert_eq!(drag_step(3, true, 3, 3, 3, false), DragStep::Start);
    // ... but not when the touch did not start with three fingers.
    assert_eq!(drag_step(3, true, 3, 3, 2, false), DragStep::Hold);
    assert_eq!(drag_step(3, false, 3, 3, 3, false), DragStep::Hold);
    // While dragging, two or three moving fingers move the cursor.
    assert_eq!(drag_step(3, true, 3, 3, 3, true), DragStep::Move);
    assert_eq!(drag_step(2, true, 2, 3, 3, true), DragStep::Move);
    // Fewer than two moving fingers end the drag.
    assert_eq!(drag_step(3, true, 1, 3, 3, true), DragStep::Stop);
    assert_eq!(drag_step(4, true, 4, 4, 4, true), DragStep::Stop);
    assert_eq!(drag_step(0, false, 3, 3, 3, true), DragStep::Hold);
}

#[test]
fn frames_are_routed_by_finger_count() {
    let four = route_frame(4, true, false, true, true);
    assert_eq!(four.handler, FrameHandler::FourFingers);
    assert!(!four.release_alt_tab && four.stop_drag && four.reset_two_finger_swipe && four.reset_edge_slide);
    assert!(!four.reset_swipe_and_pinch && !four.rearm_four_finger);

    let three = route_frame(3, true, false, true, true);
    assert_eq!(three.handler, FrameHandler::ThreeFingers);
    assert!(three.release_alt_tab && !three.stop_drag && three.three_finger_gestures);
    assert!(!route_frame(3, false, true, true, true).three_finger_gestures);

    let two = route_frame(2, false, false, true, true);
    assert_eq!(
        two,
        FrameRoute {
            handler: FrameHandler::TwoFingers,
            release_alt_tab: false,
            stop_drag: true,
            reset_two_finger_swipe: false,
            reset_edge_slide: true,
            reset_swipe_and_pinch: true,
            reset_four_finger_tap: false,
            end_touchpad_scroll: true,
            three_finger_gestures: false,
            feed_edge_slide: false,
            feed_three_finger_tap: false,
            check_three_finger_tap: false,
            reset_three_finger_tap: false,
            rearm_four_finger: false,
        }
    );

    assert!(route_frame(1, false, false, true, true).feed_edge_slide);
    assert!(!route_frame(1, false, false, false, true).feed_edge_slide);
    assert!(!route_frame(1, false, true, true, true).feed_edge_slide);

    let lift = route_frame(0, true, false, true, true);
    assert_eq!(lift.handler, FrameHandler::Lift);
    assert!(lift.release_alt_tab && lift.rearm_four_finger && lift.check_three_finger_tap);
    assert!(lift.reset_four_finger_tap && lift.end_touchpad_scroll);
    assert!(!lift.reset_three_finger_tap && !lift.feed_three_finger_tap);
    assert!(!route_frame(0, false, true, true, true).check_three_finger_tap);
    assert!(!route_frame(0, false, false, true, false).check_three_finger_tap);

    // Three fingers feed the tap recognizer when taps are enabled, four always.
    assert!(route_frame(3, false, false, true, true).feed_three_finger_tap);
    assert!(!route_frame(3, false, false, true, false).feed_three_finger_tap);
    assert!(!route_frame(3, false, true, true, true).feed_three_finger_tap);
    assert!(route_frame(4, false, true, true, false).feed_three_finger_tap);
}

#[test]
fn five_or_more_fingers_are_not_a_lift() {
    for count in [5usize, 10] {
        let many = route_frame(count, true, false, true, true);
        assert_eq!(many.handler, FrameHandler::ManyFingers);
        assert!(!many.check_three_finger_tap && many.reset_three_finger_tap && !many.feed_three_finger_tap);
        assert!(many.rearm_four_finger);
        assert!(many.release_alt_tab && many.stop_drag && many.reset_edge_slide && many.reset_swipe_and_pinch);
        assert!(many.reset_four_finger_tap && many.end_touchpad_scroll && many.reset_two_finger_swipe);
    }
}

#[test]
fn five_fingers_cancel_a_pending_three_finger_tap() {
    // The engine's handling of the tap recognizer, frame by frame.
    let mut t = TapTracker::new(3);
    let step = |t: &mut TapTracker, count: usize, now: i64| -> bool {
        let r = route_frame(count, false, false, true, true);
        if r.reset_three_finger_tap {
            t.reset();
        }
        if r.feed_three_finger_tap || r.check_three_finger_tap {
            let s = t.feed(count, now, 200, false);
            return r.check_three_finger_tap && s == TapStep::Tapped;
        }
        false
    };
    assert!(!step(&mut t, 3, 1000));
    assert!(!step(&mut t, 5, 1030));
    assert!(!step(&mut t, 0, 1060));
    // A quick three-finger tap lifting through two and one fingers sends Win+S once.
    assert!(!step(&mut t, 3, 2000));
    assert!(!step(&mut t, 2, 2040));
    assert!(!step(&mut t, 1, 2060));
    assert!(step(&mut t, 0, 2080));
    assert!(!step(&mut t, 0, 2090));
}

use mac_touchpad_core::gesture::tap::{TapStep, TapTracker};

#[test]
fn quick_still_three_finger_touch_is_a_tap() {
    let mut t = TapTracker::new(3);
    assert_eq!(t.feed(2, 1000, 200, false), TapStep::Nothing);
    assert!(!t.is_touching());
    assert_eq!(t.feed(3, 1000, 200, false), TapStep::Started);
    assert!(t.is_touching());
    assert_eq!(t.feed(3, 1100, 200, false), TapStep::Nothing);
    assert_eq!(t.feed(0, 1200, 200, false), TapStep::Tapped);
    assert!(!t.is_touching());
    // The lift ended the touch: another lift is no tap.
    assert_eq!(t.feed(0, 1210, 200, false), TapStep::Nothing);
}

#[test]
fn taps_are_cancelled_by_motion_time_or_finger_changes() {
    let mut t = TapTracker::new(3);
    t.feed(3, 0, 200, false);
    t.feed(3, 50, 200, true);
    assert_eq!(t.feed(0, 60, 200, false), TapStep::Nothing);

    t.feed(3, 100, 200, false);
    assert_eq!(t.feed(0, 301, 200, false), TapStep::Nothing);

    t.feed(3, 400, 200, false);
    t.feed(4, 410, 200, false);
    t.feed(3, 420, 200, false);
    assert_eq!(t.feed(0, 430, 200, false), TapStep::Nothing);

    t.feed(3, 500, 200, false);
    t.feed(3, 800, 200, false);
    assert_eq!(t.feed(0, 800, 10_000, false), TapStep::Nothing);

    // A clock that went backwards makes the touch look endless.
    t.feed(3, 1000, 200, false);
    assert_eq!(t.feed(0, 999, 200, false), TapStep::Nothing);
    t.feed(3, 1000, u64::MAX, false);
    assert_eq!(t.feed(0, 999, u64::MAX, false), TapStep::Tapped);

    t.feed(3, 2000, 200, false);
    t.reset();
    assert!(!t.is_touching());
    assert_eq!(t.feed(0, 2001, 200, false), TapStep::Nothing);
}

#[test]
fn overflow_guards() {
    let mut t = TapTracker::new(3);
    assert!(t.can_feed(i64::MIN));
    t.feed(3, i64::MAX, 200, false);
    assert!(t.can_feed(0));
    assert!(!t.can_feed(-2));
    let mut m = DistanceManager::new();
    let c = [TouchpadContact::new(1, 0, 0)];
    assert!(m.can_update_trust(&c, i64::MAX));
    m.update_trust(&c, i64::MAX);
    assert!(m.can_update_trust(&c, 0));
    assert!(!m.can_update_trust(&c, -2));
    assert!(m.can_update_trust(&[], -2));
}

#[test]
fn a_touch_taps_at_most_once() {
    let mut t = TapTracker::new(3);
    // Four fingers meet the three-finger target; the count must then hold.
    assert_eq!(t.feed(4, 0, 200, false), TapStep::Started);
    assert_eq!(t.feed(4, 100, 200, false), TapStep::Nothing);
    assert_eq!(t.feed(0, 200, 200, false), TapStep::Tapped);
    assert_eq!(t.feed(0, 210, 200, false), TapStep::Nothing);
    // A frame late by one millisecond spoils the tap even if the lift is in time.
    assert_eq!(t.feed(3, 1000, 200, false), TapStep::Started);
    assert_eq!(t.feed(3, 1201, 200, false), TapStep::Nothing);
    assert_eq!(t.feed(0, 1200, 200, false), TapStep::Nothing);
}

#[test]
fn swipe_and_pinch_actions_follow_the_configuration() {
    let pick = |d| swipe_action(d, GestureAction::WinTab, GestureAction::ShowDesktop, GestureAction::AltTab, GestureAction::CtrlWinRight);
    assert_eq!(pick(SwipeDirection::Up), GestureAction::WinTab);
    assert_eq!(pick(SwipeDirection::Down), GestureAction::ShowDesktop);
    assert_eq!(pick(SwipeDirection::Left), GestureAction::AltTab);
    assert_eq!(pick(SwipeDirection::Right), GestureAction::CtrlWinRight);
    assert_eq!(pinch_action(PinchDirection::Spread, GestureAction::ShowDesktop, GestureAction::OpenStart), GestureAction::ShowDesktop);
    assert_eq!(pinch_action(PinchDirection::Pinch, GestureAction::ShowDesktop, GestureAction::OpenStart), GestureAction::OpenStart);
}

#[test]
fn four_finger_modes_and_alt_tab_swipes() {
    assert_eq!(four_finger_mode(true, true), FourFingerMode::NavigateAltTab);
    assert_eq!(four_finger_mode(false, false), FourFingerMode::Recognize);
    assert_eq!(four_finger_mode(false, true), FourFingerMode::Wait);
    assert_eq!(
        swipe_outcome(SwipeDirection::Left, GestureAction::AltTab),
        SwipeOutcome::StartAltTab { step_left: true }
    );
    assert_eq!(
        swipe_outcome(SwipeDirection::Right, GestureAction::AltTab),
        SwipeOutcome::StartAltTab { step_left: false }
    );
    assert_eq!(swipe_outcome(SwipeDirection::Up, GestureAction::AltTab), SwipeOutcome::Run(GestureAction::AltTab));
    assert_eq!(
        swipe_outcome(SwipeDirection::Left, GestureAction::CtrlWinLeft),
        SwipeOutcome::Run(GestureAction::CtrlWinLeft)
    );
}
