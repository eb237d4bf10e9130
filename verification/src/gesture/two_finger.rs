use vstd::prelude::*;

use crate::hid::types::TouchpadContact;

verus! {

/// Edge zone where a touch started.
#[derive(Debug, Clone, Copy, PartialEq, Eq, Structural)]
pub enum EdgeZone {
    /// No edge (center of touchpad).
    Center,
    /// Left edge (within edge_threshold of x_min).
    Left,
    /// Right edge (within edge_threshold of x_max).
    Right,
}

/// Two-finger swipe direction.
#[derive(Debug, Clone, Copy, PartialEq, Eq, Structural)]
pub enum TwoFingerSwipeDirection {
    Left,
    Right,
    Up,
    Down,
}


/// Edge slide result.
#[derive(Debug, Clone, Copy, PartialEq, Eq, Structural)]
pub enum EdgeSlideAction {
    /// Left edge slide up: volume up.
    VolumeUp,
    /// Left edge slide down: volume down.
    VolumeDown,
    /// Right edge slide up: brightness up.
    BrightnessUp,
    /// Right edge slide down: brightness down.
    BrightnessDown,
}

/// Extra horizontal distance (logical units) a finger may drift past the
/// edge zone before a slide is cancelled.
pub const EDGE_DRIFT_TOLERANCE: i32 = 200;

/// Extra horizontal distance (logical units) past the left edge zone where
/// a first touch still counts as landing on the left edge.
pub const EDGE_LANDING_TOLERANCE: i32 = 150;

/// The state of an edge slide detector.
pub struct EdgeSlideState {
    pub active_edge: Option<EdgeZone>,
    pub start_y: Option<i32>,
    pub last_y: Option<i32>,
    pub total_dy: i32,
    pub is_invalid: bool,
}

/// The state after a reset: nothing tracked.
pub open spec fn idle_state() -> EdgeSlideState {
    EdgeSlideState { active_edge: None, start_y: None, last_y: None, total_dy: 0, is_invalid: false }
}

/// Edge slide detector for volume and brightness adjustment.
///
/// Detects single-finger vertical movement that starts on the left or the
/// right edge.
pub struct EdgeSlideDetector {
    active_edge: Option<EdgeZone>,
    start_y: Option<i32>,
    last_y: Option<i32>,
    total_dy: i32,
    is_invalid: bool,
}

/// The edge a first touch at horizontal position `x` lands on: the left
/// edge (with a landing tolerance) is checked first, then the right edge.
pub open spec fn landing_edge(x: int, x_min: int, x_max: int, edge_threshold: int) -> Option<EdgeZone> {
    if x <= x_min + edge_threshold + EDGE_LANDING_TOLERANCE {
        Some(EdgeZone::Left)
    } else if x >= x_max - edge_threshold {
        Some(EdgeZone::Right)
    } else {
        None
    }
}

/// Whether a finger tracked on `edge` has drifted too far towards the
/// center, which cancels the slide.
pub open spec fn drifted_off(edge: EdgeZone, x: int, x_min: int, x_max: int, edge_threshold: int) -> bool {
    match edge {
        EdgeZone::Left => x > x_min + edge_threshold + EDGE_DRIFT_TOLERANCE,
        EdgeZone::Right => x < x_max - edge_threshold - EDGE_DRIFT_TOLERANCE,
        EdgeZone::Center => false,
    }
}

/// The action of a slide along `edge` whose travel reached the threshold:
/// upwards (negative travel) raises, downwards lowers.
pub open spec fn slide_action(edge: EdgeZone, total_dy: int) -> Option<EdgeSlideAction> {
    match edge {
        EdgeZone::Left => Some(if total_dy < 0 { EdgeSlideAction::VolumeUp } else { EdgeSlideAction::VolumeDown }),
        EdgeZone::Right => Some(
            if total_dy < 0 { EdgeSlideAction::BrightnessUp } else { EdgeSlideAction::BrightnessDown },
        ),
        EdgeZone::Center => None,
    }
}

/// The vertical arithmetic of a frame stays within `i32`.
pub open spec fn feed_ok(
    s: EdgeSlideState,
    contacts: Seq<TouchpadContact>,
    x_min: i32,
    x_max: i32,
    edge_threshold: i32,
) -> bool {
    (contacts.len() == 1 && !s.is_invalid && s.active_edge is Some && s.last_y is Some && !drifted_off(
        s.active_edge.unwrap(),
        contacts[0].x as int,
        x_min as int,
        x_max as int,
        edge_threshold as int,
    )) ==> {
        let d = contacts[0].y - s.last_y.unwrap();
        &&& i32::MIN <= d <= i32::MAX
        &&& i32::MIN < s.total_dy + d <= i32::MAX
    }
}

/// State and result of feeding one frame.
pub open spec fn feed_spec(
    s: EdgeSlideState,
    contacts: Seq<TouchpadContact>,
    x_min: i32,
    x_max: i32,
    edge_threshold: i32,
    slide_threshold: i32,
) -> (EdgeSlideState, Option<EdgeSlideAction>) {
    if contacts.len() != 1 {
        (idle_state(), None)
    } else if s.is_invalid {
        (s, None)
    } else {
        let c = contacts[0];
        match s.active_edge {
            Some(edge) => {
                if drifted_off(edge, c.x as int, x_min as int, x_max as int, edge_threshold as int) {
                    (EdgeSlideState { is_invalid: true, ..idle_state() }, None)
                } else {
                    let (total, last) = match s.last_y {
                        Some(l) => ((s.total_dy + (c.y - l)) as i32, Some(c.y)),
                        None => (s.total_dy, s.last_y),
                    };
                    let moved = EdgeSlideState { total_dy: total, last_y: last, ..s };
                    if (if total < 0 { -total } else { total as int }) >= slide_threshold {
                        match slide_action(edge, total as int) {
                            Some(action) => (
                                EdgeSlideState { total_dy: 0, start_y: Some(c.y), ..moved },
                                Some(action),
                            ),
                            None => (moved, None),
                        }
                    } else {
                        (moved, None)
                    }
                }
            },
            None => match landing_edge(c.x as int, x_min as int, x_max as int, edge_threshold as int) {
                Some(edge) => (
                    EdgeSlideState {
                        active_edge: Some(edge),
                        start_y: Some(c.y),
                        last_y: Some(c.y),
                        total_dy: 0,
                        is_invalid: false,
                    },
                    None,
                ),
                None => (EdgeSlideState { is_invalid: true, ..s }, None),
            },
        }
    }
}

/// States and results of feeding `frames` one after another from `s`.
pub open spec fn slide_run(
    s: EdgeSlideState,
    frames: Seq<Seq<TouchpadContact>>,
    x_min: i32,
    x_max: i32,
    edge_threshold: i32,
    slide_threshold: i32,
) -> (EdgeSlideState, Seq<Option<EdgeSlideAction>>)
    decreases frames.len(),
{
    if frames.len() == 0 {
        (s, Seq::empty())
    } else {
        let (s1, r) = feed_spec(s, frames[0], x_min, x_max, edge_threshold, slide_threshold);
        let (s2, rs) = slide_run(s1, frames.drop_first(), x_min, x_max, edge_threshold, slide_threshold);
        (s2, seq![r] + rs)
    }
}

impl EdgeSlideDetector {
    pub closed spec fn state(self) -> EdgeSlideState {
        EdgeSlideState {
            active_edge: self.active_edge,
            start_y: self.start_y,
            last_y: self.last_y,
            total_dy: self.total_dy,
            is_invalid: self.is_invalid,
        }
    }

    /// The accumulated vertical travel never reaches `i32::MIN`, so its
    /// magnitude is representable.
    pub open spec fn wf(self) -> bool {
        self.state().total_dy > i32::MIN
    }

    pub fn new() -> (d: Self)
        ensures
            d.state() == idle_state(),
            d.wf(),
    {
        EdgeSlideDetector { active_edge: None, start_y: None, last_y: None, total_dy: 0, is_invalid: false }
    }

    /// Whether feeding this frame keeps the slide arithmetic within `i32`
    /// (the condition `feed` needs).
    pub fn can_feed(&self, contacts: &[TouchpadContact], x_range: (i32, i32), edge_threshold: i32) -> (r:
        bool)
        ensures
            r == feed_ok(self.state(), contacts@, x_range.0, x_range.1, edge_threshold),
    {
        if contacts.len() != 1 || self.is_invalid {
            return true;
        }
        let c = contacts[0];
        match (self.active_edge, self.last_y) {
            (Some(edge), Some(last)) => {
                if Self::has_drifted(edge, c.x, x_range, edge_threshold) {
                    true
                } else {
                    let d = c.y as i64 - last as i64;
                    let t = self.total_dy as i64 + d;
                    let lo = i32::MIN as i64;
                    let hi = i32::MAX as i64;
                    lo <= d && d <= hi && lo < t && t <= hi
                }
            },
            _ => true,
        }
    }

    fn has_drifted(edge: EdgeZone, x: i32, x_range: (i32, i32), edge_threshold: i32) -> (r: bool)
        ensures
            r == drifted_off(edge, x as int, x_range.0 as int, x_range.1 as int, edge_threshold as int),
    {
        let tolerance = EDGE_DRIFT_TOLERANCE as i64;
        match edge {
            EdgeZone::Left => x as i64 > x_range.0 as i64 + edge_threshold as i64 + tolerance,
            EdgeZone::Right => (x as i64) < x_range.1 as i64 - edge_threshold as i64 - tolerance,
            EdgeZone::Center => false,
        }
    }

    fn landing(x: i32, x_range: (i32, i32), edge_threshold: i32) -> (r: Option<EdgeZone>)
        ensures
            r == landing_edge(x as int, x_range.0 as int, x_range.1 as int, edge_threshold as int),
    {
        if x as i64 <= x_range.0 as i64 + edge_threshold as i64 + EDGE_LANDING_TOLERANCE as i64 {
            Some(EdgeZone::Left)
        } else if x as i64 >= x_range.1 as i64 - edge_threshold as i64 {
            Some(EdgeZone::Right)
        } else {
            None
        }
    }

    /// Feed a new frame. Returns `Some(action)` when a slide threshold is
    /// reached.
    ///
    /// Only triggers if the initial touch was on an edge: a finger sliding
    /// from the center to an edge never triggers. On the left edge sliding
    /// up (decreasing Y) raises the volume and sliding down lowers it; on
    /// the right edge the same movements raise and lower the brightness.
    pub fn feed(
        &mut self,
        contacts: &[TouchpadContact],
        x_range: (i32, i32),
        _y_range: (i32, i32),
        edge_threshold: i32,
        slide_threshold: i32,
    ) -> (r: Option<EdgeSlideAction>)
        requires
            old(self).wf(),
            feed_ok(old(self).state(), contacts@, x_range.0, x_range.1, edge_threshold),
        ensures
            final(self).wf(),
            (final(self).state(), r) == feed_spec(
                old(self).state(),
                contacts@,
                x_range.0,
                x_range.1,
                edge_threshold,
                slide_threshold,
            ),
    {
        if contacts.len() != 1 {
            self.reset();
            return None;
        }
        if self.is_invalid {
            return None;
        }
        let contact = contacts[0];
        match self.active_edge {
            Some(active_edge) => {
                // Tracking a slide: drifting too far into the center cancels it.
                if Self::has_drifted(active_edge, contact.x, x_range, edge_threshold) {
                    self.reset();
                    self.is_invalid = true;
                    return None;
                }
                match self.last_y {
                    Some(last) => {
                        self.total_dy = self.total_dy + (contact.y - last);
                        self.last_y = Some(contact.y);
                    },
                    None => {},
                }
                let magnitude: i32 = if self.total_dy < 0 {
                    -self.total_dy
                } else {
                    self.total_dy
                };
                if magnitude >= slide_threshold {
                    let up = self.total_dy < 0;
                    let action = match active_edge {
                        EdgeZone::Left => if up {
                            EdgeSlideAction::VolumeUp
                        } else {
                            EdgeSlideAction::VolumeDown
                        },
                        EdgeZone::Right => if up {
                            EdgeSlideAction::BrightnessUp
                        } else {
                            EdgeSlideAction::BrightnessDown
                        },
                        EdgeZone::Center => {
                            return None;
                        },
                    };
                    self.total_dy = 0;
                    self.start_y = Some(contact.y);
                    return Some(action);
                }
                None
            },
            None => {
                // First touch of this slide: it must land on or near an edge.
                match Self::landing(contact.x, x_range, edge_threshold) {
                    Some(edge) => {
                        self.active_edge = Some(edge);
                        self.start_y = Some(contact.y);
                        self.last_y = Some(contact.y);
                        self.total_dy = 0;
                    },
                    None => {
                        self.is_invalid = true;
                    },
                }
                None
            },
        }
    }

    pub fn reset(&mut self)
        ensures
            final(self).state() == idle_state(),
            final(self).wf(),
    {
        self.active_edge = None;
        self.start_y = None;
        self.last_y = None;
        self.total_dy = 0;
        self.is_invalid = false;
    }
}

/// An invalidated slide stays silent and unchanged for every later frame
/// that has exactly one contact, wherever that finger goes.
pub proof fn lemma_invalid_slide_stays_silent(
    s: EdgeSlideState,
    frames: Seq<Seq<TouchpadContact>>,
    x_min: i32,
    x_max: i32,
    edge_threshold: i32,
    slide_threshold: i32,
)
    requires
        s.is_invalid,
        forall|i: int| 0 <= i < frames.len() ==> (#[trigger] frames[i]).len() == 1,
    ensures
        slide_run(s, frames, x_min, x_max, edge_threshold, slide_threshold).0 == s,
        forall|i: int|
            0 <= i < frames.len() ==> (#[trigger] slide_run(
                s,
                frames,
                x_min,
                x_max,
                edge_threshold,
                slide_threshold,
            ).1[i]) is None,
        slide_run(s, frames, x_min, x_max, edge_threshold, slide_threshold).1.len() == frames.len(),
    decreases frames.len(),
{
    if frames.len() > 0 {
        let rest = frames.drop_first();
        assert forall|i: int| 0 <= i < rest.len() implies (#[trigger] rest[i]).len() == 1 by {
            assert(rest[i] == frames[i + 1]);
        }
        lemma_invalid_slide_stays_silent(s, rest, x_min, x_max, edge_threshold, slide_threshold);
        let (s1, r) = feed_spec(s, frames[0], x_min, x_max, edge_threshold, slide_threshold);
        let rs = slide_run(s, rest, x_min, x_max, edge_threshold, slide_threshold).1;
        assert forall|i: int| 0 <= i < frames.len() implies (#[trigger] (seq![r] + rs)[i]) is None by {
            if i > 0 {
                assert((seq![r] + rs)[i] == rs[i - 1]);
            }
        }
    }
}

/// A slide whose first touch lands away from both edges never triggers:
/// the detector turns invalid on that frame and stays silent, whatever
/// the later single-finger frames are (a slide from the center to an edge
/// does nothing).
pub proof fn lemma_center_touch_never_triggers(
    c: TouchpadContact,
    rest: Seq<Seq<TouchpadContact>>,
    x_min: i32,
    x_max: i32,
    edge_threshold: i32,
    slide_threshold: i32,
)
    requires
        x_min + edge_threshold + EDGE_LANDING_TOLERANCE < c.x < x_max - edge_threshold,
        forall|i: int| 0 <= i < rest.len() ==> (#[trigger] rest[i]).len() == 1,
    ensures
        ({
            let run = slide_run(idle_state(), seq![seq![c]] + rest, x_min, x_max, edge_threshold, slide_threshold);
            &&& run.1.len() == rest.len() + 1
            &&& forall|i: int| 0 <= i < run.1.len() ==> (#[trigger] run.1[i]) is None
            &&& run.0.is_invalid
        }),
{
    let frames = seq![seq![c]] + rest;
    assert(frames[0] == seq![c]);
    assert(frames.drop_first() =~= rest);
    let (s1, r) = feed_spec(idle_state(), seq![c], x_min, x_max, edge_threshold, slide_threshold);
    assert(s1.is_invalid && r is None);
    lemma_invalid_slide_stays_silent(s1, rest, x_min, x_max, edge_threshold, slide_threshold);
    let rs = slide_run(s1, rest, x_min, x_max, edge_threshold, slide_threshold).1;
    assert forall|i: int| 0 <= i < rest.len() + 1 implies (#[trigger] (seq![r] + rs)[i]) is None by {
        if i > 0 {
            assert((seq![r] + rs)[i] == rs[i - 1]);
        }
    }
}

/// After an action the vertical travel starts again from zero, so each
/// further action needs another full slide threshold of travel; an action
/// only comes from a slide that started on an edge.
pub proof fn lemma_action_restarts_travel(
    s: EdgeSlideState,
    contacts: Seq<TouchpadContact>,
    x_min: i32,
    x_max: i32,
    edge_threshold: i32,
    slide_threshold: i32,
)
    requires
        feed_spec(s, contacts, x_min, x_max, edge_threshold, slide_threshold).1 is Some,
    ensures
        feed_spec(s, contacts, x_min, x_max, edge_threshold, slide_threshold).0.total_dy == 0,
        s.active_edge == Some(EdgeZone::Left) || s.active_edge == Some(EdgeZone::Right),
{
}

} // verus!
