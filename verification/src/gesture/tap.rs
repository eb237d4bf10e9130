//! Multi-finger tap recognition: fingers appear, stay put, and lift
//! quickly. How far the fingers moved is measured by the caller.

use vstd::prelude::*;

verus! {

/// Phase of a tap recognizer.
#[derive(Debug, Clone, Copy, PartialEq, Eq, Structural)]
pub enum TapPhase {
    /// No touch being tracked.
    Idle,
    /// Fingers are down: a tap or the start of a gesture.
    Touching,
    /// A tap fired; waiting for the fingers to lift.
    Fired,
}

/// What a frame did to a tap recognizer.
#[derive(Debug, Clone, Copy, PartialEq, Eq, Structural)]
pub enum TapStep {
    /// Nothing new.
    Nothing,
    /// A touch started being tracked: the caller records where each finger is.
    Started,
    /// The fingers lifted and the touch was a tap.
    Tapped,
}

/// Tap recognizer state for taps with at least `target_fingers` fingers.
pub struct TapTracker {
    phase: TapPhase,
    finger_count: usize,
    target_fingers: usize,
    touch_start_time: i64,
    cancelled: bool,
}

/// Its plain state, for contracts.
pub struct TapState {
    pub phase: TapPhase,
    pub finger_count: usize,
    pub target_fingers: usize,
    pub touch_start_time: i64,
    pub cancelled: bool,
}

/// While a touch is tracked, `now` minus its start time fits in `i64`.
pub open spec fn tap_time_fits(s: TapState, now: i64) -> bool {
    s.phase == TapPhase::Touching ==> i64::MIN <= now - s.touch_start_time <= i64::MAX
}

/// `(now - start) as u64`: the elapsed time, wrapping modulo 2^64 as the
/// cast does when the clock went backwards.
pub open spec fn wrapped_duration(now: i64, start: i64) -> int {
    let d = now - start;
    if d >= 0 {
        d
    } else {
        d + 0x1_0000_0000_0000_0000
    }
}

/// State and outcome after a frame with `count` fingers at `now`;
/// `moved_far` tells whether some finger moved farther than allowed from
/// where it started.
pub open spec fn tap_feed_spec(s: TapState, count: nat, now: i64, max_duration_ms: u64, moved_far: bool) -> (
    TapState,
    TapStep,
) {
    match s.phase {
        TapPhase::Idle => if count >= s.target_fingers {
            (
                TapState {
                    phase: TapPhase::Touching,
                    finger_count: count as usize,
                    touch_start_time: now,
                    cancelled: false,
                    ..s
                },
                TapStep::Started,
            )
        } else {
            (s, TapStep::Nothing)
        },
        TapPhase::Touching => if count == 0 {
            let tapped = !s.cancelled && wrapped_duration(now, s.touch_start_time) <= max_duration_ms;
            (TapState { phase: TapPhase::Idle, ..s }, if tapped {
                TapStep::Tapped
            } else {
                TapStep::Nothing
            })
        } else {
            let c1 = s.cancelled || count != s.finger_count;
            let c2 = c1 || moved_far;
            let c3 = c2 || wrapped_duration(now, s.touch_start_time) > max_duration_ms;
            (TapState { cancelled: c3, ..s }, TapStep::Nothing)
        },
        TapPhase::Fired => if count == 0 {
            (TapState { phase: TapPhase::Idle, ..s }, TapStep::Nothing)
        } else {
            (s, TapStep::Nothing)
        },
    }
}

/// `(now - start) as u64`.
fn duration_ms(now: i64, start: i64) -> (d: u64)
    requires
        i64::MIN <= now - start <= i64::MAX,
    ensures
        d == wrapped_duration(now, start),
{
    let diff = now - start;
    if diff >= 0 {
        diff as u64
    } else {
        // A negative difference wraps around, as the cast does.
        (u64::MAX - ((-(diff + 1)) as u64)) as u64
    }
}

impl TapTracker {
    pub closed spec fn state(self) -> TapState {
        TapState {
            phase: self.phase,
            finger_count: self.finger_count,
            target_fingers: self.target_fingers,
            touch_start_time: self.touch_start_time,
            cancelled: self.cancelled,
        }
    }

    pub fn new(target_fingers: usize) -> (t: Self)
        ensures
            t.state() == (TapState {
                phase: TapPhase::Idle,
                finger_count: 0,
                target_fingers,
                touch_start_time: 0,
                cancelled: false,
            }),
    {
        TapTracker { phase: TapPhase::Idle, finger_count: 0, target_fingers, touch_start_time: 0, cancelled: false }
    }

    /// Whether fingers are down and being tracked as a possible tap.
    pub fn is_touching(&self) -> (r: bool)
        ensures
            r == (self.state().phase == TapPhase::Touching),
    {
        matches!(self.phase, TapPhase::Touching)
    }

    /// Whether `feed` can take a frame at `now`.
    pub fn can_feed(&self, now: i64) -> (r: bool)
        ensures
            r == tap_time_fits(self.state(), now),
    {
        match self.phase {
            TapPhase::Touching => {
                let start = self.touch_start_time;
                !((now < 0 && start > 0 && now < i64::MIN + start) || (now >= 0 && start < 0 && now
                    > i64::MAX + start))
            },
            _ => true,
        }
    }

    /// Feed a frame with `count` fingers at `now`. A tap is reported when
    /// all fingers lift within `max_duration_ms` of touching down, the
    /// number of fingers never changed and none moved too far.
    pub fn feed(&mut self, count: usize, now: i64, max_duration_ms: u64, moved_far: bool) -> (r: TapStep)
        requires
            tap_time_fits(old(self).state(), now),
        ensures
            (final(self).state(), r) == tap_feed_spec(old(self).state(), count as nat, now, max_duration_ms, moved_far),
    {
        match self.phase {
            TapPhase::Idle => {
                if count >= self.target_fingers {
                    self.phase = TapPhase::Touching;
                    self.finger_count = count;
                    self.touch_start_time = now;
                    self.cancelled = false;
                    TapStep::Started
                } else {
                    TapStep::Nothing
                }
            },
            TapPhase::Touching => {
                let duration = duration_ms(now, self.touch_start_time);
                if count == 0 {
                    self.phase = TapPhase::Idle;
                    if !self.cancelled && duration <= max_duration_ms {
                        TapStep::Tapped
                    } else {
                        TapStep::Nothing
                    }
                } else {
                    if count != self.finger_count {
                        self.cancelled = true;
                    }
                    if !self.cancelled && moved_far {
                        self.cancelled = true;
                    }
                    if duration > max_duration_ms {
                        self.cancelled = true;
                    }
                    TapStep::Nothing
                }
            },
            TapPhase::Fired => {
                if count == 0 {
                    self.phase = TapPhase::Idle;
                }
                TapStep::Nothing
            },
        }
    }

    pub fn reset(&mut self)
        ensures
            final(self).state() == (TapState {
                phase: TapPhase::Idle,
                finger_count: 0,
                cancelled: false,
                ..old(self).state()
            }),
    {
        self.phase = TapPhase::Idle;
        self.finger_count = 0;
        self.cancelled = false;
    }
}

/// A tap is reported only when the fingers of a tracked touch all lift,
/// within the allowed time, after a touch that was never cancelled; and the
/// recognizer is idle again afterwards, so each touch taps at most once.
pub proof fn lemma_tap_only_on_quick_clean_lift(
    s: TapState,
    count: nat,
    now: i64,
    max_duration_ms: u64,
    moved_far: bool,
)
    ensures
        tap_feed_spec(s, count, now, max_duration_ms, moved_far).1 == TapStep::Tapped ==> {
            &&& s.phase == TapPhase::Touching
            &&& count == 0
            &&& !s.cancelled
            &&& wrapped_duration(now, s.touch_start_time) <= max_duration_ms
            &&& tap_feed_spec(s, count, now, max_duration_ms, moved_far).0.phase == TapPhase::Idle
        },
{
}

/// Once a touch is cancelled (fingers added or removed, moved too far, or
/// held too long), it can no longer end in a tap.
pub proof fn lemma_cancel_sticks(s: TapState, count: nat, now: i64, max_duration_ms: u64, moved_far: bool)
    requires
        s.phase == TapPhase::Touching,
        s.cancelled,
    ensures
        tap_feed_spec(s, count, now, max_duration_ms, moved_far).1 != TapStep::Tapped,
        count > 0 ==> tap_feed_spec(s, count, now, max_duration_ms, moved_far).0.cancelled,
{
}

/// One frame as the tap recognizer sees it: the number of fingers, the
/// time, and whether some finger moved farther than allowed.
pub struct TapFrame {
    pub count: usize,
    pub now: i64,
    pub moved_far: bool,
}

/// States and outcomes of feeding `frames` one after another from `s`.
pub open spec fn tap_run(s: TapState, frames: Seq<TapFrame>, max_duration_ms: u64) -> (TapState, Seq<TapStep>)
    decreases frames.len(),
{
    if frames.len() == 0 {
        (s, Seq::empty())
    } else {
        let f = frames[0];
        let (s1, r) = tap_feed_spec(s, f.count as nat, f.now, max_duration_ms, f.moved_far);
        let (s2, rs) = tap_run(s1, frames.drop_first(), max_duration_ms);
        (s2, seq![r] + rs)
    }
}

/// A frame with fingers down spoils the tap of a touch tracked in `s`: the
/// number of fingers changed, a finger moved too far, or the touch has
/// lasted too long.
pub open spec fn spoils(s: TapState, f: TapFrame, max_duration_ms: u64) -> bool {
    f.count != s.finger_count || f.moved_far || wrapped_duration(f.now, s.touch_start_time) > max_duration_ms
}

/// The frames of a touch while fingers stay down, then the lift as the
/// last frame.
pub open spec fn held_then_lifted(frames: Seq<TapFrame>) -> bool {
    &&& frames.len() >= 1
    &&& frames[frames.len() - 1].count == 0
    &&& forall|i: int| 0 <= i < frames.len() - 1 ==> (#[trigger] frames[i]).count > 0
}

/// While a touch is tracked, frames with fingers down report nothing; the
/// lift reports a tap exactly when the touch was not cancelled before, no
/// frame spoiled it and the lift came in time; the recognizer is then idle.
proof fn lemma_touch_until_lift(s: TapState, frames: Seq<TapFrame>, max_duration_ms: u64)
    requires
        s.phase == TapPhase::Touching,
        held_then_lifted(frames),
    ensures
        ({
            let (s2, rs) = tap_run(s, frames, max_duration_ms);
            let n = frames.len() - 1;
            &&& rs.len() == frames.len()
            &&& s2.phase == TapPhase::Idle
            &&& forall|i: int| 0 <= i < n ==> #[trigger] rs[i] == TapStep::Nothing
            &&& (rs[n] == TapStep::Tapped <==> (!s.cancelled && (forall|i: int|
                0 <= i < n ==> !spoils(s, #[trigger] frames[i], max_duration_ms)) && wrapped_duration(
                frames[n].now,
                s.touch_start_time,
            ) <= max_duration_ms))
            &&& rs[n] != TapStep::Started
        }),
    decreases frames.len(),
{
    let f = frames[0];
    let (s1, r) = tap_feed_spec(s, f.count as nat, f.now, max_duration_ms, f.moved_far);
    if frames.len() > 1 {
        let rest = frames.drop_first();
        assert forall|i: int| 0 <= i < rest.len() - 1 implies (#[trigger] rest[i]).count > 0 by {
            assert(rest[i] == frames[i + 1]);
        }
        assert(rest[rest.len() - 1] == frames[frames.len() - 1]);
        lemma_touch_until_lift(s1, rest, max_duration_ms);
        let rs = tap_run(s1, rest, max_duration_ms).1;
        let n = frames.len() - 1;
        assert forall|i: int| 0 <= i < n implies #[trigger] (seq![r] + rs)[i] == TapStep::Nothing by {
            if i > 0 {
                assert((seq![r] + rs)[i] == rs[i - 1]);
            }
        }
        assert((seq![r] + rs)[n] == rs[n - 1]);
        assert(rest[n - 1] == frames[n]);
        if (!s.cancelled && (forall|i: int| 0 <= i < n ==> !spoils(s, #[trigger] frames[i], max_duration_ms))) {
            assert(!spoils(s, frames[0], max_duration_ms));
            assert forall|i: int| 0 <= i < n - 1 implies !spoils(s1, #[trigger] rest[i], max_duration_ms) by {
                assert(rest[i] == frames[i + 1]);
            }
        }
        if (!s1.cancelled && (forall|i: int| 0 <= i < n - 1 ==> !spoils(s1, #[trigger] rest[i], max_duration_ms))) {
            assert forall|i: int| 0 <= i < n implies !spoils(s, #[trigger] frames[i], max_duration_ms) by {
                if i > 0 {
                    assert(frames[i] == rest[i - 1]);
                }
            }
        }
    } else {
        let rs = tap_run(s1, frames.drop_first(), max_duration_ms).1;
        assert(rs.len() == 0);
        assert((seq![r] + rs)[0] == r);
    }
}

/// The tap decision over a whole touch: from an idle recognizer, a first
/// frame with at least the target number of fingers starts tracking; the
/// frames while fingers stay down report nothing; the lift reports a tap
/// exactly when every frame in between kept the first frame's number of
/// fingers, no finger moved too far, each came within `max_duration_ms` of
/// the first frame, and so did the lift. The recognizer is idle again
/// afterwards, so a touch taps at most once.
pub proof fn lemma_tap_over_a_touch(s: TapState, frames: Seq<TapFrame>, max_duration_ms: u64)
    requires
        s.phase == TapPhase::Idle,
        frames.len() >= 2,
        frames[0].count >= s.target_fingers,
        held_then_lifted(frames.drop_first()),
    ensures
        ({
            let (s2, rs) = tap_run(s, frames, max_duration_ms);
            let n = frames.len() - 1;
            let t0 = frames[0].now;
            &&& rs.len() == frames.len()
            &&& rs[0] == TapStep::Started
            &&& forall|i: int| 1 <= i < n ==> #[trigger] rs[i] == TapStep::Nothing
            &&& (rs[n] == TapStep::Tapped <==> ((forall|i: int|
                1 <= i < n ==> {
                    &&& (#[trigger] frames[i]).count == frames[0].count
                    &&& !frames[i].moved_far
                    &&& wrapped_duration(frames[i].now, t0) <= max_duration_ms
                }) && wrapped_duration(frames[n].now, t0) <= max_duration_ms))
            &&& s2.phase == TapPhase::Idle
        }),
{
    let f = frames[0];
    let (s1, r) = tap_feed_spec(s, f.count as nat, f.now, max_duration_ms, f.moved_far);
    let rest = frames.drop_first();
    lemma_touch_until_lift(s1, rest, max_duration_ms);
    let rs = tap_run(s1, rest, max_duration_ms).1;
    let n = frames.len() - 1;
    assert forall|i: int| 1 <= i < n implies #[trigger] (seq![r] + rs)[i] == TapStep::Nothing by {
        assert((seq![r] + rs)[i] == rs[i - 1]);
    }
    assert((seq![r] + rs)[n] == rs[n - 1]);
    assert(rest[n - 1] == frames[n]);
    let good = forall|i: int|
        1 <= i < n ==> {
            &&& (#[trigger] frames[i]).count == frames[0].count
            &&& !frames[i].moved_far
            &&& wrapped_duration(frames[i].now, f.now) <= max_duration_ms
        };
    if good {
        assert forall|i: int| 0 <= i < n - 1 implies !spoils(s1, #[trigger] rest[i], max_duration_ms) by {
            assert(rest[i] == frames[i + 1]);
        }
    }
    if (forall|i: int| 0 <= i < n - 1 ==> !spoils(s1, #[trigger] rest[i], max_duration_ms)) {
        assert forall|i: int| 1 <= i < n implies {
            &&& (#[trigger] frames[i]).count == frames[0].count
            &&& !frames[i].moved_far
            &&& wrapped_duration(frames[i].now, f.now) <= max_duration_ms
        } by {
            assert(frames[i] == rest[i - 1]);
        }
    }
}

} // verus!
