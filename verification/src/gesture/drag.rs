use vstd::prelude::*;

use crate::gesture::distance::RELEASE_FINGERS_THRESHOLD_MS;

verus! {

/// Actions the caller should take regarding the drag-end timer.
#[derive(Debug, Clone, Copy, PartialEq, Eq, Structural)]
pub enum TimerAction {
    /// No timer action needed.
    Idle,
    /// Start/restart the drag-end timer with the given delay in ms.
    StartTimer(u32),
    /// Stop the drag-end timer.
    StopTimer,
}

/// Delay before a paused three-finger drag is released: the configured
/// delay (never shorter than the finger release threshold) when lifting and
/// re-placing fingers may continue a drag, else the release threshold.
pub fn release_delay(allow_release_and_restart: bool, release_delay_ms: u32) -> (d: u32)
    ensures
        allow_release_and_restart ==> d == (if release_delay_ms >= RELEASE_FINGERS_THRESHOLD_MS {
            release_delay_ms as int
        } else {
            RELEASE_FINGERS_THRESHOLD_MS as int
        }),
        !allow_release_and_restart ==> d == RELEASE_FINGERS_THRESHOLD_MS,
{
    let threshold: u32 = 15;
    if allow_release_and_restart {
        if release_delay_ms >= threshold {
            release_delay_ms
        } else {
            threshold
        }
    } else {
        threshold
    }
}

/// What a frame does to a three-finger drag.
#[derive(Debug, Clone, Copy, PartialEq, Eq, Structural)]
pub enum DragStep {
    /// Press the drag button.
    Start,
    /// Release the drag button.
    Stop,
    /// Move the cursor and restart the drag-end timer.
    Move,
    /// Nothing to do.
    Hold,
}

pub open spec fn drag_step_spec(
    fingers: int,
    ids_common: bool,
    short_moving: int,
    long_moving: int,
    start_fingers: int,
    dragging: bool,
) -> DragStep {
    if fingers >= 3 && ids_common && long_moving == 3 && start_fingers == 3 && !dragging {
        DragStep::Start
    } else if dragging && (short_moving < 2 || (start_fingers != 3 && start_fingers >= 2)) {
        DragStep::Stop
    } else if fingers >= 2 && start_fingers == 3 && ids_common && dragging {
        DragStep::Move
    } else {
        DragStep::Hold
    }
}

/// Decide the drag step from the finger counts: a drag starts when three
/// fingers that started together keep moving, stops when fewer than two
/// fingers move or the touch did not start with three fingers, and moves the
/// cursor while it runs.
pub fn drag_step(
    fingers: i32,
    ids_common: bool,
    short_moving: i32,
    long_moving: i32,
    start_fingers: i32,
    dragging: bool,
) -> (r: DragStep)
    ensures
        r == drag_step_spec(
            fingers as int,
            ids_common,
            short_moving as int,
            long_moving as int,
            start_fingers as int,
            dragging,
        ),
        // The button is pressed only when all three fingers that started the
        // touch have been moving together and no drag runs yet.
        r == DragStep::Start <==> (fingers >= 3 && ids_common && long_moving == 3 && start_fingers == 3
            && !dragging),
        // A running drag ends when fewer than two fingers move, or when the
        // touch did not start with three fingers.
        r == DragStep::Stop <==> (dragging && (short_moving < 2 || (start_fingers != 3 && start_fingers >= 2))),
        // A running drag moves the cursor while at least two of the original
        // three fingers stay down and keep moving.
        r == DragStep::Move ==> dragging && fingers >= 2 && start_fingers == 3 && ids_common && short_moving >= 2,
{
    if fingers >= 3 && ids_common && long_moving == 3 && start_fingers == 3 && !dragging {
        DragStep::Start
    } else if dragging && (short_moving < 2 || (start_fingers != 3 && start_fingers >= 2)) {
        DragStep::Stop
    } else if fingers >= 2 && start_fingers == 3 && ids_common && dragging {
        DragStep::Move
    } else {
        DragStep::Hold
    }
}

/// The drag button is pressed only when no drag runs and released only when
/// one does, so presses and releases alternate.
pub proof fn lemma_drag_button_alternates(
    fingers: int,
    ids_common: bool,
    short_moving: int,
    long_moving: int,
    start_fingers: int,
    dragging: bool,
)
    ensures
        drag_step_spec(fingers, ids_common, short_moving, long_moving, start_fingers, dragging)
            == DragStep::Start ==> !dragging,
        drag_step_spec(fingers, ids_common, short_moving, long_moving, start_fingers, dragging)
            == DragStep::Stop ==> dragging,
        drag_step_spec(fingers, ids_common, short_moving, long_moving, start_fingers, dragging)
            == DragStep::Move ==> dragging,
{
}

/// When a drag starts: only with all three fingers of a three-finger touch
/// moving together (over the long delay), the same fingers as before and no
/// drag running; a running drag moves the cursor only while at least two
/// fingers keep moving.
pub proof fn lemma_drag_starts_only_with_three_moving(
    fingers: int,
    ids_common: bool,
    short_moving: int,
    long_moving: int,
    start_fingers: int,
    dragging: bool,
)
    ensures
        drag_step_spec(fingers, ids_common, short_moving, long_moving, start_fingers, dragging)
            == DragStep::Start <==> (fingers >= 3 && ids_common && long_moving == 3 && start_fingers == 3
            && !dragging),
        drag_step_spec(fingers, ids_common, short_moving, long_moving, start_fingers, dragging)
            == DragStep::Move ==> short_moving >= 2 && fingers >= 2 && start_fingers == 3 && ids_common,
        long_moving < 3 && !dragging ==> drag_step_spec(
            fingers,
            ids_common,
            short_moving,
            long_moving,
            start_fingers,
            dragging,
        ) == DragStep::Hold,
{
}

} // verus!
