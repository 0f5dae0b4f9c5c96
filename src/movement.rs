//! The discrete decisions of the per-tick bike controller: the intent that
//! the held keys express, the camera roll of key presses and releases, and
//! the debounce of the step sound.
use vstd::prelude::*;

use crate::sfx::Sfx;

verus! {

/// Forward push of the forward key, in tenths of a unit.
pub const FORWARD_PUSH: i32 = -15;

/// Forward push of the backward key, in tenths of a unit.
pub const BACKWARD_PUSH: i32 = 4;

/// Turn of the left key, in tenths of a unit; the right key turns by its
/// negation.
pub const TURN_PUSH: i32 = 4;

/// Camera roll of one key edge, in hundredths of a radian.
pub const CAMERA_ROLL_STEP: i32 = 5;

/// Least time between two step sounds, in nanoseconds (250 ms).
pub const STEP_SFX_INTERVAL_NANOS: u64 = 250_000_000;

/// Which directional keys are held in this tick.
#[derive(Clone, Copy, Debug, PartialEq, Eq, Default)]
pub struct KeyState {
    pub forward: bool,
    pub backward: bool,
    pub left: bool,
    pub right: bool,
}

/// Which turn keys went down or up in this tick.
#[derive(Clone, Copy, Debug, PartialEq, Eq, Default)]
pub struct KeyEdges {
    pub left_pressed: bool,
    pub left_released: bool,
    pub right_pressed: bool,
    pub right_released: bool,
}

/// The directional intent of one tick, in tenths of a unit: `forward_back`
/// on the forward axis (negative is forward), `turn` on the turn axis.
#[derive(Clone, Copy, Debug, PartialEq, Eq)]
pub struct Intent {
    pub forward_back: i32,
    pub turn: i32,
}

/// The intent that a set of held keys expresses: each key adds its fixed
/// push, and opposite keys held together add up.
pub open spec fn spec_intent(keys: KeyState) -> Intent {
    Intent {
        forward_back: ((if keys.forward { FORWARD_PUSH as int } else { 0int }) + (if keys.backward {
            BACKWARD_PUSH as int
        } else {
            0int
        })) as i32,
        turn: ((if keys.left { TURN_PUSH as int } else { 0int }) - (if keys.right {
            TURN_PUSH as int
        } else {
            0int
        })) as i32,
    }
}

/// The camera roll of a tick's key edges, in hundredths of a radian: pressing
/// left or releasing right rolls by `-CAMERA_ROLL_STEP`, releasing left or
/// pressing right by `CAMERA_ROLL_STEP`.
pub open spec fn spec_camera_roll(edges: KeyEdges) -> int {
    (if edges.left_pressed { -CAMERA_ROLL_STEP } else { 0int }) + (if edges.left_released {
        CAMERA_ROLL_STEP as int
    } else {
        0int
    }) + (if edges.right_pressed { CAMERA_ROLL_STEP as int } else { 0int }) + (
    if edges.right_released {
        -CAMERA_ROLL_STEP
    } else {
        0int
    })
}

impl Intent {
    pub open spec fn spec_is_zero(self) -> bool {
        self.forward_back == 0 && self.turn == 0
    }

    /// Whether the intent is zero on both axes.
    pub fn is_zero(&self) -> (r: bool)
        ensures
            r == self.spec_is_zero(),
    {
        self.forward_back == 0 && self.turn == 0
    }
}

/// Derives the intent of a tick from the held keys.
pub fn intent_from_keys(keys: KeyState) -> (r: Intent)
    ensures
        r == spec_intent(keys),
{
    let mut forward_back: i32 = 0;
    let mut turn: i32 = 0;
    if keys.forward {
        forward_back = forward_back + FORWARD_PUSH;
    }
    if keys.backward {
        forward_back = forward_back + BACKWARD_PUSH;
    }
    if keys.left {
        turn = turn + TURN_PUSH;
    }
    if keys.right {
        turn = turn - TURN_PUSH;
    }
    Intent { forward_back, turn }
}

/// The camera roll of a tick's key edges, in hundredths of a radian.
pub fn camera_roll(edges: KeyEdges) -> (r: i32)
    ensures
        r as int == spec_camera_roll(edges),
{
    let mut roll: i32 = 0;
    if edges.left_pressed {
        roll = roll - CAMERA_ROLL_STEP;
    }
    if edges.left_released {
        roll = roll + CAMERA_ROLL_STEP;
    }
    if edges.right_pressed {
        roll = roll + CAMERA_ROLL_STEP;
    }
    if edges.right_released {
        roll = roll - CAMERA_ROLL_STEP;
    }
    roll
}

/// Whether a step sound is due: the intent is nonzero and at least
/// `STEP_SFX_INTERVAL_NANOS` have passed since the last one.
pub open spec fn step_sfx_due(intent: Intent, last_step: int, now: int) -> bool {
    !intent.spec_is_zero() && now - last_step >= STEP_SFX_INTERVAL_NANOS
}

/// The debounce of the step sound: the time of the last one, in nanoseconds.
#[derive(Clone, Copy, Debug, PartialEq, Eq)]
pub struct StepSfxTimer {
    pub last_step: u64,
}

impl StepSfxTimer {
    /// A timer whose last step sound is at time zero.
    pub fn new() -> (r: Self)
        ensures
            r.last_step == 0,
    {
        StepSfxTimer { last_step: 0 }
    }

    /// Decides the step sound of the tick at `now`: when one is due, records
    /// `now` as the time of the last one and returns it; else returns `None`
    /// and leaves the timer as it was.
    pub fn step_sfx(&mut self, intent: Intent, now: u64) -> (r: Option<Sfx>)
        ensures
            step_sfx_due(intent, old(self).last_step as int, now as int) ==> r == Some(Sfx::Step)
                && final(self).last_step == now,
            !step_sfx_due(intent, old(self).last_step as int, now as int) ==> r.is_none()
                && *final(self) == *old(self),
    {
        if !intent.is_zero() && now >= self.last_step && now - self.last_step
            >= STEP_SFX_INTERVAL_NANOS {
            self.last_step = now;
            Some(Sfx::Step)
        } else {
            None
        }
    }
}

/// With zero intent no step sound is ever due, whatever the times.
pub proof fn lemma_step_sfx_silent_when_idle(intent: Intent, last_step: int, now: int)
    requires
        intent.spec_is_zero(),
    ensures
        !step_sfx_due(intent, last_step, now),
{
}

/// After a step sound at `fired_at`, none is due at any time before
/// `fired_at + STEP_SFX_INTERVAL_NANOS`, and one is due at every later time
/// with nonzero intent: exactly one sound per interval while the intent
/// stays nonzero.
pub proof fn lemma_step_sfx_one_per_interval(intent: Intent, fired_at: int, now: int)
    requires
        fired_at <= now,
    ensures
        now < fired_at + STEP_SFX_INTERVAL_NANOS ==> !step_sfx_due(intent, fired_at, now),
        now >= fired_at + STEP_SFX_INTERVAL_NANOS && !intent.spec_is_zero() ==> step_sfx_due(
            intent,
            fired_at,
            now,
        ),
{
}

} // verus!
