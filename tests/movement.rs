use cycle_track::movement::{
    camera_roll, intent_from_keys, Intent, KeyEdges, KeyState, StepSfxTimer,
    STEP_SFX_INTERVAL_NANOS,
};
use cycle_track::sfx::Sfx;

const MS: u64 = 1_000_000;

fn forward() -> Intent {
    intent_from_keys(KeyState { forward: true, ..KeyState::default() })
}

#[test]
fn keys_add_their_pushes() {
    assert_eq!(forward(), Intent { forward_back: -15, turn: 0 });
    let back = intent_from_keys(KeyState { backward: true, ..KeyState::default() });
    assert_eq!(back, Intent { forward_back: 4, turn: 0 });
    let both = intent_from_keys(KeyState { forward: true, backward: true, left: true, right: false });
    assert_eq!(both, Intent { forward_back: -11, turn: 4 });
    let opposite = intent_from_keys(KeyState { forward: false, backward: false, left: true, right: true });
    assert_eq!(opposite, Intent { forward_back: 0, turn: 0 });
    assert!(opposite.is_zero());
    let right = intent_from_keys(KeyState { right: true, ..KeyState::default() });
    assert_eq!(right.turn, -4);
    assert!(!right.is_zero());
}

#[test]
fn camera_roll_of_key_edges() {
    assert_eq!(camera_roll(KeyEdges::default()), 0);
    assert_eq!(camera_roll(KeyEdges { left_pressed: true, ..KeyEdges::default() }), -5);
    assert_eq!(camera_roll(KeyEdges { left_released: true, ..KeyEdges::default() }), 5);
    assert_eq!(camera_roll(KeyEdges { right_pressed: true, ..KeyEdges::default() }), 5);
    assert_eq!(camera_roll(KeyEdges { right_released: true, ..KeyEdges::default() }), -5);
    let swap = KeyEdges { left_released: true, right_pressed: true, ..KeyEdges::default() };
    assert_eq!(camera_roll(swap), 10);
}

#[test]
fn step_sound_once_per_interval() {
    let mut timer = StepSfxTimer::new();
    let intent = forward();
    let mut fired = Vec::new();
    let mut now: u64 = 0;
    while now <= 1000 * MS {
        if timer.step_sfx(intent, now).is_some() {
            fired.push(now);
        }
        now += 16 * MS;
    }
    assert_eq!(fired, vec![256 * MS, 512 * MS, 768 * MS]);
    for w in fired.windows(2) {
        assert!(w[1] - w[0] >= STEP_SFX_INTERVAL_NANOS);
    }
}

#[test]
fn step_sound_at_exact_interval() {
    let mut timer = StepSfxTimer { last_step: 100 * MS };
    assert_eq!(timer.step_sfx(forward(), 349 * MS), None);
    assert_eq!(timer.last_step, 100 * MS);
    assert_eq!(timer.step_sfx(forward(), 350 * MS), Some(Sfx::Step));
    assert_eq!(timer.last_step, 350 * MS);
}

#[test]
fn no_step_sound_while_idle() {
    let mut timer = StepSfxTimer::new();
    let idle = intent_from_keys(KeyState::default());
    let mut now: u64 = 0;
    while now <= 2000 * MS {
        assert_eq!(timer.step_sfx(idle, now), None);
        now += 10 * MS;
    }
    assert_eq!(timer.last_step, 0);
}

#[test]
fn step_sound_not_before_last_one() {
    let mut timer = StepSfxTimer { last_step: 900 * MS };
    assert_eq!(timer.step_sfx(forward(), 100 * MS), None);
    assert_eq!(timer.last_step, 900 * MS);
}
