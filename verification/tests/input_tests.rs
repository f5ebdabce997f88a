use htpc_app_manager::input::{
    ActionSet, GamepadSnapshot, InputArbiter, InputEdgeState, KeyboardSnapshot, PadButton,
    PadState,
};
use htpc_app_manager::intent::Intent;

fn actions(activate: bool, right: bool, left: bool, down: bool, up: bool) -> ActionSet {
    ActionSet { activate, right, left, down, up }
}

fn held(pad: PadState) -> GamepadSnapshot {
    GamepadSnapshot { pressed: Vec::new(), held: vec![pad] }
}

fn quiet() -> KeyboardSnapshot {
    KeyboardSnapshot::default()
}

#[test]
fn empty_action_set_asserts_nothing() {
    let none = ActionSet::empty();
    assert_eq!(none, actions(false, false, false, false, false));
    assert!(!none.any());
    assert_eq!(none.intent(), Intent::Nothing);
}

#[test]
fn any_sees_each_single_action() {
    assert!(actions(true, false, false, false, false).any());
    assert!(actions(false, true, false, false, false).any());
    assert!(actions(false, false, true, false, false).any());
    assert!(actions(false, false, false, true, false).any());
    assert!(actions(false, false, false, false, true).any());
}

#[test]
fn merged_is_the_union() {
    let a = actions(true, false, true, false, false);
    let b = actions(false, false, true, true, false);
    assert_eq!(a.merged(b), actions(true, false, true, true, false));
    assert_eq!(a.merged(ActionSet::empty()), a);
    assert_eq!(ActionSet::empty().merged(b), b);
}

#[test]
fn single_actions_map_to_their_intents() {
    assert_eq!(actions(true, false, false, false, false).intent(), Intent::Activate);
    assert_eq!(actions(false, true, false, false, false).intent(), Intent::MoveRight);
    assert_eq!(actions(false, false, true, false, false).intent(), Intent::MoveLeft);
    assert_eq!(actions(false, false, false, true, false).intent(), Intent::MoveDown);
    assert_eq!(actions(false, false, false, false, true).intent(), Intent::MoveUp);
}

#[test]
fn precedence_is_activate_right_left_down_up() {
    assert_eq!(actions(true, true, true, true, true).intent(), Intent::Activate);
    assert_eq!(actions(false, true, true, true, true).intent(), Intent::MoveRight);
    assert_eq!(actions(false, false, true, true, true).intent(), Intent::MoveLeft);
    assert_eq!(actions(false, false, false, true, true).intent(), Intent::MoveDown);
    assert_eq!(actions(true, false, false, false, true).intent(), Intent::Activate);
    assert_eq!(actions(false, true, false, false, true).intent(), Intent::MoveRight);
    assert_eq!(actions(false, false, true, false, true).intent(), Intent::MoveLeft);
}

#[test]
fn activate_wins_over_every_combination_of_directions() {
    for bits in 0..16u32 {
        let set = actions(true, bits & 1 != 0, bits & 2 != 0, bits & 4 != 0, bits & 8 != 0);
        assert_eq!(set.intent(), Intent::Activate);
    }
}

#[test]
fn keyboard_keys_map_to_actions() {
    let keys = KeyboardSnapshot { right: true, enter: true, ..KeyboardSnapshot::default() };
    assert_eq!(keys.actions(), actions(true, true, false, false, false));
    let keys = KeyboardSnapshot { left: true, down: true, up: true, ..KeyboardSnapshot::default() };
    assert_eq!(keys.actions(), actions(false, false, true, true, true));
}

#[test]
fn close_key_asserts_no_action() {
    let keys = KeyboardSnapshot { close: true, ..KeyboardSnapshot::default() };
    assert_eq!(keys.actions(), ActionSet::empty());
}

#[test]
fn pad_buttons_map_to_actions() {
    assert_eq!(PadButton::South.signal(), actions(true, false, false, false, false));
    assert_eq!(PadButton::DPadRight.signal(), actions(false, true, false, false, false));
    assert_eq!(PadButton::DPadLeft.signal(), actions(false, false, true, false, false));
    assert_eq!(PadButton::DPadDown.signal(), actions(false, false, false, true, false));
    assert_eq!(PadButton::DPadUp.signal(), actions(false, false, false, false, true));
    assert_eq!(PadButton::Other.signal(), ActionSet::empty());
}

#[test]
fn pad_state_maps_to_actions() {
    let pad = PadState { dpad_left: true, south: true, ..PadState::default() };
    assert_eq!(pad.signals(), actions(true, false, true, false, false));
    let pad = PadState { dpad_right: true, dpad_up: true, dpad_down: true, ..PadState::default() };
    assert_eq!(pad.signals(), actions(false, true, false, true, true));
}

#[test]
fn empty_gamepad_snapshot_is_silent() {
    assert_eq!(GamepadSnapshot::new().raw_signals(), ActionSet::empty());
    let idle = GamepadSnapshot {
        pressed: vec![PadButton::Other, PadButton::Other],
        held: vec![PadState::default(), PadState::default()],
    };
    assert_eq!(idle.raw_signals(), ActionSet::empty());
}

#[test]
fn raw_signals_join_events_and_polled_state() {
    let snapshot = GamepadSnapshot {
        pressed: vec![PadButton::DPadLeft, PadButton::Other],
        held: vec![PadState { dpad_down: true, ..PadState::default() }],
    };
    assert_eq!(snapshot.raw_signals(), actions(false, false, true, true, false));
}

#[test]
fn raw_signals_join_all_gamepads() {
    let snapshot = GamepadSnapshot {
        pressed: Vec::new(),
        held: vec![
            PadState::default(),
            PadState { dpad_up: true, ..PadState::default() },
            PadState { south: true, ..PadState::default() },
        ],
    };
    assert_eq!(snapshot.raw_signals(), actions(true, false, false, false, true));
}

#[test]
fn raw_signals_see_every_queued_event() {
    let snapshot = GamepadSnapshot {
        pressed: vec![
            PadButton::DPadRight,
            PadButton::DPadRight,
            PadButton::South,
            PadButton::DPadUp,
        ],
        held: Vec::new(),
    };
    assert_eq!(snapshot.raw_signals(), actions(true, true, false, false, true));
}

#[test]
fn debounce_passes_a_new_press() {
    let mut edge = InputEdgeState::new();
    assert!(!edge.last_any_pressed);
    let raw = actions(false, true, false, false, false);
    assert_eq!(edge.debounce(raw), raw);
    assert!(edge.last_any_pressed);
}

#[test]
fn debounce_passes_all_signals_of_a_trigger() {
    let mut edge = InputEdgeState::new();
    let raw = actions(true, true, false, false, true);
    assert_eq!(edge.debounce(raw), raw);
}

#[test]
fn held_button_triggers_once() {
    let mut edge = InputEdgeState::new();
    let raw = actions(false, false, false, true, false);
    let mut triggers = 0;
    for tick in 0..25 {
        let passed = edge.debounce(raw);
        if passed.any() {
            triggers += 1;
            assert_eq!(tick, 0);
            assert_eq!(passed, raw);
        } else {
            assert_eq!(passed, ActionSet::empty());
        }
        assert!(edge.last_any_pressed);
    }
    assert_eq!(triggers, 1);
}

#[test]
fn button_held_from_before_never_triggers() {
    let mut edge = InputEdgeState { last_any_pressed: true };
    let raw = actions(true, false, false, false, false);
    for _ in 0..5 {
        assert_eq!(edge.debounce(raw), ActionSet::empty());
    }
}

#[test]
fn changing_the_held_button_without_release_does_not_trigger() {
    let mut edge = InputEdgeState::new();
    assert!(edge.debounce(actions(false, true, false, false, false)).any());
    assert_eq!(edge.debounce(actions(false, false, true, false, false)), ActionSet::empty());
    assert_eq!(edge.debounce(actions(true, false, false, false, false)), ActionSet::empty());
}

#[test]
fn release_then_press_triggers_again() {
    let mut edge = InputEdgeState::new();
    let raw = actions(false, false, true, false, false);
    assert_eq!(edge.debounce(raw), raw);
    assert_eq!(edge.debounce(raw), ActionSet::empty());
    assert_eq!(edge.debounce(ActionSet::empty()), ActionSet::empty());
    assert!(!edge.last_any_pressed);
    assert_eq!(edge.debounce(raw), raw);
    assert_eq!(edge.debounce(raw), ActionSet::empty());
}

#[test]
fn arbiter_starts_released() {
    assert!(!InputArbiter::new().gamepad_edge.last_any_pressed);
}

#[test]
fn arbiter_reads_the_keyboard() {
    let mut arbiter = InputArbiter::new();
    let keys = KeyboardSnapshot { down: true, ..KeyboardSnapshot::default() };
    assert_eq!(arbiter.arbitrate(&keys, &GamepadSnapshot::new(), true), Intent::MoveDown);
    assert!(!arbiter.gamepad_edge.last_any_pressed);
}

#[test]
fn arbiter_does_not_debounce_the_keyboard() {
    let mut arbiter = InputArbiter::new();
    let keys = KeyboardSnapshot { right: true, ..KeyboardSnapshot::default() };
    for _ in 0..3 {
        assert_eq!(arbiter.arbitrate(&keys, &GamepadSnapshot::new(), true), Intent::MoveRight);
    }
}

#[test]
fn arbiter_debounces_the_gamepad() {
    let mut arbiter = InputArbiter::new();
    let pad = held(PadState { dpad_up: true, ..PadState::default() });
    assert_eq!(arbiter.arbitrate(&quiet(), &pad, true), Intent::MoveUp);
    for _ in 0..10 {
        assert_eq!(arbiter.arbitrate(&quiet(), &pad, true), Intent::Nothing);
    }
    assert_eq!(arbiter.arbitrate(&quiet(), &GamepadSnapshot::new(), true), Intent::Nothing);
    assert_eq!(arbiter.arbitrate(&quiet(), &pad, true), Intent::MoveUp);
}

#[test]
fn arbiter_merges_keyboard_and_gamepad() {
    let mut arbiter = InputArbiter::new();
    let keys = KeyboardSnapshot { left: true, ..KeyboardSnapshot::default() };
    let pad = held(PadState { dpad_right: true, ..PadState::default() });
    assert_eq!(arbiter.arbitrate(&keys, &pad, true), Intent::MoveRight);
    assert_eq!(arbiter.arbitrate(&keys, &pad, true), Intent::MoveLeft);
}

#[test]
fn arbiter_prefers_activation_from_either_source() {
    let mut arbiter = InputArbiter::new();
    let keys = KeyboardSnapshot { right: true, ..KeyboardSnapshot::default() };
    let pad = GamepadSnapshot { pressed: vec![PadButton::South], held: Vec::new() };
    assert_eq!(arbiter.arbitrate(&keys, &pad, true), Intent::Activate);
    let mut arbiter = InputArbiter::new();
    let keys = KeyboardSnapshot { enter: true, ..KeyboardSnapshot::default() };
    let pad = held(PadState { dpad_left: true, ..PadState::default() });
    assert_eq!(arbiter.arbitrate(&keys, &pad, true), Intent::Activate);
}

#[test]
fn keyboard_still_works_while_the_gamepad_is_held() {
    let mut arbiter = InputArbiter::new();
    let pad = held(PadState { south: true, ..PadState::default() });
    assert_eq!(arbiter.arbitrate(&quiet(), &pad, true), Intent::Activate);
    let keys = KeyboardSnapshot { right: true, ..KeyboardSnapshot::default() };
    assert_eq!(arbiter.arbitrate(&keys, &pad, true), Intent::MoveRight);
}

#[test]
fn unfocused_arbiter_yields_nothing() {
    let mut arbiter = InputArbiter::new();
    let keys = KeyboardSnapshot {
        right: true,
        left: true,
        down: true,
        up: true,
        enter: true,
        close: true,
    };
    let pad = GamepadSnapshot {
        pressed: vec![PadButton::South, PadButton::DPadLeft],
        held: vec![PadState { dpad_down: true, ..PadState::default() }],
    };
    assert_eq!(arbiter.arbitrate(&keys, &pad, false), Intent::Nothing);
    assert_eq!(arbiter, InputArbiter::new());
}

#[test]
fn unfocused_ticks_leave_the_edge_memory() {
    let mut arbiter = InputArbiter::new();
    let pad = held(PadState { dpad_left: true, ..PadState::default() });
    assert_eq!(arbiter.arbitrate(&quiet(), &pad, false), Intent::Nothing);
    assert!(!arbiter.gamepad_edge.last_any_pressed);
    assert_eq!(arbiter.arbitrate(&quiet(), &pad, true), Intent::MoveLeft);
    assert_eq!(arbiter.arbitrate(&quiet(), &GamepadSnapshot::new(), false), Intent::Nothing);
    assert!(arbiter.gamepad_edge.last_any_pressed);
    assert_eq!(arbiter.arbitrate(&quiet(), &pad, true), Intent::Nothing);
}
