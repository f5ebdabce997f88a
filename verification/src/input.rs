//! Arbitration of keyboard and gamepad input into one intent per tick.
//!
//! The keyboard reports key presses as edges: a flag is set only on the tick in
//! which the key went down. A gamepad is polled, so a held button reads as
//! pressed on every tick. The arbiter turns the gamepad's level into an edge
//! with one bit of memory, merges both sources action by action, and picks one
//! intent by a fixed precedence.

use vstd::prelude::*;
use crate::intent::Intent;

verus! {

/// The five logical actions, each asserted or not.
#[derive(Clone, Copy, Debug, PartialEq, Eq, Structural)]
pub struct ActionSet {
    pub activate: bool,
    pub right: bool,
    pub left: bool,
    pub down: bool,
    pub up: bool,
}

impl ActionSet {
    /// No action asserted.
    pub open spec fn spec_empty() -> ActionSet {
        ActionSet { activate: false, right: false, left: false, down: false, up: false }
    }

    /// No action asserted.
    #[verifier::when_used_as_spec(spec_empty)]
    pub fn empty() -> (set: ActionSet)
        ensures
            set == ActionSet::spec_empty(),
    {
        ActionSet { activate: false, right: false, left: false, down: false, up: false }
    }

    /// Whether at least one action is asserted.
    pub open spec fn spec_any(&self) -> bool {
        self.activate || self.right || self.left || self.down || self.up
    }

    /// Whether at least one action is asserted.
    #[verifier::when_used_as_spec(spec_any)]
    pub fn any(&self) -> (any: bool)
        ensures
            any == self.spec_any(),
    {
        self.activate || self.right || self.left || self.down || self.up
    }

    /// The actions asserted by either set.
    pub open spec fn spec_merged(&self, other: ActionSet) -> ActionSet {
        ActionSet {
            activate: self.activate || other.activate,
            right: self.right || other.right,
            left: self.left || other.left,
            down: self.down || other.down,
            up: self.up || other.up,
        }
    }

    /// The actions asserted by either set.
    #[verifier::when_used_as_spec(spec_merged)]
    pub fn merged(&self, other: ActionSet) -> (both: ActionSet)
        ensures
            both == self.spec_merged(other),
    {
        ActionSet {
            activate: self.activate || other.activate,
            right: self.right || other.right,
            left: self.left || other.left,
            down: self.down || other.down,
            up: self.up || other.up,
        }
    }

    /// The one intent that the set amounts to. Where several actions are
    /// asserted the first of activate, right, left, down, up wins.
    pub open spec fn spec_intent(&self) -> Intent {
        if self.activate {
            Intent::Activate
        } else if self.right {
            Intent::MoveRight
        } else if self.left {
            Intent::MoveLeft
        } else if self.down {
            Intent::MoveDown
        } else if self.up {
            Intent::MoveUp
        } else {
            Intent::Nothing
        }
    }

    /// The one intent that the set amounts to. Where several actions are
    /// asserted the first of activate, right, left, down, up wins.
    #[verifier::when_used_as_spec(spec_intent)]
    pub fn intent(&self) -> (intent: Intent)
        ensures
            intent == self.spec_intent(),
    {
        if self.activate {
            Intent::Activate
        } else if self.right {
            Intent::MoveRight
        } else if self.left {
            Intent::MoveLeft
        } else if self.down {
            Intent::MoveDown
        } else if self.up {
            Intent::MoveUp
        } else {
            Intent::Nothing
        }
    }
}

/// The actions asserted by at least one of the first `upto` sets.
pub open spec fn union_upto(sets: Seq<ActionSet>, upto: int) -> ActionSet {
    ActionSet {
        activate: exists|i: int| 0 <= i < upto && (#[trigger] sets[i]).activate,
        right: exists|i: int| 0 <= i < upto && (#[trigger] sets[i]).right,
        left: exists|i: int| 0 <= i < upto && (#[trigger] sets[i]).left,
        down: exists|i: int| 0 <= i < upto && (#[trigger] sets[i]).down,
        up: exists|i: int| 0 <= i < upto && (#[trigger] sets[i]).up,
    }
}

/// The actions asserted by at least one of `sets`.
pub open spec fn union_all(sets: Seq<ActionSet>) -> ActionSet {
    union_upto(sets, sets.len() as int)
}

/// The key presses of one tick. Each flag is set only on the tick in which
/// its key went down.
#[derive(Clone, Copy, Debug, Default, PartialEq, Eq, Structural)]
pub struct KeyboardSnapshot {
    pub right: bool,
    pub left: bool,
    pub down: bool,
    pub up: bool,
    pub enter: bool,
    /// The key that asks the host to close the window.
    pub close: bool,
}

impl KeyboardSnapshot {
    /// The actions that the arrow keys and the enter key assert.
    pub open spec fn spec_actions(&self) -> ActionSet {
        ActionSet {
            activate: self.enter,
            right: self.right,
            left: self.left,
            down: self.down,
            up: self.up,
        }
    }

    /// The actions that the arrow keys and the enter key assert.
    #[verifier::when_used_as_spec(spec_actions)]
    pub fn actions(&self) -> (actions: ActionSet)
        ensures
            actions == self.spec_actions(),
    {
        ActionSet {
            activate: self.enter,
            right: self.right,
            left: self.left,
            down: self.down,
            up: self.up,
        }
    }
}

/// A gamepad button, as far as the launcher tells buttons apart.
#[derive(Clone, Copy, Debug, PartialEq, Eq, Structural)]
pub enum PadButton {
    DPadLeft,
    DPadRight,
    DPadUp,
    DPadDown,
    /// The lower face button, which activates.
    South,
    /// Any button without a meaning here.
    Other,
}

impl PadButton {
    /// The action that a press of the button asserts.
    pub open spec fn spec_signal(&self) -> ActionSet {
        ActionSet {
            activate: *self == PadButton::South,
            right: *self == PadButton::DPadRight,
            left: *self == PadButton::DPadLeft,
            down: *self == PadButton::DPadDown,
            up: *self == PadButton::DPadUp,
        }
    }

    /// The action that a press of the button asserts.
    #[verifier::when_used_as_spec(spec_signal)]
    pub fn signal(&self) -> (signal: ActionSet)
        ensures
            signal == self.spec_signal(),
    {
        ActionSet {
            activate: matches!(self, PadButton::South),
            right: matches!(self, PadButton::DPadRight),
            left: matches!(self, PadButton::DPadLeft),
            down: matches!(self, PadButton::DPadDown),
            up: matches!(self, PadButton::DPadUp),
        }
    }
}

/// Which of the five buttons one gamepad reports as held down right now.
#[derive(Clone, Copy, Debug, Default, PartialEq, Eq, Structural)]
pub struct PadState {
    pub dpad_left: bool,
    pub dpad_right: bool,
    pub dpad_up: bool,
    pub dpad_down: bool,
    pub south: bool,
}

impl PadState {
    /// The actions that the held buttons assert.
    pub open spec fn spec_signals(&self) -> ActionSet {
        ActionSet {
            activate: self.south,
            right: self.dpad_right,
            left: self.dpad_left,
            down: self.dpad_down,
            up: self.dpad_up,
        }
    }

    /// The actions that the held buttons assert.
    #[verifier::when_used_as_spec(spec_signals)]
    pub fn signals(&self) -> (signals: ActionSet)
        ensures
            signals == self.spec_signals(),
    {
        ActionSet {
            activate: self.south,
            right: self.dpad_right,
            left: self.dpad_left,
            down: self.dpad_down,
            up: self.dpad_up,
        }
    }
}

/// What the gamepads report in one tick.
#[derive(Clone, Debug, Default)]
pub struct GamepadSnapshot {
    /// The button presses queued since the last tick, oldest first.
    pub pressed: Vec<PadButton>,
    /// The polled state of each connected gamepad.
    pub held: Vec<PadState>,
}

impl GamepadSnapshot {
    /// A snapshot with no event and no gamepad.
    pub fn new() -> (snapshot: GamepadSnapshot)
        ensures
            snapshot.pressed@.len() == 0,
            snapshot.held@.len() == 0,
            snapshot.raw_signals() == ActionSet::empty(),
    {
        GamepadSnapshot { pressed: Vec::new(), held: Vec::new() }
    }

    /// The raw gamepad signals of the tick: an action is asserted when a
    /// queued press or a held button of any gamepad asserts it.
    pub open spec fn spec_raw_signals(&self) -> ActionSet {
        union_all(self.pressed@.map_values(|button: PadButton| button.signal())).merged(
            union_all(self.held@.map_values(|pad: PadState| pad.signals())),
        )
    }

    /// The raw gamepad signals of the tick: an action is asserted when a
    /// queued press or a held button of any gamepad asserts it.
    #[verifier::when_used_as_spec(spec_raw_signals)]
    pub fn raw_signals(&self) -> (raw: ActionSet)
        ensures
            raw == self.spec_raw_signals(),
    {
        let ghost presses = self.pressed@.map_values(|button: PadButton| button.signal());
        let ghost holds = self.held@.map_values(|pad: PadState| pad.signals());
        let mut queued = ActionSet::empty();
        let mut i: usize = 0;
        while i < self.pressed.len()
            invariant
                i <= self.pressed.len(),
                presses == self.pressed@.map_values(|button: PadButton| button.signal()),
                queued == union_upto(presses, i as int),
            decreases self.pressed.len() - i,
        {
            proof {
                lemma_union_step(presses, i as int);
            }
            queued = queued.merged(self.pressed[i].signal());
            i += 1;
        }
        let mut polled = ActionSet::empty();
        let mut k: usize = 0;
        while k < self.held.len()
            invariant
                k <= self.held.len(),
                holds == self.held@.map_values(|pad: PadState| pad.signals()),
                polled == union_upto(holds, k as int),
            decreases self.held.len() - k,
        {
            proof {
                lemma_union_step(holds, k as int);
            }
            polled = polled.merged(self.held[k].signals());
            k += 1;
        }
        queued.merged(polled)
    }
}

/// Taking one more set into a union merges that set in.
proof fn lemma_union_step(sets: Seq<ActionSet>, upto: int)
    requires
        0 <= upto < sets.len(),
    ensures
        union_upto(sets, upto + 1) == union_upto(sets, upto).merged(sets[upto]),
{
    let wide = union_upto(sets, upto + 1);
    let narrow = union_upto(sets, upto);
    let last = sets[upto];
    assert(wide.activate == (narrow.activate || last.activate));
    assert(wide.right == (narrow.right || last.right));
    assert(wide.left == (narrow.left || last.left));
    assert(wide.down == (narrow.down || last.down));
    assert(wide.up == (narrow.up || last.up));
}

/// The memory that turns a polled level into an edge: whether any gamepad
/// action was asserted on the tick before.
#[derive(Clone, Copy, Debug, PartialEq, Eq, Structural)]
pub struct InputEdgeState {
    pub last_any_pressed: bool,
}

impl InputEdgeState {
    /// The memory before the first tick: nothing was pressed.
    pub fn new() -> (edge: InputEdgeState)
        ensures
            !edge.last_any_pressed,
    {
        InputEdgeState { last_any_pressed: false }
    }

    /// Whether `raw` starts a new press: something is asserted now and
    /// nothing was on the tick before.
    pub open spec fn triggers(self, raw: ActionSet) -> bool {
        raw.any() && !self.last_any_pressed
    }

    /// The signals that pass: all of `raw` on a trigger, none otherwise.
    pub open spec fn debounced(self, raw: ActionSet) -> ActionSet {
        if self.triggers(raw) {
            raw
        } else {
            ActionSet::empty()
        }
    }

    /// The memory after a tick that saw `raw`.
    pub open spec fn after(self, raw: ActionSet) -> InputEdgeState {
        InputEdgeState { last_any_pressed: raw.any() }
    }

    /// The memory after a run of ticks that saw `raws`, first to last.
    pub open spec fn after_all(self, raws: Seq<ActionSet>) -> InputEdgeState
        decreases raws.len(),
    {
        if raws.len() == 0 {
            self
        } else {
            self.after_all(raws.drop_last()).after(raws.last())
        }
    }

    /// Whether tick number `tick` of a run that sees `raws` is a trigger.
    pub open spec fn triggers_at(self, raws: Seq<ActionSet>, tick: int) -> bool {
        self.after_all(raws.take(tick)).triggers(raws[tick])
    }

    /// The signals that pass on tick number `tick` of a run that sees `raws`.
    pub open spec fn debounced_at(self, raws: Seq<ActionSet>, tick: int) -> ActionSet {
        self.after_all(raws.take(tick)).debounced(raws[tick])
    }

    /// Lets the raw signals of one tick pass only when they start a new
    /// press, and remembers whether anything was asserted.
    pub fn debounce(&mut self, raw: ActionSet) -> (passed: ActionSet)
        ensures
            passed == old(self).debounced(raw),
            *final(self) == old(self).after(raw),
    {
        let any_pressed = raw.any();
        let trigger = any_pressed && !self.last_any_pressed;
        self.last_any_pressed = any_pressed;
        if trigger {
            raw
        } else {
            ActionSet::empty()
        }
    }
}

/// Unifies the keyboard and the gamepads of one tick into one intent.
#[derive(Clone, Copy, Debug, PartialEq, Eq, Structural)]
pub struct InputArbiter {
    pub gamepad_edge: InputEdgeState,
}

impl InputArbiter {
    /// An arbiter that has seen no input yet.
    pub fn new() -> (arbiter: InputArbiter)
        ensures
            !arbiter.gamepad_edge.last_any_pressed,
    {
        InputArbiter { gamepad_edge: InputEdgeState::new() }
    }

    /// The actions in effect: the keyboard's merged with the debounced
    /// gamepad signals, and none at all without focus.
    pub open spec fn effective(
        self,
        keyboard: KeyboardSnapshot,
        raw_pad: ActionSet,
        focused: bool,
    ) -> ActionSet {
        if focused {
            keyboard.actions().merged(self.gamepad_edge.debounced(raw_pad))
        } else {
            ActionSet::empty()
        }
    }

    /// The intent of the tick.
    pub open spec fn intent_of(
        self,
        keyboard: KeyboardSnapshot,
        raw_pad: ActionSet,
        focused: bool,
    ) -> Intent {
        self.effective(keyboard, raw_pad, focused).intent()
    }

    /// The arbiter after the tick. Without focus the input is not looked at
    /// and the memory stays as it is.
    pub open spec fn after(self, raw_pad: ActionSet, focused: bool) -> InputArbiter {
        if focused {
            InputArbiter { gamepad_edge: self.gamepad_edge.after(raw_pad) }
        } else {
            self
        }
    }

    /// Derives the intent of one tick from both input sources.
    ///
    /// With focus, the gamepad signals are debounced, merged with the
    /// keyboard's, and the first asserted action of activate, right, left,
    /// down, up becomes the intent. Without focus the intent is `Nothing`
    /// whatever the input holds.
    pub fn arbitrate(
        &mut self,
        keyboard: &KeyboardSnapshot,
        gamepad: &GamepadSnapshot,
        focused: bool,
    ) -> (intent: Intent)
        ensures
            intent == old(self).intent_of(*keyboard, gamepad.raw_signals(), focused),
            *final(self) == old(self).after(gamepad.raw_signals(), focused),
            !focused ==> intent == Intent::Nothing && *final(self) == *old(self),
    {
        if !focused {
            return Intent::Nothing;
        }
        let raw_pad = gamepad.raw_signals();
        let from_pad = self.gamepad_edge.debounce(raw_pad);
        keyboard.actions().merged(from_pad).intent()
    }
}

/// After the first tick of a run, a tick is a trigger exactly when something
/// is asserted on it and nothing was asserted on the tick before: a new
/// trigger takes a full release and a new press.
pub proof fn trigger_needs_release(edge: InputEdgeState, raws: Seq<ActionSet>, tick: int)
    requires
        0 <= tick < raws.len(),
    ensures
        tick == 0 ==> edge.triggers_at(raws, tick) == edge.triggers(raws[0]),
        tick > 0 ==> edge.triggers_at(raws, tick) == (raws[tick].any() && !raws[tick - 1].any()),
{
    let before = raws.take(tick);
    if tick > 0 {
        assert(before.last() == raws[tick - 1]);
        assert(edge.after_all(before) == edge.after_all(before.drop_last()).after(before.last()));
    } else {
        assert(edge.after_all(before) == edge);
    }
}

/// A gamepad action held over a run of ticks without a release triggers at
/// most once, on the first tick, and only if nothing was pressed before the
/// run. On every later tick no gamepad signal passes.
pub proof fn held_input_triggers_once(edge: InputEdgeState, raws: Seq<ActionSet>)
    requires
        forall|i: int| 0 <= i < raws.len() ==> (#[trigger] raws[i]).any(),
    ensures
        forall|i: int|
            0 <= i < raws.len() ==> (#[trigger] edge.triggers_at(raws, i) <==> i == 0
                && !edge.last_any_pressed),
        raws.len() > 0 && !edge.last_any_pressed ==> edge.debounced_at(raws, 0) == raws[0],
        forall|i: int|
            1 <= i < raws.len() ==> #[trigger] edge.debounced_at(raws, i) == ActionSet::empty(),
{
    assert forall|i: int| 0 <= i < raws.len() implies (#[trigger] edge.triggers_at(raws, i) <==> i
        == 0 && !edge.last_any_pressed) by {
        trigger_needs_release(edge, raws, i);
        if i > 0 {
            assert(raws[i - 1].any());
        }
    }
    assert forall|i: int| 1 <= i < raws.len() implies #[trigger] edge.debounced_at(raws, i)
        == ActionSet::empty() by {
        assert(!edge.triggers_at(raws, i));
    }
    if raws.len() > 0 && !edge.last_any_pressed {
        assert(edge.triggers_at(raws, 0));
    }
}

} // verus!
