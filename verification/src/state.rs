//! The launcher's state machine as mathematics.
//!
//! A state holds the entries, the grid, the selection, the highlight, the
//! arbiter's memory and the close request. The functions here say what one
//! intent and what one tick make of a state; the controller is verified to do
//! exactly that. What holds of every state that can be reached is proved
//! below.

use vstd::prelude::*;
use crate::animation::{Animation, AnimationProgress, ANIMATION_NANOS};
use crate::entry::AppEntry;
use crate::grid::{step_stays_occupied, GridShape};
use crate::input::{ActionSet, InputArbiter, InputEdgeState, KeyboardSnapshot};
use crate::intent::Intent;

verus! {

/// What one tick is given: the keys that went down, the raw gamepad signals,
/// whether the window has the focus, and the time.
pub struct TickInput {
    pub keyboard: KeyboardSnapshot,
    pub raw_pad: ActionSet,
    pub focused: bool,
    pub now: u64,
}

impl TickInput {
    /// A focused tick in which only the gamepad speaks: no key went down and
    /// some gamepad action is asserted.
    pub open spec fn gamepad_only(self) -> bool {
        self.focused && !self.keyboard.close && !self.keyboard.actions().any()
            && self.raw_pad.any()
    }
}

/// The mathematical state of a controller: what a `LaunchController` stands for.
pub struct ControllerState {
    pub entries: Seq<AppEntry>,
    pub grid: GridShape,
    pub selected: nat,
    pub animation: Option<Animation>,
    pub arbiter: InputArbiter,
    pub close_requested: bool,
}

impl ControllerState {
    /// The grid is laid over the entries, and the selection and the target of
    /// a highlight each name an entry.
    pub open spec fn valid(self) -> bool {
        &&& self.grid.valid()
        &&& self.grid.entry_count == self.entries.len()
        &&& self.entries.len() <= usize::MAX
        &&& self.selected < self.entries.len()
        &&& (self.animation matches Some(animation) ==> animation.target_index
            < self.entries.len())
    }

    /// The state at construction: the first entry selected, no highlight, no
    /// input seen.
    pub open spec fn initial(entries: Seq<AppEntry>, rows: nat, cols: nat) -> ControllerState {
        ControllerState {
            entries,
            grid: GridShape { rows, cols, entry_count: entries.len() },
            selected: 0,
            animation: None,
            arbiter: InputArbiter { gamepad_edge: InputEdgeState { last_any_pressed: false } },
            close_requested: false,
        }
    }

    /// Whether the input of a tick is listened to: the window has the focus
    /// and the close key was not pressed.
    pub open spec fn listens(keyboard: KeyboardSnapshot, focused: bool) -> bool {
        focused && !keyboard.close
    }

    /// The intent that a tick derives from its input.
    pub open spec fn tick_intent(
        self,
        keyboard: KeyboardSnapshot,
        raw_pad: ActionSet,
        focused: bool,
    ) -> Intent {
        self.arbiter.intent_of(keyboard, raw_pad, Self::listens(keyboard, focused))
    }

    /// The state after one intent at time `now`. A move intent moves the
    /// selection where the grid allows it. An activation starts the
    /// highlight on the selected entry, over a running one too. After that a
    /// highlight that is over at `now` is cleared.
    pub open spec fn after_intent(self, intent: Intent, now: u64) -> ControllerState {
        let started = if intent is Activate {
            Some(Animation { target_index: self.selected as usize, started_at: now })
        } else {
            self.animation
        };
        ControllerState {
            selected: self.grid.after(self.selected as int, intent) as nat,
            animation: match started {
                Some(animation) => if animation.expired(now) {
                    None
                } else {
                    Some(animation)
                },
                None => None,
            },
            ..self
        }
    }

    /// The state after a run of intents, each with its time, first to last.
    pub open spec fn after_intents(self, steps: Seq<(Intent, u64)>) -> ControllerState
        decreases steps.len(),
    {
        if steps.len() == 0 {
            self
        } else {
            self.after_intents(steps.drop_last()).after_intent(steps.last().0, steps.last().1)
        }
    }

    /// The state after one tick.
    ///
    /// A close request is recorded when the close key is pressed with focus;
    /// the rest of that tick's input is dropped. Without focus all input is
    /// dropped. Otherwise the arbiter remembers the gamepad signals. Then the
    /// intent of the tick is applied.
    pub open spec fn after_tick(
        self,
        keyboard: KeyboardSnapshot,
        raw_pad: ActionSet,
        focused: bool,
        now: u64,
    ) -> ControllerState {
        ControllerState {
            arbiter: self.arbiter.after(raw_pad, Self::listens(keyboard, focused)),
            close_requested: focused && keyboard.close,
            ..self
        }.after_intent(self.tick_intent(keyboard, raw_pad, focused), now)
    }

    /// The state after a run of ticks, first to last.
    pub open spec fn after_ticks(self, ticks: Seq<TickInput>) -> ControllerState
        decreases ticks.len(),
    {
        if ticks.len() == 0 {
            self
        } else {
            self.after_ticks(ticks.drop_last()).after_tick(
                ticks.last().keyboard,
                ticks.last().raw_pad,
                ticks.last().focused,
                ticks.last().now,
            )
        }
    }

    /// What the renderer draws of the highlight at `now`.
    pub open spec fn progress(self, now: u64) -> Option<AnimationProgress> {
        match self.animation {
            Some(animation) => animation.progress(now),
            None => None,
        }
    }
}

/// A controller built over at least one entry and a grid with at least one
/// cell starts in a valid state.
pub proof fn initial_state_is_valid(entries: Seq<AppEntry>, rows: nat, cols: nat)
    requires
        0 < entries.len() <= usize::MAX,
        rows * cols != 0,
    ensures
        ControllerState::initial(entries, rows, cols).valid(),
{
}

/// One intent keeps a valid state valid, and touches neither the entries nor
/// the grid: the selection still names an entry.
pub proof fn intent_keeps_state_valid(state: ControllerState, intent: Intent, now: u64)
    requires
        state.valid(),
    ensures
        state.after_intent(intent, now).valid(),
        state.after_intent(intent, now).entries == state.entries,
        state.after_intent(intent, now).grid == state.grid,
{
    step_stays_occupied(state.grid, state.selected as int, intent);
}

/// Any run of intents keeps a valid state valid: the selection names an entry
/// at every point.
pub proof fn intents_keep_state_valid(state: ControllerState, steps: Seq<(Intent, u64)>)
    requires
        state.valid(),
    ensures
        state.after_intents(steps).valid(),
        state.after_intents(steps).entries == state.entries,
        state.after_intents(steps).grid == state.grid,
    decreases steps.len(),
{
    if steps.len() > 0 {
        intents_keep_state_valid(state, steps.drop_last());
        intent_keeps_state_valid(
            state.after_intents(steps.drop_last()),
            steps.last().0,
            steps.last().1,
        );
    }
}

/// One tick keeps a valid state valid, whatever the input.
pub proof fn tick_keeps_state_valid(
    state: ControllerState,
    keyboard: KeyboardSnapshot,
    raw_pad: ActionSet,
    focused: bool,
    now: u64,
)
    requires
        state.valid(),
    ensures
        state.after_tick(keyboard, raw_pad, focused, now).valid(),
        state.after_tick(keyboard, raw_pad, focused, now).entries == state.entries,
        state.after_tick(keyboard, raw_pad, focused, now).grid == state.grid,
{
    let heard = ControllerState {
        arbiter: state.arbiter.after(raw_pad, ControllerState::listens(keyboard, focused)),
        close_requested: focused && keyboard.close,
        ..state
    };
    intent_keeps_state_valid(heard, state.tick_intent(keyboard, raw_pad, focused), now);
}

/// Any run of ticks keeps a valid state valid. So in every state that can be
/// reached from construction the selection names an entry.
pub proof fn ticks_keep_state_valid(state: ControllerState, ticks: Seq<TickInput>)
    requires
        state.valid(),
    ensures
        state.after_ticks(ticks).valid(),
        state.after_ticks(ticks).entries == state.entries,
        state.after_ticks(ticks).grid == state.grid,
    decreases ticks.len(),
{
    if ticks.len() > 0 {
        ticks_keep_state_valid(state, ticks.drop_last());
        tick_keeps_state_valid(
            state.after_ticks(ticks.drop_last()),
            ticks.last().keyboard,
            ticks.last().raw_pad,
            ticks.last().focused,
            ticks.last().now,
        );
    }
}

/// Activation comes first. In a tick that is listened to, the enter key, or a
/// gamepad activation that triggers, makes the intent `Activate` whatever
/// direction is asserted with it: the selection stays, and the highlight
/// starts on it.
pub proof fn activation_takes_precedence(
    state: ControllerState,
    keyboard: KeyboardSnapshot,
    raw_pad: ActionSet,
    now: u64,
)
    requires
        state.valid(),
        !keyboard.close,
        keyboard.enter || (raw_pad.activate && state.arbiter.gamepad_edge.triggers(raw_pad)),
    ensures
        state.tick_intent(keyboard, raw_pad, true) == Intent::Activate,
        state.after_tick(keyboard, raw_pad, true, now).selected == state.selected,
        state.after_tick(keyboard, raw_pad, true, now).animation == Some(
            Animation { target_index: state.selected as usize, started_at: now },
        ),
{
}

/// A gamepad that was already pressed on the tick before gives no intent, as
/// long as nothing is released: with a quiet keyboard the tick moves nothing
/// and activates nothing.
pub proof fn held_gamepad_moves_nothing(
    state: ControllerState,
    keyboard: KeyboardSnapshot,
    raw_pad: ActionSet,
    focused: bool,
    now: u64,
)
    requires
        state.valid(),
        state.arbiter.gamepad_edge.last_any_pressed,
        !keyboard.actions().any(),
    ensures
        state.tick_intent(keyboard, raw_pad, focused) == Intent::Nothing,
        state.after_tick(keyboard, raw_pad, focused, now).selected == state.selected,
{
}

/// A gamepad action held over a run of focused ticks, with a quiet keyboard
/// and no release in between, acts at most once: from the second tick of the
/// run on, the intent is `Nothing` and the selection stays where it is.
pub proof fn held_gamepad_acts_once(state: ControllerState, ticks: Seq<TickInput>, tick: int)
    requires
        state.valid(),
        forall|i: int| 0 <= i < ticks.len() ==> (#[trigger] ticks[i]).gamepad_only(),
        1 <= tick < ticks.len(),
    ensures
        state.after_ticks(ticks.take(tick)).tick_intent(
            ticks[tick].keyboard,
            ticks[tick].raw_pad,
            ticks[tick].focused,
        ) == Intent::Nothing,
        state.after_ticks(ticks.take(tick + 1)).selected == state.after_ticks(
            ticks.take(tick),
        ).selected,
{
    let before = ticks.take(tick);
    let through = ticks.take(tick + 1);
    assert(before.drop_last() == ticks.take(tick - 1));
    assert(before.last() == ticks[tick - 1]);
    assert(through.drop_last() == before);
    assert(through.last() == ticks[tick]);
    ticks_keep_state_valid(state, before);
    assert(ticks[tick - 1].gamepad_only());
    assert(ticks[tick].gamepad_only());
    held_gamepad_moves_nothing(
        state.after_ticks(before),
        ticks[tick].keyboard,
        ticks[tick].raw_pad,
        ticks[tick].focused,
        ticks[tick].now,
    );
}

/// An activation at time `start` shows the highlight on the selected entry at
/// full strength. From then on the time left falls by the time that passed,
/// and once a quarter of a second has passed nothing is shown: the next
/// intent, whichever it is, clears the highlight.
pub proof fn activation_starts_highlight(state: ControllerState, start: u64, now: u64)
    requires
        state.valid(),
        start <= now,
    ensures
        ({
            let activated = state.after_intent(Intent::Activate, start);
            &&& activated.selected == state.selected
            &&& activated.progress(start) == Some(
                AnimationProgress {
                    target_index: state.selected as usize,
                    remaining_nanos: ANIMATION_NANOS,
                },
            )
            &&& now - start < ANIMATION_NANOS ==> activated.progress(now) == Some(
                AnimationProgress {
                    target_index: state.selected as usize,
                    remaining_nanos: (ANIMATION_NANOS - (now - start)) as u64,
                },
            )
            &&& now - start >= ANIMATION_NANOS ==> activated.progress(now) is None
                && activated.after_intent(Intent::Nothing, now).animation is None
        }),
{
}

/// Without focus a tick hears nothing: whatever the input holds, the intent is
/// `Nothing`, the selection and the arbiter's memory stay as they are, no
/// highlight starts and no close is requested. All that such a tick can do is
/// clear a highlight that is over.
pub proof fn unfocused_tick_hears_nothing(
    state: ControllerState,
    keyboard: KeyboardSnapshot,
    raw_pad: ActionSet,
    now: u64,
)
    ensures
        state.tick_intent(keyboard, raw_pad, false) == Intent::Nothing,
        state.after_tick(keyboard, raw_pad, false, now).selected == state.selected,
        state.after_tick(keyboard, raw_pad, false, now).arbiter == state.arbiter,
        !state.after_tick(keyboard, raw_pad, false, now).close_requested,
        state.after_tick(keyboard, raw_pad, false, now) == (ControllerState {
            close_requested: false,
            ..state.after_intent(Intent::Nothing, now)
        }),
        state.after_tick(keyboard, raw_pad, false, now).animation == state.animation
            || state.after_tick(keyboard, raw_pad, false, now).animation is None,
{
}

} // verus!
