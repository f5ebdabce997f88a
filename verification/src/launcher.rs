//! The launch controller: selection, activation and the launch highlight.
//!
//! The controller owns the list of entries, the selected index and the state
//! of the highlight. Once per frame the host hands it the input of the tick
//! and the time; the controller derives one intent, moves the selection or
//! activates the selected entry, and clears a highlight that is over. It starts
//! no process itself: an activation comes back as a launch request, which the
//! host carries out.

use vstd::prelude::*;
use crate::animation::{Animation, AnimationProgress, RepaintUrgency, ANIMATION_NANOS};
use crate::entry::{AppEntry, LaunchRequest};
use crate::error::ConstructionError;
use crate::grid::{step_stays_occupied, GridModel};
use crate::input::{GamepadSnapshot, InputArbiter, KeyboardSnapshot};
use crate::intent::Intent;
use crate::paths::{expand_home, is_expansion};
use crate::state::ControllerState;

verus! {

/// The launcher's state machine.
#[derive(Debug)]
pub struct LaunchController {
    entries: Vec<AppEntry>,
    grid: GridModel,
    selected: usize,
    animation: Option<Animation>,
    arbiter: InputArbiter,
    close_requested: bool,
}

impl View for LaunchController {
    type V = ControllerState;

    closed spec fn view(&self) -> ControllerState {
        ControllerState {
            entries: self.entries@,
            grid: self.grid@,
            selected: self.selected as nat,
            animation: self.animation,
            arbiter: self.arbiter,
            close_requested: self.close_requested,
        }
    }
}

impl LaunchController {
    /// Every controller that exists is in a valid state.
    #[verifier::type_invariant]
    pub open spec fn wf(self) -> bool {
        self@.valid()
    }

    /// Builds a controller over `entries`, shown on a grid of `rows` by
    /// `cols` cells, with the first entry selected.
    ///
    /// Fails with `EmptyEntries` when `entries` is empty, and otherwise with
    /// `ZeroAreaGrid` when the grid has no cell.
    pub fn new(entries: Vec<AppEntry>, rows: usize, cols: usize) -> (made: Result<
        LaunchController,
        ConstructionError,
    >)
        ensures
            match made {
                Ok(controller) => controller@ == ControllerState::initial(
                    entries@,
                    rows as nat,
                    cols as nat,
                ) && controller@.valid(),
                Err(ConstructionError::EmptyEntries) => entries@.len() == 0,
                Err(ConstructionError::ZeroAreaGrid) => entries@.len() > 0 && rows * cols == 0,
            },
    {
        match GridModel::new(rows, cols, entries.len()) {
            Ok(grid) => Ok(
                LaunchController {
                    entries,
                    grid,
                    selected: 0,
                    animation: None,
                    arbiter: InputArbiter::new(),
                    close_requested: false,
                },
            ),
            Err(error) => Err(error),
        }
    }

    /// Advances the controller by one tick.
    ///
    /// `keyboard` and `gamepad` hold the input of the tick, `focused` says
    /// whether the window has the input focus, `now` is the time. When the
    /// tick activates the selected entry the result is the request to launch
    /// it; the selection does not move in that tick.
    pub fn tick(
        &mut self,
        keyboard: &KeyboardSnapshot,
        gamepad: &GamepadSnapshot,
        focused: bool,
        now: u64,
    ) -> (launch: Option<LaunchRequest>)
        ensures
            final(self)@ == old(self)@.after_tick(*keyboard, gamepad.raw_signals(), focused, now),
            final(self)@.valid(),
            match launch {
                Some(request) => {
                    &&& old(self)@.tick_intent(*keyboard, gamepad.raw_signals(), focused)
                        is Activate
                    &&& request.index == old(self)@.selected
                    &&& is_expansion(
                        old(self)@.entries[request.index as int].launch_command@,
                        request.command@,
                    )
                },
                None => !(old(self)@.tick_intent(*keyboard, gamepad.raw_signals(), focused)
                    is Activate),
            },
    {
        proof {
            use_type_invariant(&*self);
        }
        self.close_requested = focused && keyboard.close;
        let mut arbiter = self.arbiter;
        let intent = arbiter.arbitrate(keyboard, gamepad, focused && !keyboard.close);
        self.arbiter = arbiter;
        match self.apply_intent(intent, now) {
            Some(index) => self.launch_request(index),
            None => None,
        }
    }

    /// Applies one intent at time `now`, as [`ControllerState::after_intent`]
    /// says, and returns the index of the entry to launch when the intent is
    /// an activation.
    pub fn apply_intent(&mut self, intent: Intent, now: u64) -> (launch: Option<usize>)
        ensures
            final(self)@ == old(self)@.after_intent(intent, now),
            final(self)@.valid(),
            launch == (if intent is Activate {
                Some(old(self)@.selected as usize)
            } else {
                None::<usize>
            }),
    {
        proof {
            use_type_invariant(&*self);
            step_stays_occupied(self@.grid, self@.selected as int, intent);
        }
        let launch = match intent {
            Intent::Activate => {
                self.animation = Some(
                    Animation { target_index: self.selected, started_at: now },
                );
                Some(self.selected)
            },
            _ => {
                self.selected = self.grid.apply(self.selected, intent);
                None
            },
        };
        let over = match self.animation {
            Some(animation) => animation.expired(now),
            None => false,
        };
        if over {
            self.animation = None;
        }
        launch
    }

    /// The request to launch the entry at `index`: its launch command with a
    /// leading `~` expanded. `None` when there is no such entry.
    pub fn launch_request(&self, index: usize) -> (launch: Option<LaunchRequest>)
        ensures
            launch is Some <==> index < self@.entries.len(),
            launch matches Some(request) ==> request.index == index && is_expansion(
                self@.entries[index as int].launch_command@,
                request.command@,
            ),
    {
        if index < self.entries.len() {
            let command = expand_home(self.entries[index].launch_command.as_str());
            Some(LaunchRequest { index, command })
        } else {
            None
        }
    }

    /// The icon file of the entry at `index`, with a leading `~` expanded.
    /// `None` when there is no such entry.
    pub fn icon_file(&self, index: usize) -> (file: Option<String>)
        ensures
            file is Some <==> index < self@.entries.len(),
            file matches Some(path) ==> is_expansion(
                self@.entries[index as int].icon_path@,
                path@,
            ),
    {
        if index < self.entries.len() {
            Some(expand_home(self.entries[index].icon_path.as_str()))
        } else {
            None
        }
    }

    /// The index of the selected entry.
    pub fn selected_index(&self) -> (index: usize)
        ensures
            index == self@.selected,
            index < self@.entries.len(),
    {
        proof {
            use_type_invariant(self);
        }
        self.selected
    }

    /// The selected entry.
    pub fn selected_entry(&self) -> (entry: &AppEntry)
        ensures
            *entry == self@.entries[self@.selected as int],
    {
        proof {
            use_type_invariant(self);
        }
        &self.entries[self.selected]
    }

    /// The entries, in grid order.
    pub fn entries(&self) -> (entries: &Vec<AppEntry>)
        ensures
            entries@ == self@.entries,
            entries@.len() > 0,
    {
        proof {
            use_type_invariant(self);
        }
        &self.entries
    }

    /// The entry at `index`, if there is one.
    pub fn entry(&self, index: usize) -> (entry: Option<&AppEntry>)
        ensures
            entry is Some <==> index < self@.entries.len(),
            entry matches Some(found) ==> *found == self@.entries[index as int],
    {
        if index < self.entries.len() {
            Some(&self.entries[index])
        } else {
            None
        }
    }

    /// The grid that the entries are shown on.
    pub fn grid(&self) -> (grid: GridModel)
        ensures
            grid@ == self@.grid,
            grid@.valid(),
            grid@.entry_count == self@.entries.len(),
    {
        proof {
            use_type_invariant(self);
        }
        self.grid
    }

    /// Whether the last tick saw the close key pressed with focus. The host
    /// closes the window on it.
    pub fn close_requested(&self) -> (close: bool)
        ensures
            close == self@.close_requested,
    {
        self.close_requested
    }

    /// The highlight that was started and not yet cleared, if there is one.
    pub fn animation(&self) -> (animation: Option<Animation>)
        ensures
            animation == self@.animation,
            animation matches Some(running) ==> running.target_index < self@.entries.len(),
    {
        proof {
            use_type_invariant(self);
        }
        self.animation
    }

    /// The highlight to draw at `now`: `None` when no highlight is running or
    /// the running one is over, and otherwise its target and the time left.
    pub fn animation_progress(&self, now: u64) -> (progress: Option<AnimationProgress>)
        ensures
            progress == self@.progress(now),
            progress matches Some(p) ==> p.target_index < self@.entries.len() && 0
                < p.remaining_nanos <= ANIMATION_NANOS,
    {
        proof {
            use_type_invariant(self);
        }
        match self.animation {
            Some(animation) => animation.progress(now),
            None => None,
        }
    }

    /// How soon the launcher wants to be drawn again: at once while a
    /// highlight is fading at `now`, at leisure otherwise.
    pub fn repaint_urgency(&self, now: u64) -> (urgency: RepaintUrgency)
        ensures
            urgency == (if self@.progress(now) is Some {
                RepaintUrgency::Animating
            } else {
                RepaintUrgency::Idle
            }),
    {
        match self.animation_progress(now) {
            Some(_) => RepaintUrgency::Animating,
            None => RepaintUrgency::Idle,
        }
    }
}

} // verus!
