//! The host loop as a state machine: what the host does next, given what its
//! last piece of outside work came to.
//!
//! The host performs the work of the current stage (measure time, poll input,
//! query the output size, run a physics step, draw, copy, present, capture)
//! and reports the result as a [`Signal`]. The machine answers with the next
//! state. It never does outside work itself.

use vstd::prelude::*;

verus! {

/// A key of interest to the host.
#[derive(Clone, Copy, Debug, PartialEq, Eq, Structural)]
pub enum Key {
    Escape,
    Other,
}

/// An input event, as far as the host distinguishes them.
#[derive(Clone, Copy, Debug, PartialEq, Eq, Structural)]
pub enum InputEvent {
    /// The window was asked to close.
    Quit,
    /// A key went down.
    KeyDown(Key),
    /// Anything else.
    Other,
}

/// Whether the event is a quit signal: a request to close, or Escape going
/// down.
pub open spec fn asks_to_quit(event: InputEvent) -> bool {
    event == InputEvent::Quit || event == InputEvent::KeyDown(Key::Escape)
}

/// Tells whether the event is a quit signal.
pub fn requests_quit(event: &InputEvent) -> (quit: bool)
    ensures
        quit == asks_to_quit(*event),
{
    match event {
        InputEvent::Quit => true,
        InputEvent::KeyDown(Key::Escape) => true,
        _ => false,
    }
}

/// The stages of one iteration of the host loop, in their order.
#[derive(Clone, Copy, Debug, PartialEq, Eq, Structural)]
pub enum Stage {
    /// Measure the time since the last iteration and feed it to the clock.
    Timing,
    /// Hand over the pending input events, one by one.
    Input,
    /// Query the size of the output.
    Sizing,
    /// Run the physics steps that the clock has due, one by one.
    Stepping,
    /// Draw the bodies onto the virtual canvas.
    Drawing,
    /// Copy the virtual canvas to the output.
    Copying,
    /// Present the output.
    Presenting,
    /// Offer the presented frame for capture.
    Capturing,
}

/// The state of the host loop.
#[derive(Clone, Copy, Debug, PartialEq, Eq, Structural)]
pub enum LoopState {
    /// The loop is at the given stage of an iteration.
    Running(Stage),
    /// The loop has ended.
    Terminated,
}

/// What the work of a stage came to.
#[derive(Clone, Copy, Debug, PartialEq, Eq, Structural)]
pub enum Signal {
    /// The work of the stage is complete.
    Done,
    /// The work of the stage failed; the host has reported the failure.
    Failed,
    /// One physics step was due and has been run.
    StepTaken,
    /// An input event was pending.
    Input(InputEvent),
}

/// The host loop: its state, the number of physics steps run so far, and
/// whether presented frames are offered for capture.
#[derive(Clone, Copy, Debug, PartialEq, Eq, Structural)]
pub struct HostLoop {
    pub state: LoopState,
    pub frame_counter: u32,
    pub capture_enabled: bool,
}

impl HostLoop {
    /// The stage that follows `stage`; capture has a stage of its own only
    /// where it is enabled.
    pub open spec fn stage_after(self, stage: Stage) -> Stage {
        match stage {
            Stage::Timing => Stage::Input,
            Stage::Input => Stage::Sizing,
            Stage::Sizing => Stage::Stepping,
            Stage::Stepping => Stage::Drawing,
            Stage::Drawing => Stage::Copying,
            Stage::Copying => Stage::Presenting,
            Stage::Presenting => if self.capture_enabled {
                Stage::Capturing
            } else {
                Stage::Timing
            },
            Stage::Capturing => Stage::Timing,
        }
    }

    /// Whether the work of `stage` can fail: the stages that touch the
    /// output surface.
    pub open spec fn can_fail(stage: Stage) -> bool {
        stage == Stage::Sizing || stage == Stage::Drawing || stage == Stage::Copying || stage
            == Stage::Presenting || stage == Stage::Capturing
    }

    /// The loop after `signal`.
    ///
    /// A terminated loop stays as it is. A running loop moves on to the next
    /// stage when the work of its stage is done, and also when it failed: a
    /// failure costs at most a frame, never the loop. It ends on a quit
    /// signal among the input, and stays at its stage, one step further, for
    /// each physics step run. A signal that the stage does not give rise to
    /// changes nothing.
    pub open spec fn after(self, signal: Signal) -> HostLoop {
        match self.state {
            LoopState::Terminated => self,
            LoopState::Running(stage) => match signal {
                Signal::Done => HostLoop {
                    state: LoopState::Running(self.stage_after(stage)),
                    ..self
                },
                Signal::Failed => if Self::can_fail(stage) {
                    HostLoop { state: LoopState::Running(self.stage_after(stage)), ..self }
                } else {
                    self
                },
                Signal::StepTaken => if stage == Stage::Stepping {
                    HostLoop { frame_counter: (self.frame_counter + 1) as u32, ..self }
                } else {
                    self
                },
                Signal::Input(event) => if stage == Stage::Input && asks_to_quit(event) {
                    HostLoop { state: LoopState::Terminated, ..self }
                } else {
                    self
                },
            },
        }
    }

    /// Whether `signal` can be handled: the step counter must have room for
    /// the step that the signal reports.
    pub open spec fn accepts(self, signal: Signal) -> bool {
        self.state == LoopState::Running(Stage::Stepping) && signal == Signal::StepTaken
            ==> self.frame_counter < u32::MAX
    }

    /// A terminated loop stays terminated, whatever is signalled.
    pub proof fn lemma_terminated_is_final(self, signal: Signal)
        requires
            self.state == LoopState::Terminated,
        ensures
            self.after(signal) == self,
    {
    }

    /// The loop ends only at the top of an iteration, while input is drained,
    /// and only on a quit signal.
    pub proof fn lemma_ends_only_on_quit(self, signal: Signal)
        requires
            self.state != LoopState::Terminated,
            self.after(signal).state == LoopState::Terminated,
        ensures
            self.state == LoopState::Running(Stage::Input),
            signal matches Signal::Input(event) && asks_to_quit(event),
    {
    }

    /// Drawing begins only when the physics steps of the iteration are
    /// complete.
    pub proof fn lemma_drawing_follows_stepping(self, signal: Signal)
        requires
            self.after(signal).state == LoopState::Running(Stage::Drawing),
            self.state != self.after(signal).state,
        ensures
            self.state == LoopState::Running(Stage::Stepping),
            signal == Signal::Done,
    {
    }

    /// The step counter moves only for a physics step, by one, and never
    /// back.
    pub proof fn lemma_counter_counts_steps(self, signal: Signal)
        requires
            self.accepts(signal),
        ensures
            self.after(signal).frame_counter == if self.state == LoopState::Running(
                Stage::Stepping,
            ) && signal == Signal::StepTaken {
                self.frame_counter + 1
            } else {
                self.frame_counter as int
            },
    {
    }

    /// A loop at the top of its first iteration, with no step run yet.
    pub fn new(capture_enabled: bool) -> (host: HostLoop)
        ensures
            host == (HostLoop {
                state: LoopState::Running(Stage::Timing),
                frame_counter: 0,
                capture_enabled,
            }),
    {
        HostLoop { state: LoopState::Running(Stage::Timing), frame_counter: 0, capture_enabled }
    }

    /// The stage that follows `stage`.
    fn next_stage(&self, stage: Stage) -> (next: Stage)
        ensures
            next == self.stage_after(stage),
    {
        match stage {
            Stage::Timing => Stage::Input,
            Stage::Input => Stage::Sizing,
            Stage::Sizing => Stage::Stepping,
            Stage::Stepping => Stage::Drawing,
            Stage::Drawing => Stage::Copying,
            Stage::Copying => Stage::Presenting,
            Stage::Presenting => if self.capture_enabled {
                Stage::Capturing
            } else {
                Stage::Timing
            },
            Stage::Capturing => Stage::Timing,
        }
    }

    /// Tells whether the loop goes on.
    pub fn is_running(&self) -> (running: bool)
        ensures
            running == (self.state != LoopState::Terminated),
    {
        match self.state {
            LoopState::Running(_) => true,
            LoopState::Terminated => false,
        }
    }

    /// Takes in what the work of the current stage came to.
    pub fn handle(&mut self, signal: Signal)
        requires
            old(self).accepts(signal),
        ensures
            *final(self) == old(self).after(signal),
    {
        match self.state {
            LoopState::Terminated => {},
            LoopState::Running(stage) => match signal {
                Signal::Done => {
                    self.state = LoopState::Running(self.next_stage(stage));
                },
                Signal::Failed => {
                    match stage {
                        Stage::Sizing
                        | Stage::Drawing
                        | Stage::Copying
                        | Stage::Presenting
                        | Stage::Capturing => {
                            self.state = LoopState::Running(self.next_stage(stage));
                        },
                        _ => {},
                    }
                },
                Signal::StepTaken => {
                    match stage {
                        Stage::Stepping => {
                            self.frame_counter = self.frame_counter + 1;
                        },
                        _ => {},
                    }
                },
                Signal::Input(event) => {
                    match stage {
                        Stage::Input => {
                            if requests_quit(&event) {
                                self.state = LoopState::Terminated;
                            }
                        },
                        _ => {},
                    }
                },
            },
        }
    }
}

} // verus!
