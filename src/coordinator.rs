use vstd::prelude::*;

use crate::decision::{answer_decision, decision_for, trimmed_of, SigIntAction};

verus! {

/// Where the interrupt handler stands.
#[derive(Clone, Copy, Debug, PartialEq, Eq, Structural)]
pub enum Phase {
    /// No interrupt is being handled.
    Idle,
    /// The prompt is on screen and the round is not resolved yet.
    Prompting,
    /// The user confirmed: the program ends.
    Terminated,
}

/// What the interrupt handler does next.
#[derive(Clone, Copy, Debug, PartialEq, Eq, Structural)]
pub enum SignalStep {
    /// Print a blank header line, then the prompt.
    Prompt,
    /// Print the prompt again, without the header line.
    Reprompt,
    /// The interrupt belongs to a round that is already open or over.
    Ignore,
    /// The answer is still outstanding: sleep and poll again.
    Wait,
    /// The round is over: listen for the next interrupt.
    Resume,
    /// Report that the command was terminated and end the program.
    Exit,
}

/// What the input relay does with a line read from the terminal.
#[derive(Clone, Copy, Debug, PartialEq, Eq, Structural)]
pub enum InputStep {
    /// Write the line, as it was read, to the command's input.
    Forward,
    /// The user confirmed: deliver the interrupt to the command.
    SignalChild,
    /// The user declined: the command goes on.
    Resumed,
    /// The answer was not understood: tell the user what is accepted.
    Rejected,
}

/// One event that reaches the coordinator, for reasoning about runs.
pub ghost enum Event {
    /// The interrupt signal was received.
    Interrupt,
    /// The interrupt handler looks at the answer.
    Poll,
    /// A line was read from the terminal.
    Line(Seq<char>),
}

/// The step that an event brings about, for reasoning about runs.
pub ghost enum StepOf {
    /// A step of the interrupt handler.
    Signal(SignalStep),
    /// A step of the input relay.
    Input(InputStep),
}

/// The state that the supervisor's workers share: whether output and input
/// are held back, whether an answer is outstanding, the last decision, and
/// where the interrupt handler stands.
#[derive(Clone, Copy, Debug, PartialEq, Eq, Structural)]
pub struct Coordinator {
    pub suppress: bool,
    pub confirming: bool,
    pub action: SigIntAction,
    pub phase: Phase,
}

impl Coordinator {
    /// Output is held back only while a round is open; an answer is awaited
    /// only while output is held back; a round whose output is released
    /// already has its answer, and that answer is to terminate.
    pub open spec fn wf(self) -> bool {
        &&& (self.suppress ==> self.phase == Phase::Prompting)
        &&& (self.confirming ==> self.suppress)
        &&& (self.phase == Phase::Prompting && !self.suppress ==> self.action
            == SigIntAction::Terminate)
    }

    /// The state before any interrupt.
    pub open spec fn initial() -> Coordinator {
        Coordinator {
            suppress: false,
            confirming: false,
            action: SigIntAction::Continue,
            phase: Phase::Idle,
        }
    }

    /// An interrupt opens a round when none is open: output is held back,
    /// an answer is awaited and the prompt is shown with its header.
    pub open spec fn interrupt_spec(self) -> (Coordinator, SignalStep) {
        if self.phase == Phase::Idle {
            (
                Coordinator { suppress: true, confirming: true, phase: Phase::Prompting, ..self },
                SignalStep::Prompt,
            )
        } else {
            (self, SignalStep::Ignore)
        }
    }

    /// Once the answer is in, the handler acts on the decision: continue
    /// releases the output, terminate ends the program, an invalid answer
    /// awaits a new one behind a repeated prompt.
    pub open spec fn poll_spec(self) -> (Coordinator, SignalStep) {
        match self.phase {
            Phase::Idle => (self, SignalStep::Resume),
            Phase::Terminated => (self, SignalStep::Exit),
            Phase::Prompting => if self.confirming {
                (self, SignalStep::Wait)
            } else {
                match self.action {
                    SigIntAction::Continue => (
                        Coordinator { suppress: false, phase: Phase::Idle, ..self },
                        SignalStep::Resume,
                    ),
                    SigIntAction::Terminate => (
                        Coordinator { suppress: false, phase: Phase::Terminated, ..self },
                        SignalStep::Exit,
                    ),
                    SigIntAction::Invalid => (
                        Coordinator { confirming: true, ..self },
                        SignalStep::Reprompt,
                    ),
                }
            },
        }
    }

    /// A line goes to the command while input is not held back; otherwise
    /// it is the answer to the prompt, recorded before the answer is marked
    /// as given. Terminating also releases the output at once.
    pub open spec fn line_spec(self, line: Seq<char>) -> (Coordinator, InputStep) {
        if !self.suppress {
            (self, InputStep::Forward)
        } else {
            let d = decision_for(trimmed_of(line));
            match d {
                SigIntAction::Terminate => (
                    Coordinator { suppress: false, confirming: false, action: d, ..self },
                    InputStep::SignalChild,
                ),
                SigIntAction::Continue => (
                    Coordinator { confirming: false, action: d, ..self },
                    InputStep::Resumed,
                ),
                SigIntAction::Invalid => (
                    Coordinator { confirming: false, action: d, ..self },
                    InputStep::Rejected,
                ),
            }
        }
    }

    /// The state and the step that an event brings about.
    pub open spec fn event_spec(self, e: Event) -> (Coordinator, StepOf) {
        match e {
            Event::Interrupt => {
                let (c, s) = self.interrupt_spec();
                (c, StepOf::Signal(s))
            },
            Event::Poll => {
                let (c, s) = self.poll_spec();
                (c, StepOf::Signal(s))
            },
            Event::Line(line) => {
                let (c, s) = self.line_spec(line);
                (c, StepOf::Input(s))
            },
        }
    }

    /// The state after a run of events.
    pub open spec fn run(self, events: Seq<Event>) -> Coordinator
        decreases events.len(),
    {
        if events.len() == 0 {
            self
        } else {
            self.event_spec(events[0]).0.run(events.drop_first())
        }
    }

    /// The steps that a run of events brings about, in order.
    pub open spec fn steps(self, events: Seq<Event>) -> Seq<StepOf>
        decreases events.len(),
    {
        if events.len() == 0 {
            Seq::empty()
        } else {
            let (c, s) = self.event_spec(events[0]);
            seq![s] + c.steps(events.drop_first())
        }
    }

    /// A coordinator before any interrupt.
    pub fn new() -> (r: Coordinator)
        ensures
            r == Coordinator::initial(),
            r.wf(),
    {
        Coordinator {
            suppress: false,
            confirming: false,
            action: SigIntAction::Continue,
            phase: Phase::Idle,
        }
    }

    /// Whether output and input are held back.
    pub fn is_suppressed(&self) -> (r: bool)
        ensures
            r == self.suppress,
    {
        self.suppress
    }

    /// Whether an answer to the prompt is outstanding.
    pub fn is_confirming(&self) -> (r: bool)
        ensures
            r == self.confirming,
    {
        self.confirming
    }

    /// The interrupt handler received the interrupt signal.
    pub fn on_interrupt(&mut self) -> (r: SignalStep)
        ensures
            (*final(self), r) == old(self).interrupt_spec(),
            old(self).wf() ==> final(self).wf(),
    {
        if self.phase == Phase::Idle {
            self.suppress = true;
            self.confirming = true;
            self.phase = Phase::Prompting;
            SignalStep::Prompt
        } else {
            SignalStep::Ignore
        }
    }

    /// The interrupt handler looks at the answer to the prompt.
    pub fn poll(&mut self) -> (r: SignalStep)
        ensures
            (*final(self), r) == old(self).poll_spec(),
            old(self).wf() ==> final(self).wf(),
    {
        match self.phase {
            Phase::Idle => SignalStep::Resume,
            Phase::Terminated => SignalStep::Exit,
            Phase::Prompting => {
                if self.confirming {
                    SignalStep::Wait
                } else {
                    match self.action {
                        SigIntAction::Continue => {
                            self.suppress = false;
                            self.phase = Phase::Idle;
                            SignalStep::Resume
                        },
                        SigIntAction::Terminate => {
                            self.suppress = false;
                            self.phase = Phase::Terminated;
                            SignalStep::Exit
                        },
                        SigIntAction::Invalid => {
                            self.confirming = true;
                            SignalStep::Reprompt
                        },
                    }
                }
            },
        }
    }

    /// The input relay read a line, its newline included, from the terminal.
    pub fn on_line(&mut self, line: &str) -> (r: InputStep)
        ensures
            (*final(self), r) == old(self).line_spec(line@),
            old(self).wf() ==> final(self).wf(),
    {
        if !self.suppress {
            InputStep::Forward
        } else {
            let d = answer_decision(line);
            self.action = d;
            match d {
                SigIntAction::Terminate => {
                    self.suppress = false;
                    self.confirming = false;
                    InputStep::SignalChild
                },
                SigIntAction::Continue => {
                    self.confirming = false;
                    InputStep::Resumed
                },
                SigIntAction::Invalid => {
                    self.confirming = false;
                    InputStep::Rejected
                },
            }
        }
    }
}

} // verus!
