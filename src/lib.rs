//! Supervision of a single child command: an interrupt is confirmed by the
//! user before it is passed on to the command.
//!
//! The decisions of the supervisor's workers are verified state transitions
//! on one shared [`Coordinator`]: the input relay hands it each line read
//! from the terminal, each output relay each chunk read from a
//! pseudo-terminal master, and the interrupt handler each interrupt and each
//! look at the answer. The workers carry out the steps that come back.

pub mod cli;
pub mod coordinator;
pub mod decision;
pub mod laws;
pub mod relay;
pub mod terminal;

pub use cli::command_line;
pub use coordinator::{Coordinator, InputStep, Phase, SignalStep};
pub use decision::{answer_decision, classify_answer, SigIntAction};
pub use relay::OutputStep;
pub use terminal::{get_terminal_size, size_or_default, TermSize, DEFAULT_COLS, DEFAULT_ROWS};
