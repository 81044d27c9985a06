//! The decision core of a terminal-session multiplexer.
//!
//! A session bridges a controlling process's input stream and the output of a
//! child that runs on a pseudo-terminal, and keeps the child's terminal
//! geometry in step with the controlling terminal's. This crate holds every
//! decision of that session and performs no I/O: each function takes what the
//! driver observed (a readiness event, the outcome of a read, an instruction,
//! the value of the resize-signal counter) and answers with the next state
//! and the work the driver has to do.
pub mod instruction;
pub mod lemmas;
pub mod loop_state;
pub mod raw_handler;
pub mod winsize;

pub use instruction::Instruction;
pub use loop_state::LoopState;
pub use raw_handler::{
    Fatal, RawHandler, ReadOutcome, ReadRequest, ResizeStep, Source, StepResult, INPUT,
    INPUT_CHUNK, OUTPUT, OUTPUT_CHUNK,
};
pub use winsize::Winsize;
