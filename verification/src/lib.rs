//! Verified core of a stackful cooperative-coroutine engine.
//!
//! A routine owns an isolated, guard-paged stack and a suspended-execution
//! handle from the context-switch provider. Its caller resumes it with one
//! data word and receives one data word back from the routine's next yield.
//! This crate verifies the protocol around those transfers: the size-class
//! and error mapping, the single-bootstrap lifecycle of a routine, the
//! per-thread hand-off slot that smuggles the pending body and the in-flight
//! handle across the provider's fixed-signature entry point, and a
//! deterministic model of the word-exchange discipline.
//!
//! The raw register/stack-pointer exchange itself and the guard-paged stack
//! allocation are external collaborators, consumed through narrow trusted
//! wrappers around the `context` crate.

mod fault;
mod model;
mod provider;
mod routine;
mod size;
mod slot;
mod words;

pub use fault::ProtocolViolation;
pub use model::drive;
pub use model::drive_interleaved;
pub use model::CounterRoutine;
pub use provider::allocate_stack;
pub use routine::lemma_bootstrap_once;
pub use routine::Routine;
pub use size::StackSize;
pub use slot::HandoffSlot;
pub use words::is_reserved;
pub use words::lemma_reserved_words;
pub use words::reserved;
pub use words::EXIT;
pub use words::START;
