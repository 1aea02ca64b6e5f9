//! A batch file-transfer engine, written as a verified state machine.
//!
//! The crate holds every decision of a batch download: whether a file that is
//! already on disk may be kept, what is reported to an observer and when, how
//! the shared counters move, and how many transfers may run at once. It performs
//! no input or output itself. A driver performs each [`worker::Action`] that
//! the engine asks for and hands the outcome back as an [`worker::Event`].
//!
//! [`batch::Batch`] is the engine; [`model`] says what a batch is and proves
//! what holds of every state it can reach. Beside the engine stand the
//! decisions made when a Java executable is looked for: where to look
//! ([`detection`]), how the answer of a lookup is read ([`lookup`]), and which
//! path is settled on ([`normalize`]).

pub mod batch;
pub mod detection;
pub mod digest;
pub mod lookup;
pub mod model;
pub mod normalize;
pub mod platform;
pub mod progress;
pub mod task;
pub mod text;
pub mod worker;
