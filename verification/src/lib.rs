//! Plan and classify runs of a toolchain driver's macro-expansion step.
//!
//! The library decides everything about one expansion run that does not touch
//! the outside world: which driver executable to invoke, the exact argument
//! list, whether the run may reuse a caller-supplied scratch directory or
//! must be given a fresh one, and how the captured output streams are decoded
//! and classified into expanded source text or a failure. A thin unverified
//! shell performs the environment reads, the scratch-directory creation and
//! the process spawn, and hands the captured bytes back for classification.

pub mod error;
pub mod invocation;
pub mod output;

pub use crate::error::Error;
pub use crate::invocation::Invocation;
pub use crate::invocation::Overrides;
pub use crate::invocation::ScratchDir;
