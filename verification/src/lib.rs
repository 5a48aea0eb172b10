//! A minimal subprocess-execution helper, verified with Verus.
//!
//! A [`Popen`](runner::Popen) holds a shell-style command line. Spawning
//! splits the line into a program name and arguments on whitespace, runs the
//! program with both output streams piped, reads the streams to completion,
//! and succeeds with the captured standard output exactly when standard
//! error stayed empty.
//!
//! The library holds the decision logic of that pipeline: tokenization, the
//! single-consume bookkeeping of the stream endpoints, the process-identifier
//! lookup, and the final validation of the captured streams. Process creation
//! and pipe reading themselves are operating-system work that an unverified
//! caller performs between the verified steps.

pub mod errors;
pub mod runner;
pub mod tokenize;

pub use errors::SpawnError;
pub use runner::ChildHandle;
pub use runner::Popen;
pub use tokenize::split_tokens;
