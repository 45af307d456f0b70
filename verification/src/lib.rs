//! Forkserver protocol engine and fork-based execution for coverage-guided fuzzing.

pub mod error;
pub mod guard;
pub mod decimal;
pub mod wire;
pub mod lifecycle;
pub mod forkserver;
pub mod shared_memory;
pub mod stateful;
pub mod random;
pub mod mutation;
pub mod base64;
pub mod executor;
pub mod input;
pub mod generator;
pub mod mutator;
pub mod metadata_structs;
pub mod feedback;
pub mod input_logger_feedback;
pub mod actual_crash_feedback;
pub mod diff_feedback_metadata;
pub mod shmem;
