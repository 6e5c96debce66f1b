//! Streaming adaptation of a block-oriented noise-suppression transform.
//!
//! A host delivers audio in callbacks of arbitrary size; the transform only
//! accepts hops of a fixed size and may take its time over each. This crate
//! holds the logic that bridges the two without ever making the callback
//! wait:
//!
//! - [`config`]: the suppression parameters and the store that hands them,
//!   with a revision counter, from the host to the audio side;
//! - [`transport`]: the two fixed-capacity sample queues between the
//!   callback and the worker;
//! - [`worker`]: the state machine of the worker that owns the transform
//!   and feeds it hop by hop;
//! - [`adapter`]: the callback side, which replaces the worker when the
//!   configuration moves, exchanges samples with it and fills what is
//!   missing;
//! - [`synchronous`]: the threadless variant that processes hops inside
//!   the callback;
//! - [`instrumentation`]: timing statistics of the worker's hops;
//! - [`sample`]: samples and frames.
//!
//! Samples are carried as the bit patterns of IEEE 754 single-precision
//! numbers (`u32`), so that every value the host hands in can be moved,
//! queued and handed back unchanged. The transform itself, the threads
//! and the arithmetic on samples belong to whoever uses the crate.

pub mod adapter;
pub mod config;
pub mod instrumentation;
pub mod sample;
pub mod synchronous;
pub mod transport;
pub mod worker;
