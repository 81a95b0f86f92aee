//! A lazily polled sequence over a single-reader stream resource.
//!
//! The adapter in [`into_stream`] owns a reader handle and at most one
//! in-flight read. The code that drives it issues the reads, waits on them
//! and hands their outcomes back; every decision is taken here.

pub mod into_stream;
pub mod lemmas;
