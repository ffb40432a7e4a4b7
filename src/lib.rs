//! Streaming speech-to-text coordination: the decisions that turn successive
//! transcripts of a growing recording into append-only typed text.
use vstd::prelude::*;

pub mod coordinator;
pub mod hotkey;
pub mod paths;
pub mod resample;
pub mod text;

verus! {

} // verus!
