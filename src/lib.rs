//! The core of a speech bridge between a user interface and two native
//! engines: transcription (audio to text) and synthesis (text to audio).
//!
//! - `codec`: 16-bit little-endian PCM bytes to integer samples.
//! - `registry`: the swappable transcription model slot and the transcript
//!   built from the engine's segments.
//! - `worker`: the bounded request queue that feeds the single synthesis
//!   engine, and the replies it sends back.
use vstd::prelude::*;

pub mod codec;
pub mod registry;
pub mod worker;

verus! {

} // verus!
