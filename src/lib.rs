//! Reads basic metadata (duration, resolution, frame rate, codec) of a video
//! out of the JSON report of an external media prober, and interprets the
//! outcome of the file and folder dialogs.
use vstd::prelude::*;

pub mod json;
pub mod rate;
pub mod probe;
pub mod decode;
pub mod dialog;

verus! {

} // verus!
