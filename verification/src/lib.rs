//! An on-demand image resizing pipeline: given source bytes for a path and
//! optional target dimensions, decode them, plan the target size
//! (aspect-ratio preserving), resample, re-encode as JPEG, and map the
//! outcome to an HTTP response with a cache-control policy.

pub mod codec;
pub mod dims;
pub mod pipeline;
pub mod policy;
pub mod query;
pub mod resample;
pub mod source;
