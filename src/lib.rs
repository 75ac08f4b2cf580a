//! Typed request and response models for a generative-AI HTTP API, with
//! verified payload rendering and response decoding.
use vstd::prelude::*;

pub mod decode;
pub mod endpoint;
pub mod error;
pub mod json;
pub mod model;
pub mod number;
pub mod payload;
pub mod temperature;

verus! {

} // verus!
