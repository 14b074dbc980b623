use vstd::prelude::*;

pub mod evaluation;
pub mod laws;
pub mod openapi;
pub mod reply;
pub mod service;

verus! {
} // verus!
