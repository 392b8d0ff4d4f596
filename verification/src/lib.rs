use vstd::prelude::*;

pub mod clock;
pub mod error;
pub mod text;
pub mod json;
pub mod path;
pub mod models;
pub mod output;
pub mod services;

verus! {
} // verus!
