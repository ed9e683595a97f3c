use vstd::prelude::*;

pub mod board;
pub mod laws;
pub mod reaction;
pub mod store;
pub mod text;
pub mod watched;

verus! {

} // verus!
