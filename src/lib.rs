use vstd::prelude::*;

pub mod autosplitter;
pub mod game;
pub mod sample;

verus! {

} // verus!
