use vstd::prelude::*;

pub mod enrich;
pub mod hotkey;
pub mod laws;
pub mod prompts;
pub mod window;

verus! {

} // verus!
