//! Verified decision logic of the TextQuest in-process hook layer.
use vstd::prelude::*;

pub mod hooks;
pub mod text;

verus! {

} // verus!
