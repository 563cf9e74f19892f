use vstd::prelude::*;

pub mod color;
pub mod image;
pub mod text;

verus! {

} // verus!
