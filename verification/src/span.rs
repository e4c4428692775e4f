use vstd::prelude::*;

verus! {

/// A range of a source file, from a start offset to an end offset.
#[derive(Clone, Copy, Debug)]
pub struct Span(pub u32, pub u32);

} // verus!
