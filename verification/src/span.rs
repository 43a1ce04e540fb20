use vstd::prelude::*;

verus! {

/// A region of source text, identified by byte offsets into the compilation
/// unit. The analysis never interprets the offsets: it only copies spans from
/// the values it inspects into the diagnostics it produces, so equality of
/// spans is all the contracts ever need.
#[derive(Clone, Copy, Debug, PartialEq, Eq, Structural)]
pub struct Span {
    pub lo: u32,
    pub hi: u32,
}

} // verus!
