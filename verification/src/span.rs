use vstd::prelude::*;

verus! {

/// A half-open range `start..end` of positions in the source text.
#[derive(Debug, Clone, Copy, PartialEq, Eq, Structural)]
pub struct Span {
    pub start: usize,
    pub end: usize,
}

impl Span {
    /// Creates the span `start..end`.
    pub fn new(start: usize, end: usize) -> (span: Span)
        ensures
            span.start == start,
            span.end == end,
    {
        Span { start, end }
    }

    pub open spec fn spec_empty() -> Span {
        Span { start: 0, end: 0 }
    }

    /// The span `0..0`.
    pub fn empty() -> (span: Span)
        ensures
            span == Span::spec_empty(),
    {
        Span { start: 0, end: 0 }
    }
}

impl From<(usize, usize)> for Span {
    /// The span `start..end` of the pair `(start, end)`.
    fn from(range: (usize, usize)) -> (span: Span) {
        Span { start: range.0, end: range.1 }
    }
}

impl vstd::std_specs::convert::FromSpecImpl<(usize, usize)> for Span {
    open spec fn obeys_from_spec() -> bool {
        true
    }

    open spec fn from_spec(range: (usize, usize)) -> Span {
        Span { start: range.0, end: range.1 }
    }
}

} // verus!
