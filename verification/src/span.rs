//! Byte spans locating syntax in a source text.

use vstd::prelude::*;

verus! {

/// Identifies one registered source text.
pub type SourceId = usize;

/// A half-open byte range within one source text.
#[derive(Debug, Clone, Copy, PartialEq, Eq, Structural)]
pub struct Span {
    /// Offset of the first byte covered.
    pub start: usize,
    /// Offset one past the last byte covered.
    pub end: usize,
}

impl Span {
    /// A span covering the byte range `start..end`.
    pub fn new(start: usize, end: usize) -> (s: Span)
        ensures
            s.start == start,
            s.end == end,
    {
        Span { start, end }
    }

    /// A span that points at nothing.
    pub fn empty() -> (s: Span)
        ensures
            s.start == 0,
            s.end == 0,
    {
        Span { start: 0, end: 0 }
    }

    /// The smallest span covering both `self` and `other`.
    pub fn join(self, other: Span) -> (s: Span)
        ensures
            s.start == if self.start <= other.start {
                self.start
            } else {
                other.start
            },
            s.end == if self.end >= other.end {
                self.end
            } else {
                other.end
            },
    {
        Span {
            start: if self.start <= other.start {
                self.start
            } else {
                other.start
            },
            end: if self.end >= other.end {
                self.end
            } else {
                other.end
            },
        }
    }
}

} // verus!
