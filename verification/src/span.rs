//! Half-open ranges of character offsets into the source text.

use vstd::prelude::*;
use vstd::string::StrSliceExecFns;

verus! {

/// An immutable half-open range `[start, end)` of character offsets into the
/// original source text.  Every token and every syntax-tree node carries one.
#[derive(Clone, Copy, PartialEq, Eq, Structural, Debug)]
pub struct Span {
    pub start: usize,
    pub end: usize,
}

impl Span {
    /// A span is well formed when it is a non-decreasing range.
    pub open spec fn wf(self) -> bool {
        self.start <= self.end
    }

    /// The enclosing range of two spans: from the smaller start to the
    /// larger end.
    pub open spec fn spec_merge(self, other: Span) -> Span {
        Span {
            start: if self.start <= other.start {
                self.start
            } else {
                other.start
            },
            end: if self.end >= other.end {
                self.end
            } else {
                other.end
            },
        }
    }

    pub fn from_range(start: usize, end: usize) -> (s: Span)
        ensures
            s == (Span { start, end }),
    {
        Span { start, end }
    }

    /// Merge two ranges into their enclosing range.
    pub fn merge(self, other: Span) -> (s: Span)
        ensures
            s == self.spec_merge(other),
    {
        let start: usize = if self.start <= other.start {
            self.start
        } else {
            other.start
        };
        let end: usize = if self.end >= other.end {
            self.end
        } else {
            other.end
        };
        Span { start, end }
    }

    /// Extract the substring of `source` that this span denotes.
    pub fn slice<'a>(&self, source: &'a str) -> (r: &'a str)
        requires
            self.start <= self.end <= source@.len(),
        ensures
            r@ == source@.subrange(self.start as int, self.end as int),
    {
        source.substring_char(self.start, self.end)
    }
}

} // verus!
