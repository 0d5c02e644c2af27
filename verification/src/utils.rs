//! Small helpers for building syntax trees by hand: a placeholder span and
//! a size budget that bounds how deep a generated tree may grow.
use vstd::prelude::*;
use crate::ast::{SourcePos, SourceSpan};

verus! {

/// A placeholder span at the start of the first line, for trees that were
/// not parsed from source.
pub fn dummy_span() -> (r: SourceSpan)
    ensures
        r.start == (SourcePos { offset: 0, line: 1, column: 1 }),
        r.end == (SourcePos { offset: 0, line: 1, column: 1 }),
{
    SourceSpan {
        start: SourcePos { offset: 0, line: 1, column: 1 },
        end: SourcePos { offset: 0, line: 1, column: 1 },
    }
}

/// A size budget for building recursive trees: each level of nesting takes
/// from it, so that a tree built within a budget is finite.
#[derive(Debug, Clone, Copy, PartialEq, Eq, Structural, PartialOrd, Ord)]
pub struct Size(pub usize);

impl Size {
    pub fn new(n: usize) -> (r: Self)
        ensures
            r.0 == n,
    {
        Size(n)
    }

    /// Half the budget, rounded down.
    pub fn half(self) -> (r: Self)
        ensures
            r.0 == self.0 / 2,
    {
        Size(self.0 / 2)
    }

    pub fn is_zero(self) -> (r: bool)
        ensures
            r == (self.0 == 0),
    {
        self.0 == 0
    }

    /// One less, and zero stays zero.
    pub fn decrement(self) -> (r: Self)
        ensures
            r.0 == if self.0 == 0 {
                0
            } else {
                self.0 - 1
            },
    {
        Size(self.0.saturating_sub(1))
    }
}

} // verus!
