//! Positions in the source text.
use vstd::prelude::*;

verus! {

/// A place in the source: the 1-based line and the absolute offset, counted
/// in characters from the start of the text.
#[derive(Debug, Clone, Copy, Hash, PartialEq, Eq, Structural)]
pub struct CodeLocation {
    pub line: usize,
    pub abs_position: usize,
}

impl CodeLocation {
    pub fn new(line: usize, abs_position: usize) -> (location: Self)
        ensures
            location == (CodeLocation { line, abs_position }),
    {
        Self { line, abs_position }
    }

    pub fn line_number(&self) -> (line: usize)
        ensures
            line == self.line,
    {
        self.line
    }

    pub fn absolute_position(&self) -> (position: usize)
        ensures
            position == self.abs_position,
    {
        self.abs_position
    }

    /// The location of the first character of any text.
    pub open spec fn origin() -> CodeLocation {
        CodeLocation { line: 1, abs_position: 0 }
    }
}

impl Default for CodeLocation {
    fn default() -> (location: Self)
        ensures
            location == CodeLocation::origin(),
    {
        Self { line: 1, abs_position: 0 }
    }
}

} // verus!
