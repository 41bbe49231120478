//! Source positions.

use vstd::prelude::*;

verus! {

/// A location (line, column) in a script. Used for diagnostics only.
#[derive(Debug, Clone, Copy, PartialEq, Eq, Structural, Hash)]
pub struct Position {
    pub line: u16,
    pub pos: u16,
}

impl Position {
    /// Create a `Position` at the given line and column.
    pub fn new(line: u16, position: u16) -> (p: Position)
        ensures
            p.line == line,
            p.pos == position,
    {
        Position { line, pos: position }
    }

    /// The `Position` that stands for "no position".
    pub open spec fn spec_none() -> Position {
        Position { line: 0, pos: 0 }
    }

    /// Create a `Position` that stands for "no position".
    #[verifier::when_used_as_spec(spec_none)]
    pub fn none() -> (p: Position)
        ensures
            p == Position::spec_none(),
    {
        Position { line: 0, pos: 0 }
    }

    /// Is there no position?
    pub fn is_none(&self) -> (b: bool)
        ensures
            b == (self.line == 0 && self.pos == 0),
    {
        self.line == 0 && self.pos == 0
    }
}

} // verus!
