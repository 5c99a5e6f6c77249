//! Source locations: the positions a syntax tree reports, the positions a
//! diagnostic carries, and the mapping from the first to the second.

use vstd::prelude::*;

verus! {

/// A place in the script as the syntax tree counts it: zero-based row and
/// zero-based column.
#[derive(Clone, Copy, Debug, PartialEq, Eq, Structural)]
pub struct Point {
    pub row: usize,
    pub column: usize,
}

/// The stretch of the script that one syntax node covers.
#[derive(Clone, Copy, Debug, PartialEq, Eq, Structural)]
pub struct SourceRange {
    pub start: Point,
    pub end: Point,
}

/// A place in the document as a diagnostic reports it: zero-based line and
/// zero-based character offset.
#[derive(Clone, Copy, Debug, PartialEq, Eq, Structural)]
pub struct Position {
    pub line: u32,
    pub character: u32,
}

/// The stretch of the document that a diagnostic points at.
#[derive(Clone, Copy, Debug, PartialEq, Eq, Structural)]
pub struct Range {
    pub start: Position,
    pub end: Position,
}

impl SourceRange {
    /// Every coordinate can be written in the 32 bits that a diagnostic
    /// position has for it.
    pub open spec fn fits(self) -> bool {
        &&& self.start.row <= u32::MAX
        &&& self.start.column <= u32::MAX
        &&& self.end.row <= u32::MAX
        &&& self.end.column <= u32::MAX
    }

    /// Decides `fits`.
    pub fn check_fits(&self) -> (r: bool)
        ensures
            r == self.fits(),
    {
        self.start.row <= 0xffff_ffff && self.start.column <= 0xffff_ffff
            && self.end.row <= 0xffff_ffff && self.end.column <= 0xffff_ffff
    }
}

/// The diagnostic range with the same rows and columns as `range`.
pub open spec fn lsp_range(range: SourceRange) -> Range {
    Range {
        start: Position { line: range.start.row as u32, character: range.start.column as u32 },
        end: Position { line: range.end.row as u32, character: range.end.column as u32 },
    }
}

/// Re-wraps a syntax-tree range as a diagnostic range. Rows become lines and
/// columns become characters, value for value; a coordinate that 32 bits
/// cannot hold is outside what this function takes.
pub fn to_lsp(range: SourceRange) -> (r: Range)
    requires
        range.fits(),
    ensures
        r == lsp_range(range),
        r.start.line == range.start.row,
        r.start.character == range.start.column,
        r.end.line == range.end.row,
        r.end.character == range.end.column,
{
    Range {
        start: Position {
            line: u32::try_from(range.start.row).unwrap(),
            character: u32::try_from(range.start.column).unwrap(),
        },
        end: Position {
            line: u32::try_from(range.end.row).unwrap(),
            character: u32::try_from(range.end.column).unwrap(),
        },
    }
}

} // verus!
