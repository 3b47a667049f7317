//! The cursor and mode state of the Markdown editor widget.

use vstd::prelude::*;

verus! {

/// A cursor position: a line and a column.
#[derive(Debug, Clone, Copy, PartialEq, Eq, Structural)]
pub struct Cursor {
    line: usize,
    column: usize,
}

impl Cursor {
    /// The line of the cursor.
    pub closed spec fn spec_line(&self) -> usize {
        self.line
    }

    /// The column of the cursor.
    pub closed spec fn spec_column(&self) -> usize {
        self.column
    }

    /// A cursor at the given line and column.
    pub fn new(line: usize, column: usize) -> (c: Self)
        ensures
            c.spec_line() == line,
            c.spec_column() == column,
    {
        Cursor { line, column }
    }

    /// The line of the cursor.
    pub fn line(&self) -> (r: usize)
        ensures
            r == self.spec_line(),
    {
        self.line
    }

    /// The column of the cursor.
    pub fn column(&self) -> (r: usize)
        ensures
            r == self.spec_column(),
    {
        self.column
    }

    /// The line and the column of the cursor.
    pub fn line_and_column(&self) -> (r: (usize, usize))
        ensures
            r == (self.spec_line(), self.spec_column()),
    {
        (self.line, self.column)
    }
}

/// How the editor shows a document.
#[derive(Debug, Clone, Copy, PartialEq, Eq, Structural)]
pub enum EditorMode {
    /// The raw Markdown only.
    Edit,
    /// What you see is what you get.
    WYSIWYG,
    /// The raw Markdown beside the rendered document.
    SideBySide,
    /// The rendered document only, without editing.
    Render,
}

/// The state the editor widget keeps: the lines of the document, the mode
/// and the cursors.
#[derive(Debug)]
pub struct State {
    lines: Vec<String>,
    mode: EditorMode,
    cursors: Vec<Cursor>,
}

} // verus!
