//! The interactive editor as the session layer sees it: the terminal
//! dimensions the embedded program is currently bound to. Spawning the
//! external program inside its pseudo-terminal, and watching for its exit,
//! is the process manager's business outside this library; the session logic
//! only ever reads and propagates the dimensions modelled here.

use vstd::prelude::*;

verus! {

/// The terminal-size state of one embedded editor instance.
pub struct Editor {
    pub rows: u16,
    pub cols: u16,
}

impl Editor {
    /// A fresh editor bound to the given terminal dimensions.
    pub fn new(rows: u16, cols: u16) -> (e: Editor)
        ensures
            e.rows == rows,
            e.cols == cols,
    {
        Editor { rows, cols }
    }

    /// Propagates a live terminal dimension change: afterwards the editor is
    /// bound to exactly the new dimensions.
    pub fn resize(&mut self, rows: u16, cols: u16)
        ensures
            final(self).rows == rows,
            final(self).cols == cols,
    {
        self.rows = rows;
        self.cols = cols;
    }
}

} // verus!
