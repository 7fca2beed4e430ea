//! A small matrix of cells shown on a display target.
use vstd::prelude::*;

pub mod targets;

verus! {

pub const DEFAULT_WIDTH: u16 = 32;

pub const DEFAULT_HEIGHT: u16 = 8;

/// Where a matrix is shown.
#[derive(Clone, Copy, Debug, PartialEq, Eq, Structural)]
pub enum Target {
    /// Text lines, `*` for a lit cell and `.` for a dark one.
    CLI,
}

impl Target {
    /// The lines that show `matrix`, row by row.
    pub fn display(&self, matrix: &Vec<bool>, width: u16, height: u16) -> (r: Vec<String>)
        requires
            matrix@.len() >= width as nat * height as nat,
        ensures
            targets::cli::rendered(r@, matrix@, width as nat, height as nat),
    {
        match self {
            Target::CLI => targets::cli::display(matrix, width, height),
        }
    }
}

/// A matrix of `width` by `height` cells, row after row, and a message.
pub struct TrueBlue {
    pub target: Target,
    pub message: String,
    pub width: u16,
    pub height: u16,
    pub matrix: Vec<bool>,
}

impl TrueBlue {
    pub open spec fn wf(&self) -> bool {
        self.matrix@.len() == self.width as nat * self.height as nat
    }

    /// A dark matrix of the default size with no message.
    pub fn new(target: Target) -> (r: TrueBlue)
        ensures
            r.wf(),
            r.target == target,
            r.message@.len() == 0,
            r.width == DEFAULT_WIDTH,
            r.height == DEFAULT_HEIGHT,
            forall|i: int| 0 <= i < r.matrix@.len() ==> !(#[trigger] r.matrix@[i]),
    {
        let cells: usize = DEFAULT_WIDTH as usize * DEFAULT_HEIGHT as usize;
        let mut matrix: Vec<bool> = Vec::new();
        while matrix.len() < cells
            invariant
                cells == DEFAULT_WIDTH as nat * DEFAULT_HEIGHT as nat,
                matrix@.len() <= cells,
                forall|i: int| 0 <= i < matrix@.len() ==> !(#[trigger] matrix@[i]),
            decreases cells - matrix@.len(),
        {
            matrix.push(false);
        }
        TrueBlue {
            target,
            message: String::new(),
            width: DEFAULT_WIDTH,
            height: DEFAULT_HEIGHT,
            matrix,
        }
    }

    /// The lines that show the matrix on its target.
    pub fn display(&self) -> (r: Vec<String>)
        requires
            self.wf(),
        ensures
            targets::cli::rendered(r@, self.matrix@, self.width as nat, self.height as nat),
    {
        self.target.display(&self.matrix, self.width, self.height)
    }
}

pub fn new(target: Target) -> (r: TrueBlue)
    ensures
        r.wf(),
        r.target == target,
        r.width == DEFAULT_WIDTH,
        r.height == DEFAULT_HEIGHT,
{
    TrueBlue::new(target)
}

} // verus!
