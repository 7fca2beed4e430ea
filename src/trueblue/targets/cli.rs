//! Text rendering of a matrix.
use vstd::prelude::*;

verus! {

pub open spec fn cell_char(lit: bool) -> char {
    if lit {
        '*'
    } else {
        '.'
    }
}

/// Row `y` of a matrix `width` cells wide.
pub open spec fn row_text(matrix: Seq<bool>, width: nat, y: nat) -> Seq<char> {
    Seq::new(width, |x: int| cell_char(matrix[y * width + x]))
}

/// `lines` shows the first `height` rows of `matrix`, one line per row.
pub open spec fn rendered(lines: Seq<String>, matrix: Seq<bool>, width: nat, height: nat) -> bool {
    &&& lines.len() == height
    &&& forall|y: int| 0 <= y < height ==> (#[trigger] lines[y])@ == row_text(matrix, width, y as nat)
}

/// The lines that show `matrix`: `*` for a lit cell, `.` for a dark one.
pub fn display(matrix: &Vec<bool>, width: u16, height: u16) -> (r: Vec<String>)
    requires
        matrix@.len() >= width as nat * height as nat,
    ensures
        rendered(r@, matrix@, width as nat, height as nat),
{
    let mut lines: Vec<String> = Vec::new();
    let mut y: u16 = 0;
    while y < height
        invariant
            y <= height,
            matrix@.len() >= width as nat * height as nat,
            lines@.len() == y,
            forall|k: int| 0 <= k < y ==> (#[trigger] lines@[k])@ == row_text(
                matrix@,
                width as nat,
                k as nat,
            ),
        decreases height - y,
    {
        let mut line = String::new();
        let mut x: u16 = 0;
        assert(line@ =~= row_text(matrix@, width as nat, y as nat).subrange(0, 0));
        while x < width
            invariant
                x <= width,
                y < height,
                matrix@.len() >= width as nat * height as nat,
                line@ == row_text(matrix@, width as nat, y as nat).subrange(0, x as int),
            decreases width - x,
        {
            let cells = matrix.len();
            assert(cells as nat >= (width as nat) * (height as nat));
            assert((y as nat) * (width as nat) + (x as nat) < (width as nat) * (height as nat)) by (nonlinear_arith)
                requires
                    x < width,
                    y < height,
            ;
            let i: usize = y as usize * width as usize + x as usize;
            let ghost row = row_text(matrix@, width as nat, y as nat);
            assert(row.subrange(0, x + 1) =~= row.subrange(0, x as int).push(row[x as int]));
            if matrix[i] {
                proof { reveal_strlit("*"); }
                line = line.concat("*");
            } else {
                proof { reveal_strlit("."); }
                line = line.concat(".");
            }
            x = x + 1;
        }
        assert(line@ =~= row_text(matrix@, width as nat, y as nat));
        lines.push(line);
        y = y + 1;
    }
    lines
}

} // verus!
