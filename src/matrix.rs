//! Row-major 4x4 matrix storage, generic over the cell type.
use vstd::prelude::*;

verus! {

/// A 4x4 matrix stored row by row: `matrix[row][col]`.
#[derive(Clone, Copy, Debug)]
pub struct Matrix4x4<T> {
    pub matrix: [[T; 4]; 4],
}

impl<T: Copy> Matrix4x4<T> {
    /// The cell at `row`, `col`.
    pub open spec fn cell(&self, row: int, col: int) -> T {
        self.matrix[row][col]
    }

    /// True when `other` is this matrix with rows and columns swapped.
    pub open spec fn is_transpose_of(&self, other: &Matrix4x4<T>) -> bool {
        forall|i: int, j: int| 0 <= i < 4 && 0 <= j < 4 ==> #[trigger] self.cell(i, j) == other.cell(j, i)
    }

    /// True when both matrices hold the same cells.
    pub open spec fn same_cells(&self, other: &Matrix4x4<T>) -> bool {
        forall|i: int, j: int| 0 <= i < 4 && 0 <= j < 4 ==> #[trigger] self.cell(i, j) == other.cell(i, j)
    }

    /// Builds a matrix from its four rows.
    pub fn new(row1: [T; 4], row2: [T; 4], row3: [T; 4], row4: [T; 4]) -> (r: Matrix4x4<T>)
        ensures
            r.matrix@ == seq![row1, row2, row3, row4],
    {
        let r = Matrix4x4 { matrix: [row1, row2, row3, row4] };
        assert(r.matrix@ =~= seq![row1, row2, row3, row4]);
        r
    }

    /// Wraps a row-major array.
    pub fn from_array(array: [[T; 4]; 4]) -> (r: Matrix4x4<T>)
        ensures
            r.matrix == array,
    {
        Matrix4x4 { matrix: array }
    }

    /// A matrix with `value` in every cell.
    pub fn filled(value: T) -> (r: Matrix4x4<T>)
        ensures
            forall|i: int, j: int| 0 <= i < 4 && 0 <= j < 4 ==> #[trigger] r.cell(i, j) == value,
    {
        let row = [value, value, value, value];
        let r = Matrix4x4 { matrix: [row, row, row, row] };
        assert forall|i: int, j: int| 0 <= i < 4 && 0 <= j < 4 implies #[trigger] r.cell(i, j) == value by {
            assert(r.matrix[i] == row);
        }
        r
    }

    /// A matrix with `on` on the main diagonal and `off` elsewhere
    /// (the identity matrix when `off` is zero and `on` is one).
    pub fn diagonal(off: T, on: T) -> (r: Matrix4x4<T>)
        ensures
            forall|i: int, j: int| 0 <= i < 4 && 0 <= j < 4 ==> #[trigger] r.cell(i, j) == (if i == j { on } else { off }),
    {
        let r = Matrix4x4 {
            matrix: [
                [on, off, off, off],
                [off, on, off, off],
                [off, off, on, off],
                [off, off, off, on],
            ],
        };
        r
    }

    /// Swaps rows and columns.
    pub fn transpose(self) -> (r: Matrix4x4<T>)
        ensures
            r.is_transpose_of(&self),
    {
        let m = self.matrix;
        Matrix4x4 {
            matrix: [
                [m[0][0], m[1][0], m[2][0], m[3][0]],
                [m[0][1], m[1][1], m[2][1], m[3][1]],
                [m[0][2], m[1][2], m[2][2], m[3][2]],
                [m[0][3], m[1][3], m[2][3], m[3][3]],
            ],
        }
    }

    /// Writes `value` into one cell; every other cell is kept.
    pub fn set(&mut self, row: usize, col: usize, value: T)
        requires
            row <= 3,
            col <= 3,
        ensures
            final(self).cell(row as int, col as int) == value,
            forall|i: int, j: int|
                0 <= i < 4 && 0 <= j < 4 && !(i == row && j == col) ==> #[trigger] final(self).cell(i, j) == old(self).cell(i, j),
    {
        let mut line = self.matrix[row];
        line[col] = value;
        self.matrix[row] = line;
    }
}

/// Transposing twice gives back the matrix it started from.
pub proof fn lemma_transpose_involutive<T: Copy>(m: Matrix4x4<T>, t: Matrix4x4<T>, tt: Matrix4x4<T>)
    requires
        t.is_transpose_of(&m),
        tt.is_transpose_of(&t),
    ensures
        tt.same_cells(&m),
        tt.matrix == m.matrix,
{
    assert forall|i: int, j: int| 0 <= i < 4 && 0 <= j < 4 implies #[trigger] tt.cell(i, j) == m.cell(i, j) by {
        assert(tt.cell(i, j) == t.cell(j, i));
        assert(t.cell(j, i) == m.cell(i, j));
    }
    assert forall|i: int| 0 <= i < 4 implies #[trigger] tt.matrix[i] == m.matrix[i] by {
        assert(tt.matrix[i]@ =~= m.matrix[i]@) by {
            assert forall|j: int| 0 <= j < 4 implies tt.matrix[i]@[j] == m.matrix[i]@[j] by {
                assert(tt.cell(i, j) == m.cell(i, j));
            }
        }
    }
    assert(tt.matrix@ =~= m.matrix@);
}

} // verus!
