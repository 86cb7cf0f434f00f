//! Square matrices of scalars: storage, and the operations that only move
//! entries around.

use vstd::prelude::*;
use crate::scalar::Scalar;
use crate::scalar::ONE_KEY;
use crate::scalar::ZERO_KEY;

verus! {

/// A square matrix, stored by rows.
#[derive(Clone, Debug)]
pub struct Matrice {
    pub size: usize,
    pub data: Vec<Vec<Scalar>>,
}

/// The index in a matrix of the row or column that lands at `i` once the row
/// or column `gap` is struck out.
pub open spec fn skipping(i: int, gap: int) -> int {
    if i < gap {
        i
    } else {
        i + 1
    }
}

/// A minor with the sign of its place in the cofactor expansion.
pub open spec fn signed_minor(row: int, column: int, minor: Scalar) -> Scalar {
    if (row + column) % 2 != 0 {
        minor.negation()
    } else {
        minor
    }
}

impl Matrice {
    /// The matrix has `size` rows of `size` entries each.
    pub open spec fn well_formed(&self) -> bool {
        &&& self.data@.len() == self.size
        &&& forall|r: int| 0 <= r < self.size ==> (#[trigger] self.data@[r])@.len() == self.size
    }

    /// The entry in row `r`, column `c`.
    pub open spec fn entry(&self, r: int, c: int) -> Scalar {
        self.data@[r]@[c]
    }

    /// Both matrices have the same size and the same entries.
    pub open spec fn same_entries(&self, other: &Matrice) -> bool {
        &&& self.size == other.size
        &&& forall|r: int, c: int|
            0 <= r < self.size && 0 <= c < self.size ==> self.entry(r, c) == other.entry(r, c)
    }

    /// Both matrices have the same size and numerically equal entries.
    pub open spec fn equal(&self, other: &Matrice) -> bool {
        &&& self.size == other.size
        &&& forall|r: int, c: int|
            0 <= r < self.size && 0 <= c < self.size ==> self.entry(r, c).equal(other.entry(r, c))
    }

    /// The matrix has exactly the given rows.
    pub open spec fn has_rows(&self, rows: Seq<Seq<Scalar>>) -> bool {
        &&& self.size == rows.len()
        &&& forall|r: int, c: int|
            0 <= r < self.size && 0 <= c < self.size ==> self.entry(r, c) == rows[r][c]
    }

    /// The matrix is the identity of its size.
    pub open spec fn is_identity(&self) -> bool {
        forall|r: int, c: int|
            0 <= r < self.size && 0 <= c < self.size ==> self.entry(r, c).key == if r == c {
                ONE_KEY
            } else {
                ZERO_KEY
            }
    }

    /// `self` is `other` mirrored at its diagonal.
    pub open spec fn is_transpose_of(&self, other: &Matrice) -> bool {
        &&& self.size == other.size
        &&& forall|r: int, c: int|
            0 <= r < self.size && 0 <= c < self.size ==> self.entry(r, c) == other.entry(c, r)
    }

    /// `self` is `other` without its row `row` and its column `column`.
    pub open spec fn is_submatrix_of(&self, other: &Matrice, row: int, column: int) -> bool {
        &&& self.size + 1 == other.size
        &&& forall|r: int, c: int|
            0 <= r < self.size && 0 <= c < self.size ==> self.entry(r, c) == other.entry(
                skipping(r, row),
                skipping(c, column),
            )
    }

    /// The matrix of the given size with every entry positive zero.
    pub fn new(size: usize) -> (m: Matrice)
        ensures
            m.well_formed(),
            m.size == size,
            forall|r: int, c: int| 0 <= r < size && 0 <= c < size ==> m.entry(r, c).key == ZERO_KEY,
    {
        let mut data: Vec<Vec<Scalar>> = Vec::new();
        let mut r: usize = 0;
        while r < size
            invariant
                r <= size,
                data@.len() == r,
                forall|i: int| 0 <= i < r ==> (#[trigger] data@[i])@.len() == size,
                forall|i: int, j: int|
                    0 <= i < r && 0 <= j < size ==> (#[trigger] data@[i]@[j]).key == ZERO_KEY,
            decreases size - r,
        {
            let mut row: Vec<Scalar> = Vec::new();
            let mut c: usize = 0;
            while c < size
                invariant
                    c <= size,
                    row@.len() == c,
                    forall|j: int| 0 <= j < c ==> (#[trigger] row@[j]).key == ZERO_KEY,
                decreases size - c,
            {
                row.push(Scalar::zero());
                c += 1;
            }
            data.push(row);
            r += 1;
        }
        Matrice { size, data }
    }

    /// The number of rows, which is the number of columns.
    pub fn size(&self) -> (n: usize)
        ensures
            n == self.size,
    {
        self.size
    }

    /// The entry in the given row and column.
    pub fn element_at(&self, row: usize, column: usize) -> (e: Scalar)
        requires
            self.well_formed(),
            row < self.size,
            column < self.size,
        ensures
            e == self.entry(row as int, column as int),
    {
        self.data[row][column]
    }

    /// Sets the entry in the given row and column; every other entry stays.
    pub fn write_element(&mut self, row: usize, column: usize, element: Scalar)
        requires
            old(self).well_formed(),
            row < old(self).size,
            column < old(self).size,
        ensures
            final(self).well_formed(),
            final(self).size == old(self).size,
            final(self).entry(row as int, column as int) == element,
            forall|r: int, c: int|
                0 <= r < old(self).size && 0 <= c < old(self).size && !(r == row && c == column)
                    ==> final(self).entry(r, c) == old(self).entry(r, c),
    {
        self.data[row][column] = element;
    }

    /// The 4×4 identity, the transform that moves nothing.
    pub fn identity() -> (m: Matrice)
        ensures
            m.well_formed(),
            m.size == 4,
            m.is_identity(),
    {
        let mut out = Matrice::new(4);
        let mut ix: usize = 0;
        while ix < 4
            invariant
                ix <= 4,
                out.well_formed(),
                out.size == 4,
                forall|r: int, c: int|
                    0 <= r < 4 && 0 <= c < 4 ==> out.entry(r, c).key == if r == c && r < ix {
                        ONE_KEY
                    } else {
                        ZERO_KEY
                    },
            decreases 4 - ix,
        {
            out.write_element(ix, ix, Scalar::one());
            ix += 1;
        }
        out
    }

    /// The matrix mirrored at its diagonal.
    pub fn transpose(&self) -> (m: Matrice)
        requires
            self.well_formed(),
        ensures
            m.well_formed(),
            m.is_transpose_of(self),
    {
        let mut data: Vec<Vec<Scalar>> = Vec::new();
        let mut ix: usize = 0;
        while ix < self.size
            invariant
                self.well_formed(),
                ix <= self.size,
                data@.len() == ix,
                forall|i: int| 0 <= i < ix ==> (#[trigger] data@[i])@.len() == self.size,
                forall|i: int, j: int|
                    0 <= i < ix && 0 <= j < self.size ==> #[trigger] data@[i]@[j] == self.entry(j, i),
            decreases self.size - ix,
        {
            let mut row: Vec<Scalar> = Vec::new();
            let mut jx: usize = 0;
            while jx < self.size
                invariant
                    self.well_formed(),
                    ix < self.size,
                    jx <= self.size,
                    row@.len() == jx,
                    forall|j: int| 0 <= j < jx ==> #[trigger] row@[j] == self.entry(j, ix as int),
                decreases self.size - jx,
            {
                row.push(self.data[jx][ix]);
                jx += 1;
            }
            data.push(row);
            ix += 1;
        }
        Matrice { size: self.size, data }
    }

    /// The matrix without one row and one column.
    pub fn submatrix(&self, r: usize, c: usize) -> (m: Matrice)
        requires
            self.well_formed(),
            r < self.size,
            c < self.size,
        ensures
            m.well_formed(),
            m.is_submatrix_of(self, r as int, c as int),
    {
        let mut data: Vec<Vec<Scalar>> = Vec::new();
        let mut row: usize = 0;
        while row < self.size
            invariant
                self.well_formed(),
                r < self.size,
                c < self.size,
                row <= self.size,
                data@.len() == (if row <= r { row as int } else { row - 1 }),
                forall|i: int| 0 <= i < data@.len() ==> (#[trigger] data@[i])@.len() == self.size - 1,
                forall|i: int, j: int|
                    0 <= i < data@.len() && 0 <= j < self.size - 1 ==> #[trigger] data@[i]@[j]
                        == self.entry(skipping(i, r as int), skipping(j, c as int)),
            decreases self.size - row,
        {
            if row != r {
                let mut row_to_add: Vec<Scalar> = Vec::new();
                let mut column: usize = 0;
                while column < self.size
                    invariant
                        self.well_formed(),
                        c < self.size,
                        row < self.size,
                        column <= self.size,
                        row_to_add@.len() == (if column <= c { column as int } else { column - 1 }),
                        forall|j: int|
                            0 <= j < row_to_add@.len() ==> #[trigger] row_to_add@[j] == self.entry(
                                row as int,
                                skipping(j, c as int),
                            ),
                    decreases self.size - column,
                {
                    if column != c {
                        row_to_add.push(self.element_at(row, column));
                    }
                    column += 1;
                }
                data.push(row_to_add);
            }
            row += 1;
        }
        Matrice { size: self.size - 1, data }
    }

    /// The cofactor that belongs to a minor: the minor itself where the sum
    /// of its row and column is even, the minor with its sign flipped where
    /// the sum is odd.
    pub fn cofactor(row: usize, column: usize, minor: Scalar) -> (c: Scalar)
        ensures
            c == signed_minor(row as int, column as int, minor),
    {
        if row % 2 != column % 2 {
            minor.negate()
        } else {
            minor
        }
    }

    /// The inverse of the matrix, put together from its determinant and
    /// from `quotients`, whose entry in row `r` and column `c` is the
    /// cofactor of that place over the determinant: both the caller's
    /// arithmetic. The inverse is the transpose of the quotients. A matrix
    /// whose determinant is zero has no inverse.
    pub fn inverse(&self, determinant: Scalar, quotients: &Matrice) -> (r: Option<Matrice>)
        requires
            quotients.well_formed(),
            quotients.size == self.size,
        ensures
            r is None <==> determinant.equal(Scalar { key: ZERO_KEY }),
            r matches Some(m) ==> m.well_formed() && m.size == self.size && m.is_transpose_of(
                quotients,
            ),
    {
        if determinant.is_equal(Scalar::zero()) {
            None
        } else {
            Some(quotients.transpose())
        }
    }

    /// Whether two matrices have the same size and numerically equal
    /// entries.
    pub fn is_equal(&self, other: &Matrice) -> (r: bool)
        requires
            self.well_formed(),
            other.well_formed(),
        ensures
            r == self.equal(other),
    {
        if self.size != other.size {
            return false;
        }
        let mut ix: usize = 0;
        while ix < self.size
            invariant
                self.well_formed(),
                other.well_formed(),
                self.size == other.size,
                ix <= self.size,
                forall|i: int, j: int|
                    0 <= i < ix && 0 <= j < self.size ==> self.entry(i, j).equal(other.entry(i, j)),
            decreases self.size - ix,
        {
            let mut jx: usize = 0;
            while jx < self.size
                invariant
                    self.well_formed(),
                    other.well_formed(),
                    self.size == other.size,
                    ix < self.size,
                    jx <= self.size,
                    forall|j: int|
                        0 <= j < jx ==> self.entry(ix as int, j).equal(other.entry(ix as int, j)),
                decreases self.size - jx,
            {
                if !self.data[ix][jx].is_equal(other.data[ix][jx]) {
                    assert(!self.entry(ix as int, jx as int).equal(other.entry(ix as int, jx as int)));
                    return false;
                }
                jx += 1;
            }
            ix += 1;
        }
        true
    }
}

impl Default for Matrice {
    /// The 4×4 identity.
    fn default() -> (m: Matrice)
        ensures
            m.well_formed(),
            m.size == 4,
            m.is_identity(),
    {
        Matrice::identity()
    }
}

/// Mirroring twice gives the matrix back, and the identity is its own
/// mirror image.
pub proof fn law_transpose_involution(m: Matrice, t: Matrice, tt: Matrice)
    requires
        t.is_transpose_of(&m),
        tt.is_transpose_of(&t),
    ensures
        tt.same_entries(&m),
        m.is_identity() ==> t.is_identity(),
{
}

/// The order in which a row and a column are struck out does not matter to
/// what remains of the other rows and columns: striking row and column `a`,
/// then row and column `b` of the rest, leaves the entries that striking
/// `b + 1`, then `a`, leaves, where `a <= b`.
pub proof fn law_submatrix_commutes(
    m: Matrice,
    a: int,
    b: int,
    first: Matrice,
    first_then: Matrice,
    second: Matrice,
    second_then: Matrice,
)
    requires
        0 <= a <= b,
        b + 1 < m.size,
        first.is_submatrix_of(&m, a, a),
        first_then.is_submatrix_of(&first, b, b),
        second.is_submatrix_of(&m, b + 1, b + 1),
        second_then.is_submatrix_of(&second, a, a),
    ensures
        first_then.same_entries(&second_then),
{
    assert forall|r: int, c: int|
        0 <= r < first_then.size && 0 <= c < first_then.size implies first_then.entry(r, c)
        == second_then.entry(r, c) by {
        assert(first_then.entry(r, c) == first.entry(skipping(r, b), skipping(c, b)));
        assert(second_then.entry(r, c) == second.entry(skipping(r, a), skipping(c, a)));
    }
}

} // verus!
