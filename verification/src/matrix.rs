use vstd::prelude::*;

verus! {

/// Error signalled by `set` when the supplied coordinate lies outside the
/// grid; out-of-bounds writes are a recoverable condition, never a panic.
#[derive(Clone, Copy, Debug, PartialEq, Eq, Structural)]
pub enum ErrorKind {
    InvalidIndex,
}

/// A rectangular two-dimensional grid of `T`, owned as one flat vector in
/// row-major order: the element at coordinate `(r, c)` occupies position
/// `r * cols + c` of the storage, and the storage holds exactly
/// `rows * cols` elements.
pub struct Matrix<T: Clone> {
    data: Vec<T>,
    rows: usize,
    cols: usize,
}

/// The linearized position of coordinate `(r, c)` in a row-major grid with
/// `cols` columns.
pub open spec fn linear(r: int, c: int, cols: int) -> int {
    r * cols + c
}

/// For an in-bounds coordinate, the row-major position stays strictly inside
/// the `rows * cols` storage; in particular a column that has been checked
/// against `cols` can never alias into a later row.
pub proof fn lemma_linear_in_range(r: int, c: int, rows: int, cols: int)
    requires
        0 <= r < rows,
        0 <= c < cols,
    ensures
        0 <= linear(r, c, cols) < rows * cols,
{
    assert(r * cols + c < rows * cols) by (nonlinear_arith)
        requires
            0 <= r < rows,
            0 <= c < cols,
    ;
    assert(0 <= r * cols + c) by (nonlinear_arith)
        requires
            0 <= r,
            0 <= c,
            0 <= cols,
    ;
}

impl<T: Clone> Matrix<T> {
    /// The number of rows, as specifications see it.
    pub closed spec fn spec_rows(&self) -> int {
        self.rows as int
    }

    /// The number of columns, as specifications see it.
    pub closed spec fn spec_cols(&self) -> int {
        self.cols as int
    }

    /// The stored elements, in row-major order.
    pub closed spec fn contents(&self) -> Seq<T> {
        self.data@
    }

    /// Well-formedness: the storage length is exactly `rows * cols`. Every
    /// constructor establishes this and every operation preserves it.
    pub open spec fn wf(&self) -> bool {
        self.contents().len() == self.spec_rows() * self.spec_cols()
    }

    /// Whether `(r, c)` addresses an element: the row and the column are each
    /// checked independently against the grid's dimensions.
    pub open spec fn in_bounds(&self, r: int, c: int) -> bool {
        &&& 0 <= r < self.spec_rows()
        &&& 0 <= c < self.spec_cols()
    }

    /// The element stored at coordinate `(r, c)`.
    pub open spec fn spec_at(&self, r: int, c: int) -> T {
        self.contents()[linear(r, c, self.spec_cols())]
    }

    /// Initializes the matrix with a given value: every one of the
    /// `rows * cols` elements is a clone of `val`.
    pub fn with_val(rows: usize, cols: usize, val: T) -> (m: Self)
        requires
            rows * cols <= usize::MAX,
        ensures
            m.wf(),
            m.spec_rows() == rows,
            m.spec_cols() == cols,
            m.contents().len() == rows * cols,
            forall|i: int| 0 <= i < m.contents().len() ==> cloned::<T>(val, #[trigger] m.contents()[i]),
    {
        Matrix { data: vec![val; rows * cols], rows, cols }
    }

    /// Returns the number of rows in the matrix.
    pub fn rows(&self) -> (r: usize)
        ensures
            r == self.spec_rows(),
    {
        self.rows
    }

    /// Returns the number of columns in the matrix.
    pub fn cols(&self) -> (r: usize)
        ensures
            r == self.spec_cols(),
    {
        self.cols
    }

    /// Returns the total number of elements in the matrix, which always
    /// equals `rows * cols`.
    pub fn size(&self) -> (r: usize)
        requires
            self.wf(),
        ensures
            r == self.contents().len(),
            r == self.spec_rows() * self.spec_cols(),
    {
        self.data.len()
    }

    /// Retrieves a reference to the element of the matrix given a coordinate
    /// tuple, where the first element is the row index and the second element
    /// is the column index. Returns `None` if the provided coordinates are
    /// out of bounds; out-of-range coordinates are a normal outcome, never a
    /// panic. The row and the column are each validated against the grid's
    /// own dimensions before linearizing.
    pub fn get(&self, coord: (usize, usize)) -> (r: Option<&T>)
        requires
            self.wf(),
        ensures
            r is Some <==> self.in_bounds(coord.0 as int, coord.1 as int),
            r matches Some(v) ==> *v == self.spec_at(coord.0 as int, coord.1 as int),
    {
        if coord.0 < self.rows && coord.1 < self.cols {
            proof {
                lemma_linear_in_range(coord.0 as int, coord.1 as int, self.spec_rows(), self.spec_cols());
                vstd::std_specs::vec::axiom_spec_len(&self.data);
            }
            Some(&self.data[coord.0 * self.cols + coord.1])
        } else {
            None
        }
    }

    /// Similar to `get`, except the returned reference is mutable. When the
    /// coordinate is in bounds, the only change to the grid is whatever the
    /// caller writes through the returned reference; when it is out of
    /// bounds, the grid is left exactly as it was.
    pub fn get_mut(&mut self, coord: (usize, usize)) -> (r: Option<&mut T>)
        requires
            old(self).wf(),
        ensures
            r is Some <==> old(self).in_bounds(coord.0 as int, coord.1 as int),
            r is Some ==> {
                &&& *r.unwrap() == old(self).spec_at(coord.0 as int, coord.1 as int)
                &&& final(self).contents() == old(self).contents().update(
                    linear(coord.0 as int, coord.1 as int, old(self).spec_cols()),
                    *final(r.unwrap()),
                )
                &&& final(self).spec_rows() == old(self).spec_rows()
                &&& final(self).spec_cols() == old(self).spec_cols()
                &&& final(self).wf()
            },
            r is None ==> *final(self) == *old(self),
    {
        if coord.0 < self.rows && coord.1 < self.cols {
            proof {
                lemma_linear_in_range(coord.0 as int, coord.1 as int, self.spec_rows(), self.spec_cols());
                vstd::std_specs::vec::axiom_spec_len(&self.data);
            }
            Some(&mut self.data[coord.0 * self.cols + coord.1])
        } else {
            None
        }
    }

    /// Sets the value at the provided coordinate to the new value. Succeeds
    /// exactly on in-bounds coordinates, overwriting that one element;
    /// otherwise the grid is left unmodified and `InvalidIndex` is returned.
    pub fn set(&mut self, coord: (usize, usize), new_val: T) -> (r: Result<(), ErrorKind>)
        requires
            old(self).wf(),
        ensures
            r is Ok <==> old(self).in_bounds(coord.0 as int, coord.1 as int),
            r is Ok ==> final(self).contents() == old(self).contents().update(
                linear(coord.0 as int, coord.1 as int, old(self).spec_cols()),
                new_val,
            ),
            r is Err ==> r == Result::<(), ErrorKind>::Err(ErrorKind::InvalidIndex)
                && *final(self) == *old(self),
            final(self).spec_rows() == old(self).spec_rows(),
            final(self).spec_cols() == old(self).spec_cols(),
            final(self).wf(),
    {
        let x = match self.get_mut(coord) {
            Some(x) => x,
            None => {
                return Err(ErrorKind::InvalidIndex);
            },
        };
        *x = new_val;
        Ok(())
    }

    /// Direct read access for callers that have already established that the
    /// coordinate is in bounds (the first tuple element is the row index, the
    /// second the column index). On an out-of-bounds coordinate this
    /// operation aborts deterministically rather than returning a value; it
    /// must not be used on unvalidated coordinates.
    pub fn index(&self, coord: (usize, usize)) -> (r: &T)
        requires
            self.wf(),
            self.in_bounds(coord.0 as int, coord.1 as int),
        ensures
            *r == self.spec_at(coord.0 as int, coord.1 as int),
    {
        if coord.0 < self.rows && coord.1 < self.cols {
            proof {
                lemma_linear_in_range(coord.0 as int, coord.1 as int, self.spec_rows(), self.spec_cols());
                vstd::std_specs::vec::axiom_spec_len(&self.data);
            }
            &self.data[coord.0 * self.cols + coord.1]
        } else {
            unreached()
        }
    }

    /// Round trip through the safe accessors: the grid state that a
    /// successful `set` of `v` at an in-bounds `(r, c)` ensures is one on
    /// which `get` at `(r, c)` returns exactly `v`.
    pub proof fn lemma_set_get_round_trip(pre: Self, post: Self, r: int, c: int, v: T)
        requires
            pre.wf(),
            pre.in_bounds(r, c),
            post.spec_rows() == pre.spec_rows(),
            post.spec_cols() == pre.spec_cols(),
            post.contents() == pre.contents().update(linear(r, c, pre.spec_cols()), v),
        ensures
            post.wf(),
            post.in_bounds(r, c),
            post.spec_at(r, c) == v,
    {
        lemma_linear_in_range(r, c, pre.spec_rows(), pre.spec_cols());
    }
}

impl<T: Clone + Default> Matrix<T> {
    /// Creates a new matrix filled with the default value from `T`: every one
    /// of the `rows * cols` elements is obtained from one call of
    /// `T::default`, cloned into place.
    pub fn new(rows: usize, cols: usize) -> (m: Self)
        requires
            rows * cols <= usize::MAX,
        ensures
            m.wf(),
            m.spec_rows() == rows,
            m.spec_cols() == cols,
            m.contents().len() == rows * cols,
            exists|d: T|
                #[trigger] call_ensures(T::default, (), d) && forall|i: int|
                    0 <= i < m.contents().len() ==> cloned::<T>(d, #[trigger] m.contents()[i]),
    {
        Self::with_val(rows, cols, T::default())
    }
}

} // verus!
