//! The raw pressed-key bitmap that scanning the switch matrix produces.
//!
//! Driving the row lines and sampling the column lines is hardware work
//! and stays outside the library; the readings come in as plain booleans
//! (`true` means the switch at that position is closed).

use vstd::prelude::*;

verus! {

/// The bitmap `m` has `nrows` rows of `ncols` columns each.
pub open spec fn keys_dims(m: Seq<Seq<bool>>, nrows: int, ncols: int) -> bool {
    &&& m.len() == nrows
    &&& forall|r: int| 0 <= r < nrows ==> (#[trigger] m[r]).len() == ncols
}

/// The bitmap is rectangular: every row is as long as the first.
pub open spec fn keys_rect(m: Seq<Seq<bool>>) -> bool {
    forall|r: int| 0 <= r < m.len() ==> (#[trigger] m[r]).len() == m[0].len()
}

/// Two bitmaps have rows of matching lengths.
pub open spec fn same_dims(a: Seq<Seq<bool>>, b: Seq<Seq<bool>>) -> bool {
    &&& a.len() == b.len()
    &&& forall|r: int| 0 <= r < a.len() ==> (#[trigger] a[r]).len() == (#[trigger] b[r]).len()
}

/// A dense two-dimensional bitmap of switch states, one bit per `(row,
/// column)` position: semantically a set of pressed positions.
#[derive(Debug)]
pub struct PressedKeys {
    rows: Vec<Vec<bool>>,
}

impl View for PressedKeys {
    type V = Seq<Seq<bool>>;

    closed spec fn view(&self) -> Seq<Seq<bool>> {
        Seq::new(self.rows@.len(), |r: int| self.rows@[r]@)
    }
}

impl PressedKeys {
    /// The all-released bitmap of the given shape.
    pub fn new(nrows: usize, ncols: usize) -> (r: Self)
        ensures
            keys_dims(r@, nrows as int, ncols as int),
            forall|i: int, j: int| 0 <= i < nrows && 0 <= j < ncols ==> !(#[trigger] r@[i][j]),
    {
        let mut rows: Vec<Vec<bool>> = Vec::new();
        let mut i: usize = 0;
        while i < nrows
            invariant
                i <= nrows,
                rows@.len() == i,
                forall|r: int| 0 <= r < i ==> (#[trigger] rows@[r])@.len() == ncols,
                forall|r: int, c: int| 0 <= r < i && 0 <= c < ncols ==> !(#[trigger] rows@[r]@[c]),
            decreases nrows - i,
        {
            let mut row: Vec<bool> = Vec::new();
            let mut j: usize = 0;
            while j < ncols
                invariant
                    j <= ncols,
                    row@.len() == j,
                    forall|c: int| 0 <= c < j ==> !(#[trigger] row@[c]),
                decreases ncols - j,
            {
                row.push(false);
                j += 1;
            }
            rows.push(row);
            i += 1;
        }
        PressedKeys { rows }
    }

    /// Wrap raw row readings as a bitmap; rejects a ragged table.
    pub fn from_rows(rows: Vec<Vec<bool>>) -> (r: Option<Self>)
        ensures
            r is Some <==> keys_rect(Seq::new(rows@.len(), |i: int| rows@[i]@)),
            r matches Some(p) ==> p@ == Seq::new(rows@.len(), |i: int| rows@[i]@),
    {
        let mut i: usize = 0;
        while i < rows.len()
            invariant
                i <= rows@.len(),
                forall|r: int| 0 <= r < i ==> (#[trigger] rows@[r])@.len() == rows@[0]@.len(),
            decreases rows@.len() - i,
        {
            if rows[i].len() != rows[0].len() {
                proof {
                    let m = Seq::new(rows@.len(), |k: int| rows@[k]@);
                    assert(m[i as int].len() != m[0].len());
                }
                return None;
            }
            i += 1;
        }
        Some(PressedKeys { rows })
    }

    /// The number of rows.
    pub fn nrows(&self) -> (r: usize)
        ensures
            r == self@.len(),
    {
        self.rows.len()
    }

    /// The number of columns of the given row.
    pub fn row_len(&self, r: usize) -> (c: usize)
        requires
            r < self@.len(),
        ensures
            c == self@[r as int].len(),
    {
        self.rows[r].len()
    }

    /// Whether the switch at `(r, c)` is closed.
    pub fn get(&self, r: usize, c: usize) -> (b: bool)
        requires
            r < self@.len(),
            c < self@[r as int].len(),
        ensures
            b == self@[r as int][c as int],
    {
        self.rows[r][c]
    }

    /// An identical copy of the bitmap.
    pub fn duplicate(&self) -> (r: Self)
        ensures
            r@ == self@,
    {
        let mut rows: Vec<Vec<bool>> = Vec::new();
        let mut i: usize = 0;
        while i < self.rows.len()
            invariant
                i <= self@.len(),
                rows@.len() == i,
                forall|r: int| 0 <= r < i ==> (#[trigger] rows@[r])@ == self@[r],
            decreases self@.len() - i,
        {
            let src = &self.rows[i];
            let mut row: Vec<bool> = Vec::new();
            let mut j: usize = 0;
            while j < src.len()
                invariant
                    j <= src@.len(),
                    row@.len() == j,
                    forall|c: int| 0 <= c < j ==> row@[c] == src@[c],
                decreases src@.len() - j,
            {
                row.push(src[j]);
                j += 1;
            }
            proof {
                assert(row@ =~= src@);
            }
            rows.push(row);
            i += 1;
        }
        let r = PressedKeys { rows };
        proof {
            assert(r@ =~= self@);
        }
        r
    }

    /// Whether the two bitmaps hold the same readings.
    pub fn same_as(&self, other: &PressedKeys) -> (r: bool)
        ensures
            r == (self@ =~~= other@),
    {
        if self.rows.len() != other.rows.len() {
            return false;
        }
        let mut i: usize = 0;
        while i < self.rows.len()
            invariant
                i <= self@.len(),
                self@.len() == other@.len(),
                forall|r: int| 0 <= r < i ==> self@[r] == other@[r],
            decreases self@.len() - i,
        {
            let a = &self.rows[i];
            let b = &other.rows[i];
            if a.len() != b.len() {
                proof {
                    assert(self@[i as int] == a@ && other@[i as int] == b@);
                }
                return false;
            }
            let mut j: usize = 0;
            while j < a.len()
                invariant
                    j <= a@.len(),
                    a@.len() == b@.len(),
                    a@ == self@[i as int],
                    b@ == other@[i as int],
                    forall|c: int| 0 <= c < j ==> a@[c] == b@[c],
                decreases a@.len() - j,
            {
                if a[j] != b[j] {
                    proof {
                        assert(self@[i as int][j as int] != other@[i as int][j as int]);
                    }
                    return false;
                }
                j += 1;
            }
            proof {
                assert(a@ =~= b@);
            }
            i += 1;
        }
        proof {
            assert(self@ =~~= other@);
        }
        true
    }
}

} // verus!
