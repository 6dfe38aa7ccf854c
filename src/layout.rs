//! Storage order of a dense matrix and the moves between the two orders.
use vstd::prelude::*;

verus! {

/// Storage order and shape of a dense matrix.
///
/// - `C`: row-major; `row` rows of `lda` entries each.
/// - `F`: column-major; `col` columns of `lda` entries each.
///
/// In both cases `lda` is the leading dimension, the stride between two
/// consecutive rows (row-major) or columns (column-major).
#[derive(Clone, Copy, Debug, PartialEq, Eq, Structural)]
pub enum MatrixLayout {
    C { row: i32, lda: i32 },
    F { col: i32, lda: i32 },
}

/// The three ways a solver may apply a matrix.
#[derive(Clone, Copy, Debug, PartialEq, Eq, Structural)]
pub enum Transpose {
    /// `A x = b`
    No,
    /// `Aᵗ x = b`
    Transpose,
    /// `Aᴴ x = b` (the same as `Transpose` on real scalars)
    Hermite,
}

impl Transpose {
    /// Character code of the mode as the native routines read it: `N`, `T`
    /// or `C` in ASCII.
    pub fn code(&self) -> (r: u8)
        ensures
            r == match *self {
                Transpose::No => 78u8,
                Transpose::Transpose => 84u8,
                Transpose::Hermite => 67u8,
            },
    {
        match *self {
            Transpose::No => 78,
            Transpose::Transpose => 84,
            Transpose::Hermite => 67,
        }
    }
}

impl MatrixLayout {
    pub open spec fn is_row_major(self) -> bool {
        self is C
    }

    /// Number of rows of the described matrix.
    pub open spec fn rows(self) -> int {
        match self {
            MatrixLayout::C { row, .. } => row as int,
            MatrixLayout::F { lda, .. } => lda as int,
        }
    }

    /// Number of columns of the described matrix.
    pub open spec fn cols(self) -> int {
        match self {
            MatrixLayout::C { lda, .. } => lda as int,
            MatrixLayout::F { col, .. } => col as int,
        }
    }

    /// Both dimensions are non-negative.
    pub open spec fn valid(self) -> bool {
        self.rows() >= 0 && self.cols() >= 0
    }

    /// Number of entries of a buffer that holds the matrix.
    pub open spec fn num_elems(self) -> int {
        self.rows() * self.cols()
    }

    /// Length of the stored lines: a row in row-major order, a column in
    /// column-major order.
    pub open spec fn stride(self) -> int {
        match self {
            MatrixLayout::C { lda, .. } => lda as int,
            MatrixLayout::F { lda, .. } => lda as int,
        }
    }

    /// Number of stored lines.
    pub open spec fn lines(self) -> int {
        match self {
            MatrixLayout::C { row, .. } => row as int,
            MatrixLayout::F { col, .. } => col as int,
        }
    }

    /// Position in the buffer of the entry at row `i`, column `j`.
    pub open spec fn offset(self, i: int, j: int) -> int {
        match self {
            MatrixLayout::C { lda, .. } => i * lda + j,
            MatrixLayout::F { lda, .. } => j * lda + i,
        }
    }

    /// Entry at row `i`, column `j` of the matrix that `self` and `buf` describe.
    pub open spec fn elem<T>(self, buf: Seq<T>, i: int, j: int) -> T {
        buf[self.offset(i, j)]
    }

    /// `(rows, cols)` of the matrix.
    pub fn size(&self) -> (r: (i32, i32))
        ensures
            r.0 == self.rows(),
            r.1 == self.cols(),
    {
        match *self {
            MatrixLayout::C { row, lda } => (row, lda),
            MatrixLayout::F { col, lda } => (lda, col),
        }
    }

    /// Whether the layout describes a buffer of `len` entries: both
    /// dimensions non-negative and `len == rows * cols`.
    pub fn fits(&self, len: usize) -> (r: bool)
        ensures
            r == (self.valid() && len == self.num_elems()),
    {
        let (row, col) = self.size();
        if row < 0 || col < 0 {
            return false;
        }
        proof {
            lemma_dims_product_fits(row as int, col as int);
        }
        len as u64 == (row as u64) * (col as u64)
    }

    /// The same shape in the same order, with `row` rows and `col` columns.
    pub fn resized(&self, row: i32, col: i32) -> (r: MatrixLayout)
        ensures
            r.is_row_major() == self.is_row_major(),
            r.rows() == row,
            r.cols() == col,
    {
        match *self {
            MatrixLayout::C { .. } => MatrixLayout::C { row, lda: col },
            MatrixLayout::F { .. } => MatrixLayout::F { col, lda: row },
        }
    }

    /// Leading dimension as the native routines take it: never below one,
    /// since they refuse a zero stride even for an empty matrix.
    pub fn lda(&self) -> (r: i32)
        ensures
            r as int == if self.stride() < 1 { 1 } else { self.stride() },
    {
        let lda = match *self {
            MatrixLayout::C { lda, .. } => lda,
            MatrixLayout::F { lda, .. } => lda,
        };
        if lda < 1 {
            1
        } else {
            lda
        }
    }

    /// Number of stored lines: rows in row-major order, columns in
    /// column-major order.
    pub fn len(&self) -> (r: i32)
        ensures
            r == self.lines(),
    {
        match *self {
            MatrixLayout::C { row, .. } => row,
            MatrixLayout::F { col, .. } => col,
        }
    }

    /// True when the matrix has no stored line.
    pub fn is_empty(&self) -> (r: bool)
        ensures
            r == (self.lines() == 0),
    {
        self.len() == 0
    }

    /// True when both layouts use the same storage order.
    pub fn same_order(&self, other: &MatrixLayout) -> (r: bool)
        ensures
            r == (self.is_row_major() == other.is_row_major()),
    {
        match (*self, *other) {
            (MatrixLayout::C { .. }, MatrixLayout::C { .. }) => true,
            (MatrixLayout::F { .. }, MatrixLayout::F { .. }) => true,
            _ => false,
        }
    }

    /// The same memory read in the other storage order: the transpose of
    /// the matrix.
    pub fn t(&self) -> (r: MatrixLayout)
        ensures
            r.is_row_major() != self.is_row_major(),
            r.rows() == self.cols(),
            r.cols() == self.rows(),
            forall|i: int, j: int| #[trigger] r.offset(i, j) == self.offset(j, i),
    {
        match *self {
            MatrixLayout::C { row, lda } => MatrixLayout::F { col: row, lda },
            MatrixLayout::F { col, lda } => MatrixLayout::C { row: col, lda },
        }
    }
}

/// Whether the entry `(i, j)` comes, in the storage order of `l`, before the
/// position `(line, pos)` (line `line`, place `pos` within it).
pub open spec fn stored_before(l: MatrixLayout, i: int, j: int, line: int, pos: int) -> bool {
    let (a, b) = if l.is_row_major() { (i, j) } else { (j, i) };
    a < line || (a == line && b < pos)
}

/// The product of two non-negative `i32` values fits in a `u64`.
pub(crate) proof fn lemma_dims_product_fits(a: int, b: int)
    requires
        0 <= a <= i32::MAX,
        0 <= b <= i32::MAX,
    ensures
        0 <= a * b <= u64::MAX,
{
    assert(0 <= a * b <= i32::MAX * i32::MAX) by (nonlinear_arith)
        requires
            0 <= a <= i32::MAX,
            0 <= b <= i32::MAX,
    ;
}

proof fn lemma_offset_bound(a: int, b: int, la: int, lb: int)
    requires
        0 <= a < la,
        0 <= b < lb,
    ensures
        0 <= a * lb + b < la * lb,
{
    assert(a * lb + b < la * lb) by (nonlinear_arith)
        requires
            0 <= a < la,
            0 <= b < lb,
    ;
    assert(0 <= a * lb) by (nonlinear_arith)
        requires
            0 <= a,
            0 <= lb,
    ;
}

proof fn lemma_offset_before(a: int, b: int, line: int, pos: int, lb: int)
    requires
        0 <= a,
        0 <= b < lb,
        0 <= pos,
        a < line || (a == line && b < pos),
    ensures
        a * lb + b < line * lb + pos,
{
    if a < line {
        assert(a * lb + b < line * lb) by (nonlinear_arith)
            requires
                0 <= a < line,
                0 <= b < lb,
        ;
    } else {
        assert(a * lb == line * lb);
    }
}

/// Copies the matrix that `layout` and `input` describe into a new buffer in
/// the other storage order. Returns the layout of the copy, which has the same
/// shape.
pub fn transpose<T: Copy>(layout: MatrixLayout, input: &[T]) -> (r: (MatrixLayout, Vec<T>))
    requires
        layout.valid(),
        input@.len() == layout.num_elems(),
    ensures
        r.0.is_row_major() != layout.is_row_major(),
        r.0.rows() == layout.rows(),
        r.0.cols() == layout.cols(),
        r.1@.len() == input@.len(),
        forall|i: int, j: int|
            0 <= i < layout.rows() && 0 <= j < layout.cols() ==> #[trigger] r.0.elem(r.1@, i, j)
                == layout.elem(input@, i, j),
{
    let (m, n) = layout.size();
    let out_layout = match layout {
        MatrixLayout::C { .. } => MatrixLayout::F { col: n, lda: m },
        MatrixLayout::F { .. } => MatrixLayout::C { row: m, lda: n },
    };
    let lines = out_layout.len() as usize;
    let width: usize = match out_layout {
        MatrixLayout::C { lda, .. } => lda as usize,
        MatrixLayout::F { lda, .. } => lda as usize,
    };
    let total = input.len();
    let mut out: Vec<T> = Vec::new();
    let mut line: usize = 0;
    while line < lines
        invariant
            layout.valid(),
            input@.len() == layout.num_elems(),
            total == input@.len(),
            m == layout.rows(),
            n == layout.cols(),
            out_layout.is_row_major() != layout.is_row_major(),
            out_layout.rows() == m,
            out_layout.cols() == n,
            lines == out_layout.lines(),
            width == out_layout.stride(),
            0 <= line <= lines,
            out@.len() == line * width,
            forall|i: int, j: int|
                0 <= i < m && 0 <= j < n && stored_before(out_layout, i, j, line as int, 0)
                    ==> #[trigger] out_layout.elem(out@, i, j) == layout.elem(input@, i, j),
        decreases lines - line,
    {
        let mut pos: usize = 0;
        while pos < width
            invariant
                layout.valid(),
                input@.len() == layout.num_elems(),
                total == input@.len(),
                m == layout.rows(),
                n == layout.cols(),
                out_layout.is_row_major() != layout.is_row_major(),
                out_layout.rows() == m,
                out_layout.cols() == n,
                lines == out_layout.lines(),
                width == out_layout.stride(),
                0 <= line < lines,
                0 <= pos <= width,
                out@.len() == line * width + pos,
                forall|i: int, j: int|
                    0 <= i < m && 0 <= j < n && stored_before(out_layout, i, j, line as int, pos as int)
                        ==> #[trigger] out_layout.elem(out@, i, j) == layout.elem(input@, i, j),
            decreases width - pos,
        {
            let (i, j): (usize, usize) = match out_layout {
                MatrixLayout::C { .. } => (line, pos),
                MatrixLayout::F { .. } => (pos, line),
            };
            proof {
                assert(i < m && j < n);
                assert(m * n == n * m) by (nonlinear_arith);
                match layout {
                    MatrixLayout::C { .. } => lemma_offset_bound(i as int, j as int, m as int, n as int),
                    MatrixLayout::F { .. } => lemma_offset_bound(j as int, i as int, n as int, m as int),
                }
            }
            let k: usize = match layout {
                MatrixLayout::C { .. } => i * (n as usize) + j,
                MatrixLayout::F { .. } => j * (m as usize) + i,
            };
            let ghost old_out = out@;
            out.push(input[k]);
            proof {
                assert forall|a: int, b: int|
                    0 <= a < m && 0 <= b < n && stored_before(out_layout, a, b, line as int, pos as int + 1)
                        implies #[trigger] out_layout.elem(out@, a, b) == layout.elem(input@, a, b) by {
                    if stored_before(out_layout, a, b, line as int, pos as int) {
                        match out_layout {
                            MatrixLayout::C { .. } => lemma_offset_before(a, b, line as int, pos as int, n as int),
                            MatrixLayout::F { .. } => lemma_offset_before(b, a, line as int, pos as int, m as int),
                        }
                        assert(out_layout.elem(out@, a, b) == out_layout.elem(old_out, a, b));
                    } else {
                        assert(a == i && b == j);
                    }
                }
            }
            pos = pos + 1;
        }
        proof {
            assert forall|a: int, b: int|
                0 <= a < m && 0 <= b < n && stored_before(out_layout, a, b, line as int + 1, 0)
                    implies #[trigger] out_layout.elem(out@, a, b) == layout.elem(input@, a, b) by {
                assert(stored_before(out_layout, a, b, line as int, width as int));
            }
            assert((line + 1) * width == line * width + width) by (nonlinear_arith);
        }
        line = line + 1;
    }
    proof {
        assert(m * n == n * m) by (nonlinear_arith);
        match out_layout {
            MatrixLayout::C { .. } => assert(lines == m && width == n),
            MatrixLayout::F { .. } => assert(lines == n && width == m),
        }
        assert forall|i: int, j: int| 0 <= i < m && 0 <= j < n implies #[trigger] out_layout.elem(out@, i, j)
            == layout.elem(input@, i, j) by {
            assert(stored_before(out_layout, i, j, line as int, 0));
        }
    }
    (out_layout, out)
}

/// Writes into `to` the matrix that `from_l` and `from` describe, in the
/// other storage order. Returns the layout of `to`.
pub fn transpose_over<T: Copy>(from_l: MatrixLayout, from: &[T], to: &mut [T]) -> (r: MatrixLayout)
    requires
        from_l.valid(),
        from@.len() == from_l.num_elems(),
        old(to)@.len() == from@.len(),
    ensures
        r.is_row_major() != from_l.is_row_major(),
        r.rows() == from_l.rows(),
        r.cols() == from_l.cols(),
        final(to)@.len() == from@.len(),
        forall|i: int, j: int|
            0 <= i < from_l.rows() && 0 <= j < from_l.cols() ==> #[trigger] r.elem(final(to)@, i, j)
                == from_l.elem(from@, i, j),
{
    let (to_l, buf) = transpose(from_l, from);
    let total = to.len();
    let mut k: usize = 0;
    while k < total
        invariant
            total == to@.len(),
            buf@.len() == total,
            0 <= k <= total,
            forall|p: int| 0 <= p < k ==> to@[p] == buf@[p],
        decreases total - k,
    {
        to[k] = buf[k];
        k = k + 1;
    }
    proof {
        assert(to@ =~= buf@);
    }
    to_l
}

proof fn lemma_every_position_is_an_entry(l: MatrixLayout, p: int) -> (ij: (int, int))
    requires
        l.valid(),
        0 <= p < l.num_elems(),
    ensures
        0 <= ij.0 < l.rows(),
        0 <= ij.1 < l.cols(),
        l.offset(ij.0, ij.1) == p,
{
    let w = l.stride();
    let h = l.lines();
    assert(l.num_elems() == h * w) by (nonlinear_arith)
        requires
            l.num_elems() == l.rows() * l.cols(),
            (h == l.rows() && w == l.cols()) || (h == l.cols() && w == l.rows()),
    ;
    assert(w > 0) by (nonlinear_arith)
        requires
            0 <= p < h * w,
            h >= 0,
            w >= 0,
    ;
    let a = p / w;
    let b = p % w;
    vstd::arithmetic::div_mod::lemma_fundamental_div_mod(p, w);
    assert(0 <= a < h) by (nonlinear_arith)
        requires
            a == p / w,
            0 <= p < h * w,
            w > 0,
    ;
    assert(p == a * w + b) by (nonlinear_arith)
        requires
            p == w * (p / w) + p % w,
            a == p / w,
            b == p % w,
    ;
    if l.is_row_major() {
        (a, b)
    } else {
        (b, a)
    }
}

/// Two buffers that hold the same matrix in the same layout are equal: every
/// position of a buffer holds one of the entries of the matrix.
pub proof fn lemma_entries_determine_buffer<T>(l: MatrixLayout, x: Seq<T>, y: Seq<T>)
    requires
        l.valid(),
        x.len() == l.num_elems(),
        y.len() == l.num_elems(),
        forall|i: int, j: int|
            0 <= i < l.rows() && 0 <= j < l.cols() ==> #[trigger] l.elem(x, i, j) == l.elem(y, i, j),
    ensures
        x == y,
{
    assert forall|p: int| 0 <= p < x.len() implies x[p] == y[p] by {
        let (i, j) = lemma_every_position_is_an_entry(l, p);
        assert(l.elem(x, i, j) == l.elem(y, i, j));
    }
    assert(x =~= y);
}

/// Copying a matrix into the other storage order and back again gives the
/// buffer one started with.
pub proof fn lemma_transpose_round_trip<T>(l: MatrixLayout, b: Seq<T>, l2: MatrixLayout, c: Seq<T>, d: Seq<T>)
    requires
        l.valid(),
        b.len() == l.num_elems(),
        l2.is_row_major() != l.is_row_major(),
        l2.rows() == l.rows(),
        l2.cols() == l.cols(),
        c.len() == b.len(),
        d.len() == b.len(),
        forall|i: int, j: int|
            0 <= i < l.rows() && 0 <= j < l.cols() ==> #[trigger] l2.elem(c, i, j) == l.elem(b, i, j),
        forall|i: int, j: int|
            0 <= i < l.rows() && 0 <= j < l.cols() ==> #[trigger] l.elem(d, i, j) == l2.elem(c, i, j),
    ensures
        d == b,
{
    assert forall|i: int, j: int| 0 <= i < l.rows() && 0 <= j < l.cols() implies #[trigger] l.elem(d, i, j)
        == l.elem(b, i, j) by {
        assert(l2.elem(c, i, j) == l.elem(b, i, j));
    }
    lemma_entries_determine_buffer(l, d, b);
}

} // verus!
