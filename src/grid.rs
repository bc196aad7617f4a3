use vstd::prelude::*;
use vstd::arithmetic::div_mod::lemma_fundamental_div_mod_converse;

verus! {

/// Indices are `u16`, so a grid holds at most this many points.
pub const MAX_POINTS: usize = 65536;

/// Why a grid cannot be generated.
#[derive(Debug, Clone, Copy, PartialEq, Eq, Structural)]
pub enum GridError {
    /// Fewer than two rows or two columns: the spacing `1 / (cols - 1)` is undefined
    /// or the grid has no segment in one direction.
    TooFewPoints,
    /// More points than a `u16` index can address.
    TooManyPoints,
}

/// A regular grid of `rows * cols` points on the unit square, row-major, and the
/// line segments joining neighbours.
///
/// Coordinates are exact: each is a numerator over `denominator == 2 * (cols - 1)`.
/// Point `p` lies in row `i = p / cols` and column `j = p % cols`, at
/// `x = -1/2 + j / (cols - 1)`, `y = 1/2 - i / (cols - 1)`, `z = 0`.
///
/// `indices` holds pairs of point indices: first every pair `(p, p + cols)` of
/// points one row apart, then every pair `(p, p + 1)` of neighbours within a row.
pub struct GridMesh {
    pub rows: usize,
    pub cols: usize,
    pub denominator: i64,
    pub positions: Vec<i64>,
    pub indices: Vec<u16>,
}

/// Numerator of the x coordinate of point `p`.
pub open spec fn x_num(cols: int, p: int) -> int {
    2 * (p % cols) - (cols - 1)
}

/// Numerator of the y coordinate of point `p`.
pub open spec fn y_num(cols: int, p: int) -> int {
    (cols - 1) - 2 * (p / cols)
}

/// Number of pairs of points one row apart.
pub open spec fn column_link_count(rows: int, cols: int) -> int {
    (rows - 1) * cols
}

/// Number of pairs of neighbours within a row.
pub open spec fn row_link_count(rows: int, cols: int) -> int {
    rows * (cols - 1)
}

/// First point of the `m`-th pair of neighbours within a row: row `m / (cols - 1)`,
/// column `m % (cols - 1)`.
pub open spec fn row_link_start(cols: int, m: int) -> int {
    m + m / (cols - 1)
}

/// The interleaved `x, y, z` numerators of the grid's points.
pub open spec fn positions_of(positions: Seq<i64>, rows: int, cols: int) -> bool {
    &&& positions.len() == 3 * rows * cols
    &&& forall|p: int| #![trigger positions[3 * p]] 0 <= p < rows * cols ==> {
        &&& positions[3 * p] == x_num(cols, p)
        &&& positions[3 * p + 1] == y_num(cols, p)
        &&& positions[3 * p + 2] == 0
    }
}

/// The segments of the grid: pairs one row apart, then neighbours within a row.
pub open spec fn indices_of(indices: Seq<u16>, rows: int, cols: int) -> bool {
    let n1 = column_link_count(rows, cols);
    let n2 = row_link_count(rows, cols);
    &&& indices.len() == 2 * (n1 + n2)
    &&& forall|q: int| #![trigger indices[2 * q]] 0 <= q < n1 ==> {
        &&& indices[2 * q] == q
        &&& indices[2 * q + 1] == q + cols
    }
    &&& forall|m: int| #![trigger indices[2 * (n1 + m)]] 0 <= m < n2 ==> {
        &&& indices[2 * (n1 + m)] == row_link_start(cols, m)
        &&& indices[2 * (n1 + m) + 1] == row_link_start(cols, m) + 1
    }
}

impl GridMesh {
    pub open spec fn wf(&self) -> bool {
        &&& 2 <= self.rows
        &&& 2 <= self.cols
        &&& self.rows * self.cols <= MAX_POINTS
        &&& self.denominator == 2 * (self.cols - 1)
        &&& positions_of(self.positions@, self.rows as int, self.cols as int)
        &&& indices_of(self.indices@, self.rows as int, self.cols as int)
    }
}

/// The interleaved coordinate numerators of every point, row by row.
fn grid_positions(rows: usize, cols: usize, n: usize) -> (positions: Vec<i64>)
    requires
        2 <= rows,
        2 <= cols,
        n == rows * cols,
        n <= MAX_POINTS,
    ensures
        positions_of(positions@, rows as int, cols as int),
{
    proof {
        assert(cols <= n) by (nonlinear_arith)
            requires
                n == rows * cols,
                rows >= 2,
        ;
    }
    let half: i64 = (cols - 1) as i64;

    let mut positions: Vec<i64> = Vec::new();
    let mut p: usize = 0;
    let mut i: usize = 0;
    let mut j: usize = 0;
    while p < n
        invariant
            2 <= rows,
            2 <= cols,
            n == rows * cols,
            n <= MAX_POINTS,
            half == cols - 1,
            p <= n,
            j < cols,
            p == i * cols + j,
            positions@.len() == 3 * p,
            forall|q: int| #![trigger positions@[3 * q]] 0 <= q < p ==> {
                &&& positions@[3 * q] == x_num(cols as int, q)
                &&& positions@[3 * q + 1] == y_num(cols as int, q)
                &&& positions@[3 * q + 2] == 0
            },
        decreases n - p,
    {
        proof {
            lemma_fundamental_div_mod_converse(p as int, cols as int, i as int, j as int);
            assert((i + 1) * cols == i * cols + cols) by (nonlinear_arith);
            assert(i < rows) by (nonlinear_arith)
                requires
                    p == i * cols + j,
                    p < rows * cols,
                    j < cols,
            ;
        }
        let ghost before = positions@;
        positions.push(2 * (j as i64) - half);
        positions.push(half - 2 * (i as i64));
        positions.push(0);
        assert(positions@[3 * (p as int)] == x_num(cols as int, p as int));
        assert forall|q: int| 0 <= q < p implies #[trigger] positions@[3 * q] == before[3 * q]
            && positions@[3 * q + 1] == before[3 * q + 1] && positions@[3 * q + 2] == before[3
            * q + 2] by {}
        p += 1;
        j += 1;
        if j == cols {
            j = 0;
            i += 1;
        }
    }

    assert(3 * (rows as int) * (cols as int) == 3 * n) by (nonlinear_arith)
        requires
            n == rows * cols,
    ;
    assert(positions_of(positions@, rows as int, cols as int));
    positions
}

/// The segments of the grid, every index below `n`.
fn grid_indices(rows: usize, cols: usize, n: usize) -> (indices: Vec<u16>)
    requires
        2 <= rows,
        2 <= cols,
        n == rows * cols,
        n <= MAX_POINTS,
    ensures
        indices_of(indices@, rows as int, cols as int),
        forall|k: int| 0 <= k < indices@.len() ==> #[trigger] indices@[k] < n,
{
    proof {
        assert(n - cols == (rows - 1) * cols) by (nonlinear_arith)
            requires
                n == rows * cols,
        ;
        assert(n >= cols && n >= rows) by (nonlinear_arith)
            requires
                n == rows * cols,
                rows >= 2,
                cols >= 2,
        ;
    }
    let n1: usize = n - cols;
    let mut indices: Vec<u16> = Vec::new();
    let mut q: usize = 0;
    while q < n1
        invariant
            2 <= rows,
            2 <= cols,
            n == rows * cols,
            n <= MAX_POINTS,
            n1 == n - cols,
            n1 == column_link_count(rows as int, cols as int),
            q <= n1,
            indices@.len() == 2 * q,
            forall|k: int| 0 <= k < indices@.len() ==> #[trigger] indices@[k] < n,
            forall|t: int| #![trigger indices@[2 * t]] 0 <= t < q ==> {
                &&& indices@[2 * t] == t
                &&& indices@[2 * t + 1] == t + cols
            },
        decreases n1 - q,
    {
        let ghost before = indices@;
        indices.push(q as u16);
        indices.push((q + cols) as u16);
        assert forall|t: int| 0 <= t <= q implies #[trigger] indices@[2 * t] == t && indices@[2
            * t + 1] == t + cols by {
            if t < q {
                assert(before[2 * t] == t);
                assert(before[2 * t + 1] == t + cols);
            }
        }
        q += 1;
    }

    let n2: usize = n - rows;
    proof {
        assert(n1 == column_link_count(rows as int, cols as int));
        assert(n2 == row_link_count(rows as int, cols as int)) by (nonlinear_arith)
            requires
                n == rows * cols,
                n2 == n - rows,
        ;
    }
    let w: usize = cols - 1;
    let mut m: usize = 0;
    let mut row: usize = 0;
    let mut c: usize = 0;
    let mut start: usize = 0;
    while m < n2
        invariant
            2 <= rows,
            2 <= cols,
            n == rows * cols,
            n <= MAX_POINTS,
            n1 == column_link_count(rows as int, cols as int),
            n2 == row_link_count(rows as int, cols as int),
            w == cols - 1,
            m <= n2,
            c < w,
            m == row * w + c,
            start == m + row,
            indices@.len() == 2 * (n1 + m),
            forall|k: int| 0 <= k < indices@.len() ==> #[trigger] indices@[k] < n,
            forall|t: int| #![trigger indices@[2 * t]] 0 <= t < n1 ==> {
                &&& indices@[2 * t] == t
                &&& indices@[2 * t + 1] == t + cols
            },
            forall|t: int| #![trigger indices@[2 * (n1 + t)]] 0 <= t < m ==> {
                &&& indices@[2 * (n1 + t)] == row_link_start(cols as int, t)
                &&& indices@[2 * (n1 + t) + 1] == row_link_start(cols as int, t) + 1
            },
        decreases n2 - m,
    {
        proof {
            lemma_fundamental_div_mod_converse(m as int, w as int, row as int, c as int);
            assert((row + 1) * w == row * w + w) by (nonlinear_arith);
            assert(start + 1 < n) by (nonlinear_arith)
                requires
                    m == row * w + c,
                    m < n2,
                    n2 == rows * w,
                    c < w,
                    w == cols - 1,
                    start == m + row,
                    n == rows * cols,
            ;
        }
        let ghost before = indices@;
        indices.push(start as u16);
        indices.push((start + 1) as u16);
        assert forall|t: int| 0 <= t < n1 implies #[trigger] indices@[2 * t] == before[2 * t]
            && indices@[2 * t + 1] == before[2 * t + 1] by {}
        assert forall|t: int| 0 <= t <= m implies #[trigger] indices@[2 * (n1 + t)]
            == row_link_start(cols as int, t) && indices@[2 * (n1 + t) + 1] == row_link_start(
            cols as int,
            t,
        ) + 1 by {
            if t < m {
                assert(before[2 * (n1 + t)] == row_link_start(cols as int, t));
                assert(before[2 * (n1 + t) + 1] == row_link_start(cols as int, t) + 1);
            }
        }
        m += 1;
        start += 1;
        c += 1;
        if c == w {
            c = 0;
            row += 1;
            start += 1;
        }
    }
    indices
}

/// Generates the grid of `rows * cols` points and its segments.
///
/// Fails with `TooFewPoints` when a dimension is below two, and with `TooManyPoints`
/// when the points cannot all be addressed by a `u16` index.
pub fn generate_grid(rows: usize, cols: usize) -> (r: Result<GridMesh, GridError>)
    ensures
        (rows < 2 || cols < 2) <==> r == Err::<GridMesh, GridError>(GridError::TooFewPoints),
        (rows >= 2 && cols >= 2 && rows * cols > MAX_POINTS) <==> r == Err::<GridMesh, GridError>(
            GridError::TooManyPoints,
        ),
        (rows >= 2 && cols >= 2 && rows * cols <= MAX_POINTS) <==> r is Ok,
        r is Ok ==> {
            let g = r->Ok_0;
            let n1 = column_link_count(rows as int, cols as int);
            let n2 = row_link_count(rows as int, cols as int);
            &&& g.rows == rows
            &&& g.cols == cols
            &&& g.wf()
            &&& g.positions@.len() == 3 * rows * cols
            &&& g.indices@.len() == 2 * (n1 + n2)
            &&& rows == cols ==> n1 + n2 == 2 * rows * (rows - 1)
            &&& forall|k: int| 0 <= k < g.indices@.len() ==> #[trigger] g.indices@[k] < rows * cols
            &&& forall|q: int|
                0 <= q < n1 ==> g.indices@[2 * q + 1] - #[trigger] g.indices@[2 * q] == cols
            &&& forall|m: int|
                0 <= m < n2 ==> g.indices@[2 * (n1 + m) + 1] - #[trigger] g.indices@[2 * (n1 + m)] == 1
        },
{
    if rows < 2 || cols < 2 {
        return Err(GridError::TooFewPoints);
    }
    let n: usize = match rows.checked_mul(cols) {
        Some(n) if n <= MAX_POINTS => n,
        _ => return Err(GridError::TooManyPoints),
    };
    let positions = grid_positions(rows, cols, n);
    let indices = grid_indices(rows, cols, n);
    proof {
        assert(cols <= n) by (nonlinear_arith)
            requires
                n == rows * cols,
                rows >= 2,
        ;
        if rows == cols {
            assert(column_link_count(rows as int, cols as int) + row_link_count(rows as int, cols as int)
                == 2 * rows * (rows - 1)) by (nonlinear_arith)
                requires
                    rows == cols,
            ;
        }
        assert(3 * (rows as int) * (cols as int) == 3 * n) by (nonlinear_arith)
            requires
                n == rows * cols,
        ;
    }
    Ok(GridMesh { rows, cols, denominator: 2 * ((cols - 1) as i64), positions, indices })
}

} // verus!
