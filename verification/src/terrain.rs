//! Index arithmetic of the heightmap battlefield: the triangle list of the
//! faceted grid mesh, and which grid samples the height lookup and the slope
//! colouring read.

use vstd::prelude::*;

verus! {

/// Corner `j` (0..6) of grid cell `(z, x)` in a grid with `n` vertices per
/// side: two counter-clockwise triangles `(i, down, right)` and
/// `(right, down, down_right)`, where `i = z * n + x`.
pub open spec fn grid_corner(n: int, z: int, x: int, j: int) -> int {
    let i = z * n + x;
    if j == 0 {
        i
    } else if j == 1 {
        i + n
    } else if j == 2 {
        i + 1
    } else if j == 3 {
        i + 1
    } else if j == 4 {
        i + n
    } else {
        i + n + 1
    }
}

/// The `k`-th entry of the grid's triangle list: cells are emitted row by row
/// (`z` outer, `x` inner), six indices each.
pub open spec fn grid_index(n: int, k: int) -> int {
    let cell = k / 6;
    grid_corner(n, cell / (n - 1), cell % (n - 1), k % 6)
}

proof fn lemma_cell_entry(n: int, z: int, x: int, k: int)
    requires
        n >= 2,
        0 <= x < n - 1,
        0 <= z,
        6 * (z * (n - 1) + x) <= k < 6 * (z * (n - 1) + x) + 6,
    ensures
        grid_index(n, k) == grid_corner(n, z, x, k - 6 * (z * (n - 1) + x)),
{
    let c = z * (n - 1) + x;
    assert(k / 6 == c) by (nonlinear_arith)
        requires 6 * c <= k < 6 * c + 6;
    assert(k % 6 == k - 6 * c) by (nonlinear_arith)
        requires 6 * c <= k < 6 * c + 6;
    assert(c / (n - 1) == z && c % (n - 1) == x) by (nonlinear_arith)
        requires c == z * (n - 1) + x, 0 <= x < n - 1, 0 <= z, n >= 2;
}

proof fn lemma_corner_in_grid(n: int, z: int, x: int, j: int)
    requires
        n >= 2,
        0 <= x < n - 1,
        0 <= z < n - 1,
        0 <= j < 6,
    ensures
        0 <= grid_corner(n, z, x, j) <= z * n + x + n + 1,
        z * n + x + n + 1 < n * n,
{
    assert(z * n + x + n + 1 < n * n && 0 <= z * n) by (nonlinear_arith)
        requires 0 <= x < n - 1, 0 <= z < n - 1, n >= 2;
}

/// The six triangle-list entries of grid cell `(z, x)`, with `i = z * n + x`
/// its top-left vertex, are `i, i + n, i + 1` and `i + 1, i + n, i + n + 1`:
/// the cell's two triangles, each wound counter-clockwise seen from above.
pub proof fn lemma_grid_cell(n: int, z: int, x: int)
    requires
        n >= 2,
        0 <= z < n - 1,
        0 <= x < n - 1,
    ensures
        ({
            let s = 6 * (z * (n - 1) + x);
            let i = z * n + x;
            &&& grid_index(n, s) == i
            &&& grid_index(n, s + 1) == i + n
            &&& grid_index(n, s + 2) == i + 1
            &&& grid_index(n, s + 3) == i + 1
            &&& grid_index(n, s + 4) == i + n
            &&& grid_index(n, s + 5) == i + n + 1
        }),
{
    let s = 6 * (z * (n - 1) + x);
    lemma_cell_entry(n, z, x, s);
    lemma_cell_entry(n, z, x, s + 1);
    lemma_cell_entry(n, z, x, s + 2);
    lemma_cell_entry(n, z, x, s + 3);
    lemma_cell_entry(n, z, x, s + 4);
    lemma_cell_entry(n, z, x, s + 5);
}

/// Winding of the triangle `(a, b, c)` of grid vertices, seen from above, in
/// grid coordinates (column `v % n`, row `v / n`): the z-component of the cross
/// product of `b - a` and `c - a`.
pub open spec fn winding(n: int, a: int, b: int, c: int) -> int {
    let (ax, az) = (a % n, a / n);
    let (bx, bz) = (b % n, b / n);
    let (cx, cz) = (c % n, c / n);
    (bx - ax) * (cz - az) - (bz - az) * (cx - ax)
}

proof fn lemma_vertex_coords(n: int, z: int, x: int)
    requires
        n >= 1,
        0 <= z,
        0 <= x < n,
    ensures
        (z * n + x) % n == x,
        (z * n + x) / n == z,
{
    assert((z * n + x) % n == x && (z * n + x) / n == z) by (nonlinear_arith)
        requires n >= 1, 0 <= z, 0 <= x < n;
}

/// Every triangle of the grid mesh has the same winding: a half cell of unit
/// area turning the same way as `(top-left, below, right)`, which is the
/// counter-clockwise orientation seen from above; no triangle is flipped or
/// degenerate. Triangle `t` is entries `3t`, `3t + 1`, `3t + 2`.
pub proof fn lemma_grid_winding(n: int, t: int)
    requires
        n >= 2,
        0 <= t < 2 * (n - 1) * (n - 1),
    ensures
        winding(n, grid_index(n, 3 * t), grid_index(n, 3 * t + 1), grid_index(n, 3 * t + 2)) == -1,
{
    let m = n - 1;
    let c = t / 2;
    assert(0 <= c < m * m && (t % 2 == 0 || t % 2 == 1) && t == 2 * c + t % 2) by (nonlinear_arith)
        requires 0 <= t < 2 * m * m, m >= 1, c == t / 2;
    let z = c / m;
    let x = c % m;
    assert(0 <= z < m && 0 <= x < m && c == z * m + x) by (nonlinear_arith)
        requires 0 <= c < m * m, m >= 1, z == c / m, x == c % m;
    lemma_grid_cell(n, z, x);
    let s = 6 * (z * m + x);
    let i = z * n + x;
    lemma_vertex_coords(n, z, x);
    lemma_vertex_coords(n, z + 1, x);
    lemma_vertex_coords(n, z, x + 1);
    lemma_vertex_coords(n, z + 1, x + 1);
    assert(i + n == (z + 1) * n + x && i + 1 == z * n + (x + 1) && i + n + 1 == (z + 1) * n + (x + 1))
        by (nonlinear_arith) requires i == z * n + x;
    assert(i % n == x && i / n == z);
    assert((i + n) % n == x && (i + n) / n == z + 1);
    assert((i + 1) % n == x + 1 && (i + 1) / n == z);
    assert((i + n + 1) % n == x + 1 && (i + n + 1) / n == z + 1);
    if t % 2 == 0 {
        assert(3 * t == s);
        assert(winding(n, i, i + n, i + 1) == (x - x) * (z - z) - ((z + 1) - z) * ((x + 1) - x));
        assert(winding(n, i, i + n, i + 1) == -1);
    } else {
        assert(3 * t == s + 3);
        assert(winding(n, i + 1, i + n, i + n + 1)
            == (x - (x + 1)) * ((z + 1) - z) - ((z + 1) - z) * ((x + 1) - (x + 1)));
        assert(winding(n, i + 1, i + n, i + n + 1) == -1);
    }
}

/// Triangle indices of the faceted heightmap mesh with `n` vertices per side:
/// each of the `(n - 1)^2` cells becomes two triangles wound counter-clockwise
/// when viewed from above.
pub fn grid_indices(n: usize) -> (indices: Vec<u32>)
    requires
        1 <= n,
        n * n <= 0x1_0000_0000,
    ensures
        indices@.len() == 6 * (n - 1) * (n - 1),
        forall|k: int| 0 <= k < indices@.len() ==> #[trigger] indices@[k] as int == grid_index(n as int, k),
        forall|k: int| 0 <= k < indices@.len() ==> #[trigger] indices@[k] < n * n,
{
    let mut indices: Vec<u32> = Vec::new();
    let m = n - 1;
    let mut z: usize = 0;
    while z < m
        invariant
            m == n - 1,
            n * n <= 0x1_0000_0000,
            z <= m,
            indices@.len() == 6 * (z * m),
            forall|k: int| 0 <= k < indices@.len() ==> #[trigger] indices@[k] as int == grid_index(n as int, k),
            forall|k: int| 0 <= k < indices@.len() ==> #[trigger] indices@[k] < n * n,
        decreases m - z,
    {
        let mut x: usize = 0;
        while x < m
            invariant
                m == n - 1,
                n * n <= 0x1_0000_0000,
                z < m,
                x <= m,
                indices@.len() == 6 * (z * m + x),
                forall|k: int| 0 <= k < indices@.len() ==> #[trigger] indices@[k] as int == grid_index(n as int, k),
                forall|k: int| 0 <= k < indices@.len() ==> #[trigger] indices@[k] < n * n,
            decreases m - x,
        {
            proof {
                lemma_corner_in_grid(n as int, z as int, x as int, 0);
            }
            let base = z * n + x;
            let i = base as u32;
            let right = i + 1;
            let down = i + n as u32;
            let down_right = down + 1;
            let ghost start = indices@.len() as int;
            indices.push(i);
            indices.push(down);
            indices.push(right);
            indices.push(right);
            indices.push(down);
            indices.push(down_right);
            proof {
                assert forall|k: int| 0 <= k < indices@.len() implies #[trigger] indices@[k] as int == grid_index(n as int, k) && indices@[k] < n * n by {
                    if k >= start {
                        lemma_cell_entry(n as int, z as int, x as int, k);
                        lemma_corner_in_grid(n as int, z as int, x as int, k - start);
                    }
                }
                assert(6 * (z * m + x) + 6 == 6 * (z * m + (x + 1)));
            }
            x = x + 1;
        }
        proof {
            assert(z * m + m == (z + 1) * m) by (nonlinear_arith);
        }
        z = z + 1;
    }
    proof {
        assert(6 * (m * m) == 6 * (n - 1) * (n - 1)) by (nonlinear_arith)
            requires m == n - 1;
    }
    indices
}

/// Row-major offsets of the four grid samples around cell `(x0, z0)` that the
/// bilinear height lookup blends: `(x0, z0)`, `(x1, z0)`, `(x0, z1)` and
/// `(x1, z1)`, where `x1` and `z1` step one sample on and are clamped to the
/// last row / column.
pub fn corner_indices(x0: usize, z0: usize, n: usize) -> (idx: [usize; 4])
    requires
        x0 < n,
        z0 < n,
        n * n <= usize::MAX,
    ensures
        ({
            let x1 = if x0 + 1 < n { x0 + 1 } else { n - 1 };
            let z1 = if z0 + 1 < n { z0 + 1 } else { n - 1 };
            &&& idx@[0] == z0 * n + x0
            &&& idx@[1] == z0 * n + x1
            &&& idx@[2] == z1 * n + x0
            &&& idx@[3] == z1 * n + x1
        }),
        forall|j: int| 0 <= j < 4 ==> #[trigger] idx@[j] < n * n,
{
    let x1 = if x0 + 1 < n { x0 + 1 } else { n - 1 };
    let z1 = if z0 + 1 < n { z0 + 1 } else { n - 1 };
    proof {
        assert(z0 * n + x1 < n * n && z1 * n + x1 < n * n) by (nonlinear_arith)
            requires x1 < n, z0 < n, z1 < n;
        assert(z0 * n + x0 < n * n && z1 * n + x0 < n * n) by (nonlinear_arith)
            requires x0 < n, z0 < n, z1 < n;
    }
    [z0 * n + x0, z0 * n + x1, z1 * n + x0, z1 * n + x1]
}

/// Row-major offsets of the left, right, lower and upper neighbours of vertex
/// `(x, z)` used to estimate the slope for colouring; at the border a missing
/// neighbour is replaced by the vertex itself.
pub fn slope_neighbors(x: usize, z: usize, n: usize) -> (idx: [usize; 4])
    requires
        x < n,
        z < n,
        n * n <= usize::MAX,
    ensures
        idx@[0] == z * n + (if x > 0 { x - 1 } else { 0 }),
        idx@[1] == z * n + (if x + 1 < n { x + 1 } else { n - 1 }),
        idx@[2] == (if z > 0 { z - 1 } else { 0 }) * n + x,
        idx@[3] == (if z + 1 < n { z + 1 } else { n - 1 }) * n + x,
        forall|j: int| 0 <= j < 4 ==> #[trigger] idx@[j] < n * n,
{
    let xl = x.saturating_sub(1);
    let xr = if x + 1 < n { x + 1 } else { n - 1 };
    let zd = z.saturating_sub(1);
    let zu = if z + 1 < n { z + 1 } else { n - 1 };
    proof {
        assert(z * n + xl < n * n && z * n + xr < n * n) by (nonlinear_arith)
            requires xl < n, xr < n, z < n;
        assert(zd * n + x < n * n && zu * n + x < n * n) by (nonlinear_arith)
            requires x < n, zd < n, zu < n;
    }
    [z * n + xl, z * n + xr, zd * n + x, zu * n + x]
}

} // verus!
