//! Formation slots for squad move orders: the selected tanks are spread over a
//! compact, roughly square grid around the ordered destination.

use vstd::prelude::*;

verus! {

/// The number of columns of the formation grid for `count` tanks: the smallest
/// `cols` with `cols * cols >= count` (the ceiling of the square root).
pub open spec fn is_formation_cols(count: int, cols: int) -> bool {
    &&& cols >= 0
    &&& cols * cols >= count
    &&& (cols == 0 || (cols - 1) * (cols - 1) < count)
}

/// Number of formation columns for `count` selected tanks.
pub fn formation_cols(count: usize) -> (cols: usize)
    ensures
        is_formation_cols(count as int, cols as int),
        cols <= count,
        cols == 0 <==> count == 0,
{
    let n = count as u128;
    let mut c: u128 = 0;
    while c * c < n
        invariant
            n == count,
            n < 0x1_0000_0000_0000_0000,
            c <= n,
            c <= 0x1_0000_0000,
            c * c <= 0x1_0000_0000_0000_0000,
            c == 0 || (c - 1) * (c - 1) < n,
        decreases n - c,
    {
        proof {
            assert(c + 1 <= n) by (nonlinear_arith)
                requires c * c < n, c >= 0;
            assert(c < 0x1_0000_0000) by (nonlinear_arith)
                requires c * c < n, n < 0x1_0000_0000_0000_0000, c >= 0;
            assert((c + 1) * (c + 1) <= 0x1_0000_0000_0000_0000) by (nonlinear_arith)
                requires c < 0x1_0000_0000, c >= 0;
        }
        c = c + 1;
    }
    c as usize
}

/// The formation slot `(column, row)` of the `i`-th selected tank in a grid
/// `cols` wide, filled row by row.
pub open spec fn formation_slot(i: int, cols: int) -> (int, int) {
    (i % cols, i / cols)
}

/// Formation slots of `count` selected tanks, in selection order.
pub fn formation_slots(count: usize) -> (slots: Vec<(usize, usize)>)
    ensures
        slots@.len() == count,
        forall|i: int| 0 <= i < count ==> {
            let cols = formation_cols_spec(count as int);
            &&& #[trigger] slots@[i].0 == formation_slot(i, cols).0
            &&& slots@[i].1 == formation_slot(i, cols).1
            &&& slots@[i].0 < cols
            &&& slots@[i].1 < cols
            &&& slots@[i].1 * cols + slots@[i].0 == i
        },
{
    let cols = formation_cols(count);
    proof {
        lemma_formation_cols_unique(count as int, cols as int);
    }
    let mut slots: Vec<(usize, usize)> = Vec::new();
    let mut i: usize = 0;
    while i < count
        invariant
            i <= count,
            cols as int == formation_cols_spec(count as int),
            is_formation_cols(count as int, cols as int),
            cols > 0 || count == 0,
            slots@.len() == i,
            forall|j: int| 0 <= j < i ==> {
                &&& #[trigger] slots@[j].0 == formation_slot(j, cols as int).0
                &&& slots@[j].1 == formation_slot(j, cols as int).1
                &&& slots@[j].0 < cols
                &&& slots@[j].1 < cols
                &&& slots@[j].1 * cols + slots@[j].0 == j
            },
        decreases count - i,
    {
        proof {
            assert(i / cols < cols) by (nonlinear_arith)
                requires cols * cols >= count, i < count, cols > 0;
        }
        proof {
            lemma_formation_row_major(i as int, cols as int);
        }
        slots.push((i % cols, i / cols));
        i = i + 1;
    }
    slots
}

/// The formation width for `count` tanks, as a spec value.
pub open spec fn formation_cols_spec(count: int) -> int {
    choose|c: int| is_formation_cols(count, c)
}

/// There is exactly one formation width for each tank count.
pub proof fn lemma_formation_cols_unique(count: int, cols: int)
    requires
        count >= 0,
        is_formation_cols(count, cols),
    ensures
        formation_cols_spec(count) == cols,
{
    let c = formation_cols_spec(count);
    assert(is_formation_cols(count, c));
    if c < cols {
        assert(c * c <= (cols - 1) * (cols - 1)) by (nonlinear_arith)
            requires 0 <= c <= cols - 1;
    } else if c > cols {
        assert(cols * cols <= (c - 1) * (c - 1)) by (nonlinear_arith)
            requires 0 <= cols <= c - 1;
    }
}

/// The formation is filled row by row: the `i`-th tank's slot `(column, row)`
/// has its column inside the grid and `row * cols + column == i`, so the first
/// `cols` tanks stand side by side in the first row before any tank starts the
/// second.
pub proof fn lemma_formation_row_major(i: int, cols: int)
    requires
        cols > 0,
        0 <= i,
    ensures
        0 <= formation_slot(i, cols).0 < cols,
        0 <= formation_slot(i, cols).1,
        formation_slot(i, cols).1 * cols + formation_slot(i, cols).0 == i,
        i < cols ==> formation_slot(i, cols) == (i, 0int),
{
    vstd::arithmetic::div_mod::lemma_fundamental_div_mod(i, cols);
    assert(0 <= i % cols < cols) by (nonlinear_arith)
        requires cols > 0;
    assert(0 <= i / cols) by (nonlinear_arith)
        requires cols > 0, 0 <= i;
    assert(formation_slot(i, cols).1 * cols == cols * formation_slot(i, cols).1) by (nonlinear_arith);
    if i < cols {
        assert(i / cols == 0 && i % cols == i) by (nonlinear_arith)
            requires 0 <= i < cols;
    }
}

/// No two tanks of one order share a formation slot.
pub proof fn lemma_formation_slots_distinct(i: int, j: int, cols: int)
    requires
        cols > 0,
        0 <= i,
        0 <= j,
        i != j,
    ensures
        formation_slot(i, cols) != formation_slot(j, cols),
{
    vstd::arithmetic::div_mod::lemma_fundamental_div_mod(i, cols);
    vstd::arithmetic::div_mod::lemma_fundamental_div_mod(j, cols);
}

} // verus!
