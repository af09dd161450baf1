//! Bookkeeping behind the polygon effects: the tiny deterministic random
//! generator that varies every puff, the bounded pool of persistent wreckage,
//! and the triangle fans that the puff and flash polygons are built from.

use std::collections::VecDeque;
use vstd::prelude::*;

verus! {

/// One step of the 32-bit xorshift generator (shifts 13, 17, 5).
pub open spec fn xorshift(x: u32) -> u32 {
    let a = x ^ (x << 13u32);
    let b = a ^ (a >> 17u32);
    b ^ (b << 5u32)
}

/// A nonzero state never steps to zero, so a generator seeded with a nonzero
/// state can never get stuck at zero.
pub proof fn lemma_xorshift_nonzero(x: u32)
    requires
        x != 0,
    ensures
        xorshift(x) != 0,
{
    assert(x != 0 ==> xorshift(x) != 0) by (bit_vector);
}

/// The state after `n` steps from state `x`.
pub open spec fn xorshift_steps(x: u32, n: nat) -> u32
    decreases n,
{
    if n == 0 {
        x
    } else {
        xorshift(xorshift_steps(x, (n - 1) as nat))
    }
}

/// However many numbers are drawn, a generator seeded with a nonzero state
/// (as `Rng::new` always does) never reaches the all-zero state, from which
/// xorshift would only ever produce zeros.
pub proof fn lemma_never_stuck(x: u32, n: nat)
    requires
        x != 0,
    ensures
        xorshift_steps(x, n) != 0,
    decreases n,
{
    if n > 0 {
        lemma_never_stuck(x, (n - 1) as nat);
        lemma_xorshift_nonzero(xorshift_steps(x, (n - 1) as nat));
    }
}

/// Distinct states step to distinct states: the xorshift step is one-to-one.
pub proof fn lemma_xorshift_injective(x: u32, y: u32)
    requires
        xorshift(x) == xorshift(y),
    ensures
        x == y,
{
    let ax = x ^ (x << 13u32);
    let ay = y ^ (y << 13u32);
    let bx = ax ^ (ax >> 17u32);
    let by = ay ^ (ay >> 17u32);
    assert(bx ^ (bx << 5u32) == by ^ (by << 5u32) ==> bx == by) by (bit_vector);
    assert(bx == by ==> ax == ay) by (bit_vector)
        requires bx == ax ^ (ax >> 17u32), by == ay ^ (ay >> 17u32);
    assert(ax == ay ==> x == y) by (bit_vector)
        requires ax == x ^ (x << 13u32), ay == y ^ (y << 13u32);
}

/// Tiny deterministic PRNG (xorshift).
pub struct Rng {
    state: u32,
}

impl Rng {
    /// The state is never zero (the all-zero state would only yield zeros).
    #[verifier::type_invariant]
    spec fn nonzero(&self) -> bool {
        self.state != 0
    }

    /// The generator's current state.
    pub closed spec fn spec_state(&self) -> u32 {
        self.state
    }

    /// Seeds a generator. The low bit is forced on so the state is never zero.
    pub fn new(seed: u32) -> (rng: Rng)
        ensures
            rng.spec_state() == seed | 1u32,
            rng.spec_state() != 0,
    {
        assert(seed | 1u32 != 0) by (bit_vector);
        Rng { state: seed | 1 }
    }

    /// The current state.
    pub fn state(&self) -> (s: u32)
        ensures
            s == self.spec_state(),
            s != 0,
    {
        proof {
            use_type_invariant(self);
        }
        self.state
    }

    /// Advances the generator one step and returns the new state.
    pub fn next_u32(&mut self) -> (x: u32)
        ensures
            x == xorshift(old(self).spec_state()),
            final(self).spec_state() == x,
            x != 0,
    {
        proof {
            use_type_invariant(&*self);
        }
        let mut x = self.state;
        proof {
            lemma_xorshift_nonzero(x);
        }
        x ^= x << 13u32;
        x ^= x >> 17u32;
        x ^= x << 5u32;
        self.state = x;
        x
    }

    /// Advances the generator and returns the top 24 bits of the new state:
    /// the mantissa-sized integer that becomes a uniform fraction in `[0, 1)`
    /// once divided by 2^24.
    pub fn next_u24(&mut self) -> (bits: u32)
        ensures
            bits == xorshift(old(self).spec_state()) >> 8u32,
            bits < 0x100_0000,
            final(self).spec_state() == xorshift(old(self).spec_state()),
    {
        let x = self.next_u32();
        assert(x >> 8u32 < 0x100_0000) by (bit_vector);
        x >> 8u32
    }
}

/// Odd increment (close to 2^32 divided by the golden ratio) between the
/// seeds of consecutive blasts in one frame.
pub const SEED_STRIDE: u32 = 2_654_435_761;

/// The seed for the next projectile's blast in a frame: the previous seed
/// advanced by [`SEED_STRIDE`], wrapping around at 2^32.
pub fn advance_seed(seed: u32) -> (next: u32)
    ensures
        next == (seed + SEED_STRIDE) % 0x1_0000_0000,
{
    seed.wrapping_add(SEED_STRIDE)
}

/// How many pieces of persistent wreckage (debris, craters, track marks) to
/// keep before the oldest are recycled.
pub const WRECKAGE_BUDGET: usize = 600;

/// What the pool holds after `all` pieces were added in order: the newest
/// `WRECKAGE_BUDGET` of them, oldest first.
pub open spec fn kept_wreckage(all: Seq<u64>) -> Seq<u64> {
    if all.len() <= WRECKAGE_BUDGET {
        all
    } else {
        all.subrange(all.len() - WRECKAGE_BUDGET, all.len() as int)
    }
}

/// Ring buffer of persistent wreckage, each piece named by its entity's bits.
/// Debris and craters are not despawned on a timer; the oldest are recycled
/// only when the budget is exceeded.
pub struct Wreckage {
    items: VecDeque<u64>,
}

impl View for Wreckage {
    type V = Seq<u64>;

    /// The pieces in the pool, oldest first.
    closed spec fn view(&self) -> Seq<u64> {
        self.items@
    }
}

impl Wreckage {
    /// The pool never holds more than the budget.
    #[verifier::type_invariant]
    spec fn within_budget(&self) -> bool {
        self.items@.len() <= WRECKAGE_BUDGET
    }

    /// An empty pool.
    pub fn new() -> (w: Wreckage)
        ensures
            w@ == Seq::<u64>::empty(),
    {
        Wreckage { items: VecDeque::new() }
    }

    /// Number of pieces currently kept.
    pub fn len(&self) -> (n: usize)
        ensures
            n == self@.len(),
            n <= WRECKAGE_BUDGET,
    {
        proof {
            use_type_invariant(self);
        }
        self.items.len()
    }

    /// The pieces currently kept, oldest first.
    pub fn items(&self) -> (v: Vec<u64>)
        ensures
            v@ == self@,
    {
        let mut v: Vec<u64> = Vec::new();
        let n = self.items.len();
        let mut i: usize = 0;
        while i < n
            invariant
                n == self.items@.len(),
                i <= n,
                v@ == self.items@.subrange(0, i as int),
            decreases n - i,
        {
            v.push(self.items[i]);
            i = i + 1;
        }
        proof {
            assert(v@ =~= self.items@);
        }
        v
    }

    /// Records a new piece. While the pool is over budget the oldest pieces
    /// are dropped from it; they are returned, oldest first, for the caller to
    /// despawn.
    pub fn add(&mut self, entity: u64) -> (evicted: Vec<u64>)
        ensures
            evicted@ + final(self)@ == old(self)@.push(entity),
            final(self)@ == kept_wreckage(old(self)@.push(entity)),
            final(self)@.len() <= WRECKAGE_BUDGET,
            old(self)@.len() < WRECKAGE_BUDGET ==> evicted@.len() == 0,
            final(self)@.len() == (if old(self)@.len() < WRECKAGE_BUDGET {
                old(self)@.len() + 1
            } else {
                WRECKAGE_BUDGET as nat
            }),
            final(self)@.last() == entity,
    {
        proof {
            use_type_invariant(&*self);
        }
        let ghost all = self.items@.push(entity);
        let mut items: VecDeque<u64> = VecDeque::new();
        std::mem::swap(&mut items, &mut self.items);
        items.push_back(entity);
        let mut evicted: Vec<u64> = Vec::new();
        while items.len() > WRECKAGE_BUDGET
            invariant
                evicted@ + items@ == all,
                all.len() <= WRECKAGE_BUDGET + 1,
                items@.len() >= WRECKAGE_BUDGET || evicted@.len() == 0,
            decreases items@.len(),
        {
            if let Some(old) = items.pop_front() {
                evicted.push(old);
            }
        }
        proof {
            assert(items@ =~= kept_wreckage(all));
        }
        self.items = items;
        evicted
    }
}

/// Adding pieces one at a time to a pool that holds the newest pieces of a
/// history leaves it holding the newest pieces of the longer history: however
/// many `add` calls are made, the pool is always the newest
/// `WRECKAGE_BUDGET` pieces ever added, in the order they were added.
pub proof fn lemma_wreckage_keeps_newest(history: Seq<u64>, entity: u64)
    ensures
        kept_wreckage(kept_wreckage(history).push(entity)) == kept_wreckage(history.push(entity)),
{
    let k = kept_wreckage(history);
    if history.len() > WRECKAGE_BUDGET {
        assert(kept_wreckage(k.push(entity)) =~= kept_wreckage(history.push(entity)));
    } else {
        assert(k =~= history);
    }
}

impl Default for Wreckage {
    /// An empty pool.
    fn default() -> (w: Wreckage)
        ensures
            w@ == Seq::<u64>::empty(),
    {
        Wreckage::new()
    }
}

/// The `k`-th index of a triangle fan around a centre vertex 0 with `rim` rim
/// vertices `1..=rim`: triangle `i` is `(0, i + 1, (i + 1) % rim + 1)`.
pub open spec fn fan_index(rim: nat, k: int) -> int {
    let i = k / 3;
    let corner = k % 3;
    if corner == 0 {
        0
    } else if corner == 1 {
        i + 1
    } else {
        (i + 1) % (rim as int) + 1
    }
}

/// Triangle `i` of a fan with `rim` rim vertices joins the centre (vertex 0)
/// to rim vertex `i + 1` and to the next rim vertex, `i + 2`, wrapping from the
/// last rim vertex back to the first; so with at least two rim vertices every
/// triangle has two distinct, consecutive rim corners.
pub proof fn lemma_fan_triangle(rim: int, i: int)
    requires
        0 <= i < rim,
    ensures
        fan_index(rim as nat, 3 * i) == 0,
        fan_index(rim as nat, 3 * i + 1) == i + 1,
        fan_index(rim as nat, 3 * i + 2) == (if i + 1 < rim { i + 2 } else { 1 }),
        rim >= 2 ==> fan_index(rim as nat, 3 * i + 1) != fan_index(rim as nat, 3 * i + 2),
        1 <= fan_index(rim as nat, 3 * i + 2) <= rim,
{
    assert((3 * i) / 3 == i && (3 * i) % 3 == 0) by (nonlinear_arith)
        requires 0 <= i;
    assert((3 * i + 1) / 3 == i && (3 * i + 1) % 3 == 1) by (nonlinear_arith)
        requires 0 <= i;
    assert((3 * i + 2) / 3 == i && (3 * i + 2) % 3 == 2) by (nonlinear_arith)
        requires 0 <= i;
    if i + 1 < rim {
        assert((i + 1) % rim == i + 1) by (nonlinear_arith)
            requires 0 <= i + 1 < rim;
    } else {
        assert((i + 1) % rim == 0) by (nonlinear_arith)
            requires i + 1 == rim, rim > 0;
    }
}

/// Triangle indices of a flat polygon fan: a centre vertex 0 joined to each
/// consecutive pair of the `rim` rim vertices `1..=rim`, wrapping the last rim
/// vertex back to the first. The puff n-gon uses `rim = sides`; the flash star
/// uses `rim = 2 * points` (tips and valleys alternate).
pub fn fan_indices(rim: usize) -> (indices: Vec<u32>)
    requires
        rim < u32::MAX,
    ensures
        indices@.len() == 3 * rim,
        forall|k: int| 0 <= k < 3 * rim ==> #[trigger] indices@[k] as int == fan_index(rim as nat, k),
        forall|k: int| 0 <= k < 3 * rim ==> #[trigger] indices@[k] <= rim,
        forall|k: int| 0 <= k < 3 * rim ==> {
            &&& k % 3 == 0 ==> #[trigger] indices@[k] == 0
            &&& k % 3 == 1 ==> indices@[k] == k / 3 + 1
            &&& k % 3 == 2 ==> indices@[k] == (if k / 3 + 1 < rim { k / 3 + 2 } else { 1 })
        },
{
    let mut indices: Vec<u32> = Vec::new();
    let mut i: usize = 0;
    while i < rim
        invariant
            i <= rim,
            rim < u32::MAX,
            indices@.len() == 3 * i,
            forall|k: int| 0 <= k < 3 * i ==> #[trigger] indices@[k] as int == fan_index(rim as nat, k),
        decreases rim - i,
    {
        let next = (i + 1) % rim;
        indices.push(0u32);
        indices.push((i + 1) as u32);
        indices.push((next + 1) as u32);
        proof {
            assert forall|k: int| 0 <= k < 3 * (i + 1) implies #[trigger] indices@[k] as int == fan_index(rim as nat, k) by {
                if k >= 3 * i {
                    assert(k / 3 == i as int) by (nonlinear_arith)
                        requires 3 * i <= k < 3 * (i + 1);
                    assert(k % 3 == k - 3 * i) by (nonlinear_arith)
                        requires 3 * i <= k < 3 * (i + 1);
                }
            }
        }
        i = i + 1;
    }
    proof {
        assert forall|k: int| 0 <= k < 3 * rim implies {
            &&& k % 3 == 0 ==> #[trigger] indices@[k] == 0
            &&& k % 3 == 1 ==> indices@[k] == k / 3 + 1
            &&& k % 3 == 2 ==> indices@[k] == (if k / 3 + 1 < rim { k / 3 + 2 } else { 1 })
        } by {
            assert(k / 3 < rim) by (nonlinear_arith)
                requires 0 <= k < 3 * rim;
            assert(0 <= k / 3) by (nonlinear_arith)
                requires 0 <= k;
            assert(indices@[k] as int == fan_index(rim as nat, k));
            lemma_fan_triangle(rim as int, k / 3);
        }
        assert forall|k: int| 0 <= k < 3 * rim implies #[trigger] indices@[k] <= rim by {
            assert(k / 3 < rim) by (nonlinear_arith)
                requires 0 <= k < 3 * rim;
            assert(0 <= k / 3) by (nonlinear_arith)
                requires 0 <= k;
            assert(indices@[k] as int == fan_index(rim as nat, k));
        }
    }
    indices
}

} // verus!
