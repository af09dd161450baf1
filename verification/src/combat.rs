//! The destruction latch of a tank's armor: a tank is knocked out by the first
//! lethal blow only, and its brew-up (explosion, askew turret, smoke column)
//! is triggered exactly once.

use vstd::prelude::*;

verus! {

/// Whether a tank is destroyed, and whether its destruction has yet to be
/// acted on.
pub struct Destruction {
    destroyed: bool,
    /// Set the moment the tank is destroyed, so destruction runs exactly once.
    just_killed: bool,
}

impl View for Destruction {
    type V = (bool, bool);

    /// `(destroyed, destruction not yet acted on)`.
    closed spec fn view(&self) -> (bool, bool) {
        (self.destroyed, self.just_killed)
    }
}

impl Destruction {
    /// A pending destruction is always a real one.
    #[verifier::type_invariant]
    spec fn pending_implies_destroyed(&self) -> bool {
        self.just_killed ==> self.destroyed
    }

    /// An intact tank.
    pub fn new() -> (d: Destruction)
        ensures
            d@ == (false, false),
    {
        Destruction { destroyed: false, just_killed: false }
    }

    /// Whether the tank is destroyed.
    pub fn is_destroyed(&self) -> (destroyed: bool)
        ensures
            destroyed == self@.0,
    {
        self.destroyed
    }

    /// Records a hit on the tank; `lethal` says whether it took the armor to
    /// zero. Returns true if this blow destroyed the tank. Hits on a tank that
    /// is already destroyed change nothing.
    pub fn record_hit(&mut self, lethal: bool) -> (killed: bool)
        ensures
            killed == (!old(self)@.0 && lethal),
            final(self)@.0 == (old(self)@.0 || lethal),
            final(self)@.1 == (old(self)@.1 || killed),
            final(self)@.1 ==> final(self)@.0,
    {
        proof {
            use_type_invariant(&*self);
        }
        if self.destroyed {
            return false;
        }
        if lethal {
            self.destroyed = true;
            self.just_killed = true;
            return true;
        }
        false
    }

    /// Takes the pending destruction: returns true exactly once after the tank
    /// is destroyed, when the brew-up should be staged.
    pub fn take_kill(&mut self) -> (fresh: bool)
        ensures
            fresh == old(self)@.1,
            fresh ==> old(self)@.0,
            final(self)@ == (old(self)@.0, false),
    {
        proof {
            use_type_invariant(&*self);
        }
        if self.just_killed {
            self.just_killed = false;
            true
        } else {
            false
        }
    }
}

/// How many of a run of hits (each lethal or not, in order) report a kill,
/// for a tank that starts `destroyed` or intact, stepping as `record_hit`
/// does: a hit reports a kill when the tank was intact and the hit was lethal,
/// and a lethal hit leaves the tank destroyed.
pub open spec fn kills_reported(destroyed: bool, hits: Seq<bool>) -> nat
    decreases hits.len(),
{
    if hits.len() == 0 {
        0
    } else {
        let killed = !destroyed && hits[0];
        (if killed { 1nat } else { 0nat }) + kills_reported(destroyed || hits[0], hits.drop_first())
    }
}

/// A tank is destroyed at most once, whatever hits it takes: an intact tank
/// reports exactly one kill if any of its hits is lethal and none otherwise,
/// and a destroyed tank never reports another.
pub proof fn lemma_destroyed_at_most_once(destroyed: bool, hits: Seq<bool>)
    ensures
        kills_reported(destroyed, hits) <= 1,
        destroyed ==> kills_reported(destroyed, hits) == 0,
        !destroyed ==> (kills_reported(destroyed, hits) == 1 <==> hits.contains(true)),
    decreases hits.len(),
{
    if hits.len() > 0 {
        lemma_destroyed_at_most_once(destroyed || hits[0], hits.drop_first());
        if !destroyed && !hits[0] {
            assert(hits.contains(true) <==> hits.drop_first().contains(true)) by {
                if hits.contains(true) {
                    let k = choose|k: int| 0 <= k < hits.len() && hits[k] == true;
                    assert(hits.drop_first()[k - 1] == true);
                }
                if hits.drop_first().contains(true) {
                    let k = choose|k: int| 0 <= k < hits.drop_first().len() && hits.drop_first()[k] == true;
                    assert(hits[k + 1] == true);
                }
            }
        }
        if !destroyed && hits[0] {
            assert(hits[0] == true);
            assert(hits.contains(true));
        }
    }
}

} // verus!
