//! Fire control of the main gun.
//!
//! Designating a target only *requests* a shot: the aim point is committed, a
//! marker is dropped on it, and the gun fires once it is loaded and laid on
//! target (turret aligned and gun at the right elevation). While a shot is
//! pending, further designations are ignored, so the shell lands where the
//! player first pointed.

use vstd::prelude::*;

verus! {

/// Main-gun fire-control state, generic over how an aim point is represented.
/// The marker shown on the target is named by its entity's bits.
pub struct FireControl<T> {
    /// A pending "fire the main gun" request, honoured when laid and loaded.
    fire_requested: bool,
    /// The committed impact point for the pending shot.
    fire_target: Option<T>,
    /// The on-ground marker entity shown while a shot is pending.
    marker: Option<u64>,
}

impl<T> View for FireControl<T> {
    type V = Option<(T, u64)>;

    /// The pending shot, if any: its committed target and its marker.
    closed spec fn view(&self) -> Option<(T, u64)> {
        match (self.fire_target, self.marker) {
            (Some(t), Some(m)) => Some((t, m)),
            _ => None,
        }
    }
}

impl<T> FireControl<T> {
    /// The request flag, the target and the marker are set and cleared together.
    #[verifier::type_invariant]
    spec fn consistent(&self) -> bool {
        &&& self.fire_requested == self.fire_target.is_some()
        &&& self.fire_requested == self.marker.is_some()
    }
}

impl<T: Copy> FireControl<T> {
    /// No shot pending.
    pub fn new() -> (fc: Self)
        ensures
            fc@ is None,
    {
        FireControl { fire_requested: false, fire_target: None, marker: None }
    }

    /// Whether a shot is pending.
    pub fn is_pending(&self) -> (pending: bool)
        ensures
            pending == self@.is_some(),
    {
        proof {
            use_type_invariant(self);
        }
        self.fire_requested
    }

    /// Whether a fire press this frame designates a new target: only when the
    /// player pressed fire and no shot is already pending.
    pub fn accepts_designation(&self, fire_main: bool) -> (accept: bool)
        ensures
            accept == (fire_main && self@ is None),
    {
        proof {
            use_type_invariant(self);
        }
        fire_main && !self.fire_requested
    }

    /// Commits `target` as the pending shot's aim point, with `marker` shown on it.
    pub fn designate(&mut self, target: T, marker: u64)
        requires
            old(self)@ is None,
        ensures
            final(self)@ == Some((target, marker)),
    {
        *self = FireControl { fire_requested: true, fire_target: Some(target), marker: Some(marker) };
    }

    /// The committed aim point the turret and gun lay on, while a shot is pending.
    pub fn target(&self) -> (t: Option<T>)
        ensures
            t == (match self@ {
                Some(p) => Some(p.0),
                None => None::<T>,
            }),
    {
        proof {
            use_type_invariant(self);
        }
        self.fire_target
    }

    /// The gun fires only when a shot is pending, the gun is loaded, the turret
    /// is on target, and the gun is laid at the firing elevation.
    pub fn ready_to_fire(&self, loaded: bool, turret_aligned: bool, gun_aligned: bool) -> (ready: bool)
        ensures
            ready == (self@ is Some && loaded && turret_aligned && gun_aligned),
    {
        proof {
            use_type_invariant(self);
        }
        self.fire_requested && loaded && turret_aligned && gun_aligned
    }

    /// The shell is away: clears the pending shot and hands back its marker,
    /// which then fades out.
    pub fn shot_away(&mut self) -> (marker: u64)
        requires
            old(self)@ is Some,
        ensures
            final(self)@ is None,
            marker == old(self)@.unwrap().1,
    {
        proof {
            use_type_invariant(&*self);
        }
        let m = match self.marker {
            Some(m) => m,
            None => 0,
        };
        *self = FireControl { fire_requested: false, fire_target: None, marker: None };
        m
    }
}

} // verus!
