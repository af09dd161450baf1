//! Game rules and bookkeeping of an isometric WWII tank battle, verified with
//! Verus: the deterministic random generator and the bounded wreckage pool of
//! the effects, the index arithmetic of the battlefield and effect meshes, the
//! track texture, discrete camera zoom, main-gun fire control, the destruction
//! latch of a tank, squad formation slots, pointer gestures, and the game flow.
//! Everything that is floating-point geometry or engine plumbing lives in the
//! game binary around this library.

pub mod camera;
pub mod combat;
pub mod effects;
pub mod input;
pub mod squad;
pub mod tank;
pub mod terrain;
pub mod ui;
pub mod version;
pub mod weapons;
