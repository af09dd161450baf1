//! The game's version string, shown on the loading screen and in the HUD.

use vstd::prelude::*;

verus! {

/// Semantic version of the game (the `version` field of `Cargo.toml`).
pub const VERSION: &'static str = "0.8.0";

/// Short human-facing build label shown on the loading screen: `v` followed by
/// the version.
pub fn build_label() -> (label: String)
    ensures
        label@ == "v"@ + VERSION@,
{
    String::from_str("v").concat(VERSION)
}

} // verus!
