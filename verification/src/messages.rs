//! Messages sent between the client and server, usually over the network.
//!
//! These hold plain values only; the process serializes them.

use vstd::prelude::*;

verus! {

/// Description of the client or server version to determine compatibility.
///
/// This struct must remain stable across all versions
/// so old versions can parse the message from new versions.
#[derive(Debug, Clone)]
pub struct Version {
    /// The name of the game, for example "RecWars" or "RustCycles".
    /// Since they use very similar protocols, this is used to make sure
    /// we're not accidentally connecting to the wrong game's server.
    pub game: String,
    pub major: u32,
    pub minor: u32,
    pub patch: u32,
    /// Pre-release identifier sometimes used in SemVer.
    /// For example "alpha.1" or "rc.0".
    pub pre: Option<String>,
    /// Number of commits since the last tag.
    pub commits: Option<u32>,
    /// Git commit hash.
    pub hash: Option<String>,
    /// Whether the working directory was dirty when building.
    pub dirty: Option<bool>,
    /// Any extra unstructured information.
    pub extra: Option<String>,
}

/// Initial game state that is sent to a new player upon connecting.
#[derive(Debug, Clone)]
pub struct Init {
    pub player_indices: Vec<u32>,
    pub local_player_index: u32,
    pub player_cycles: Vec<PlayerCycle>,
    pub player_projectiles: Vec<PlayerProjectile>,
}

/// Add a new player to the game.
#[derive(Debug, Clone)]
pub struct AddPlayer {
    pub player_index: u32,
    pub name: String,
}

/// Remove the cycle from game state.
#[derive(Debug, Clone, Copy, PartialEq, Eq, Structural)]
pub struct DespawnCycle {
    pub cycle_index: u32,
}

/// Which player a cycle belongs to.
#[derive(Debug, Clone, Copy, PartialEq, Eq, Structural)]
pub struct PlayerCycle {
    pub player_index: u32,
    pub cycle_index: u32,
}

/// Which player a projectile belongs to.
#[derive(Debug, Clone, Copy, PartialEq, Eq, Structural)]
pub struct PlayerProjectile {
    pub player_index: u32,
    pub projectile_index: u32,
}

} // verus!
