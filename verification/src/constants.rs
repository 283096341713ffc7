//! The fixed values that the policy refers to.

use vstd::prelude::*;

verus! {

/// Error code of the service: the ship's cargo hold is full.
pub const CARGO_FULL: i32 = 4228;

/// Error code of the service: nothing can be mined where the ship is.
pub const INVALID_MINING_SITE: i32 = 4205;

/// Error code of the service: too little fuel for the route.
pub const INSUFFICIENT_FUEL: i32 = 4203;

/// Error code of the service: the ship is docked and would have to be in orbit.
pub const NOT_IN_ORBIT: i32 = 4204;

/// Error code of the service: the session's token belongs to no account.
pub const SESSION_INVALID: i32 = 4104;

/// Error code of the service: the token is not yet usable.
pub const SESSION_PENDING: i32 = 4103;

/// Error code of the service: the ship's reactor is still cooling down.
pub const COOLDOWN: i32 = 4000;

/// The code of a classified error whose payload had no structured shape.
pub const UNSTRUCTURED: i32 = 0;

/// Where a ship goes to unload when no better destination is known.
pub const FALLBACK_WAYPOINT: &'static str = "X1-DC54-89945X";

/// The resource that is held back for a standing contract and never sold.
pub const RESERVED_RESOURCE: &'static str = "ANTIMATTER";

/// The trait that marks a waypoint as a place to mine.
pub const MINING_TRAIT: &'static str = "PRECIOUS_METAL_DEPOSITS";

/// Configuration section that holds the session's credentials.
pub const SESSION_SECTION: &'static str = "spacetraders";

/// Configuration key of the bearer token.
pub const TOKEN_KEY: &'static str = "token";

/// Configuration key of the service's base address.
pub const URL_KEY: &'static str = "url";

/// The name under which a new account is registered.
pub const CALLSIGN: &'static str = "yvonne-aizawa";

/// The faction that a new account joins.
pub const FACTION: &'static str = "VOID";

/// Ships fetched per cycle.
pub const FLEET_PAGE_SIZE: i32 = 5;

/// The page of waypoints that is searched for a mining site.
pub const WAYPOINT_PAGE: i32 = 1;

/// Waypoints fetched when a mining site is searched.
pub const WAYPOINT_PAGE_SIZE: i32 = 10;

/// Seconds between two cycles.
pub const CYCLE_SECONDS: u64 = 10;

/// The page counter runs from 1 to this bound and then starts again.
pub const PAGE_ROTATION: i32 = 3;

} // verus!
