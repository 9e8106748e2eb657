//! Player response bodies.
use vstd::prelude::*;

verus! {

/// Player removal response.
#[derive(Debug, Clone)]
pub struct PlayerRemovedResponse {
    pub player_id: i32,
    pub message: String,
}

/// Leave game response.
#[derive(Debug, Clone)]
pub struct LeaveGameResponse {
    pub message: String,
}

}
