use vstd::prelude::*;

pub mod errors;
pub mod codec;
pub mod guard;
pub mod hashing;
pub mod laws;
pub mod models;
pub mod routes;
pub mod session;
pub mod store;
pub mod text;

verus! {

/// Cost factor handed to the password hasher when a new password is stored.
pub const BCRYPT_COST: u32 = 10;

/// Server configuration, built once at startup and passed by reference into
/// every handler. Token lifetimes are in seconds.
pub struct RockpassConfig {
    pub registration_enabled: bool,
    pub access_token_lifetime: i64,
    pub refresh_token_lifetime: i64,
}

impl RockpassConfig {
    /// Lifetimes must be non-negative, and small enough that adding one to a
    /// timestamp cannot wrap.
    pub open spec fn wf(&self) -> bool {
        &&& 0 <= self.access_token_lifetime <= i64::MAX / 2
        &&& 0 <= self.refresh_token_lifetime <= i64::MAX / 2
    }
}

impl Default for RockpassConfig {
    /// Registration open, one-hour access tokens, thirty-day refresh tokens.
    fn default() -> (r: RockpassConfig)
        ensures
            r.registration_enabled == true,
            r.access_token_lifetime == 3600,
            r.refresh_token_lifetime == 2592000,
            r.wf(),
    {
        RockpassConfig {
            registration_enabled: true,
            access_token_lifetime: 3600,
            refresh_token_lifetime: 2592000,
        }
    }
}

} // verus!
