//! Session tokens for the registered users of a vehicle-identification
//! service: issuing signed, time-limited tokens, verifying them, and deciding
//! whether a request that presents one may pass.

pub mod claims;
pub mod clock;
pub mod gate;
pub mod header;
pub mod payload;
pub mod token;
pub mod users;
