//! Identity and credential lifecycle core: registration, email verification,
//! login, password recovery, federated upsert, and session tokens, with the
//! store modelled as a verified in-memory structure.
pub mod clock;
pub mod digits;
pub mod errors;
pub mod lifecycle;
pub mod password;
pub mod session;
pub mod store;
pub mod tokens;

