//! Credential and bearer-token core of a small record-management service.
//!
//! `auth` hashes and checks passwords and issues and validates signed,
//! expiring tokens; `secret_key` draws the signing secret; `lifetime` states
//! how a token's validity moves with time; `login` and `migration` hold the
//! two decisions that the service makes with passwords.
//!
//! The cryptography itself is that of the crates `bcrypt` and
//! `jsonwebtoken`, the randomness that of `rand`, the time that of the system
//! clock. What is taken on trust of them is gathered in `hashing`, `signing`,
//! `randomness` and `clock`; everything else is proved against those
//! statements.

pub mod auth;
pub mod clock;
pub mod hashing;
pub mod lifetime;
pub mod login;
pub mod migration;
pub mod models;
pub mod randomness;
pub mod secret_key;
pub mod signing;
