//! Time-based one-time passwords (RFC 6238) on top of HMAC-based one-time
//! passwords (RFC 4226), with machine-checked contracts.
//!
//! A [`Secret`] is decoded from base32 text. [`get_hotp`] turns a secret and
//! a counter into a code; [`totp_at`] does so for the time step that holds a
//! given time, and [`get_totp`] for the current time.

pub mod clock;
pub mod config;
pub mod defaults;
pub mod error;
pub mod facade;
pub mod hmac;
pub mod hotp;
pub mod secret;
pub mod time_step;

pub use crate::clock::unix_time;
pub use crate::config::Config;
pub use crate::defaults::EpochTime;
pub use crate::error::TotpError;
pub use crate::facade::{get_totp, get_totp_ext, get_totp_remainder, get_totp_step, totp_at};
pub use crate::hotp::{counter_bytes, get_hotp, get_hotp_dt, hotp_from_digest};
pub use crate::secret::{decode_secret, Secret};
pub use crate::time_step::{totp_remainder_at, totp_step_at};
