//! Session correlation and credential issuance for a community gatekeeping
//! service: short-lived single-use correlation records that carry a
//! verification request across an identity provider's redirect, an opaque
//! bearer credential scheme for dashboard operators, and the replay guard
//! that makes only the most recently issued credential valid.

pub mod api;
pub mod b64;
pub mod be_bytes;
pub mod correlation;
pub mod credential;
pub mod decimal;
pub mod directory;
pub mod keytext;
pub mod permissions;
pub mod replay;
pub mod rng;
pub mod rules;
pub mod settings;
pub mod summaries;
pub mod urls;
pub mod verification;
