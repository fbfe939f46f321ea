//! A small store for named secrets.
//!
//! Each secret is kept as one ciphertext blob under a store root. The plaintext
//! lives only in containers that scrub their storage on release, the cipher is
//! an outside engine reached through a narrow gateway, and every step of the
//! insert, retrieve and initialize operations carries a proved contract.

pub mod cli;
pub mod crypto;
pub mod fs;
pub mod input;
pub mod output;
pub mod secrets;
pub mod store;
pub mod text;
