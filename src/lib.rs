//! Hierarchical deterministic key derivation along BIP44-style account paths,
//! and signing with the derived keys.
//!
//! The extended private key itself is a capability supplied by the caller
//! (see [`key::ExtendedKey`]); this crate builds the paths, walks them step by
//! step through that capability, and signs with the key it reaches.
pub mod api;
pub mod key;
pub mod path;

pub use api::{bip44_path, key_gen, raw_sign, sign, BIP44Path};
pub use key::{derive_path, DerivationScheme, ExtendedKey};
pub use path::{harden, DerivationIndex, KeyContext, KeyError, HARDENED_OFFSET};
