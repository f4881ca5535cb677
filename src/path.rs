//! Derivation indices, the hardening convention and the coin-type lookup.
use vstd::prelude::*;

verus! {

/// One step of a derivation path.
pub type DerivationIndex = u32;

/// Offset that marks a derivation index as hardened.
pub const HARDENED_OFFSET: u32 = 0x8000_0000;

/// Why a key could not be derived.
#[derive(Clone, Copy, Debug, PartialEq, Eq, Structural)]
pub enum KeyError {
    /// Adding the hardening offset to the index would leave the 32-bit range
    /// (the index was too large, or already hardened).
    InvalidIndex,
}

/// The application namespace a key is derived under.
#[derive(Clone, Copy, Debug, PartialEq, Eq, Structural)]
pub enum KeyContext {
    /// On-chain spending keys.
    Address,
    /// Non-monetary identity keys.
    Identity,
}

/// The coin-type constant registered for a context.
pub open spec fn coin_type_of(context: KeyContext) -> u32 {
    match context {
        KeyContext::Address => 283,
        KeyContext::Identity => 0,
    }
}

/// An index is hardened when it carries the hardening offset.
pub open spec fn is_hardened(index: u32) -> bool {
    index >= HARDENED_OFFSET
}

/// The hardened form of `index`, or `InvalidIndex` when it does not fit.
pub open spec fn harden_result(index: u32) -> Result<u32, KeyError> {
    if index < HARDENED_OFFSET {
        Ok((index + HARDENED_OFFSET) as u32)
    } else {
        Err(KeyError::InvalidIndex)
    }
}

impl KeyContext {
    /// The coin-type constant of this context: 283 for `Address`, 0 for
    /// `Identity`.
    pub fn coin_type(&self) -> (r: DerivationIndex)
        ensures
            r == coin_type_of(*self),
    {
        match self {
            KeyContext::Address => 283,
            KeyContext::Identity => 0,
        }
    }
}

/// Marks `index` as hardened by adding [`HARDENED_OFFSET`].
///
/// An index that already carries the offset, or would overflow with it, is
/// refused with `InvalidIndex` rather than wrapped.
pub fn harden(index: DerivationIndex) -> (r: Result<DerivationIndex, KeyError>)
    ensures
        r == harden_result(index),
{
    if index < HARDENED_OFFSET {
        Ok(index + HARDENED_OFFSET)
    } else {
        Err(KeyError::InvalidIndex)
    }
}

/// Every index below the offset hardens to exactly `index + HARDENED_OFFSET`,
/// which is a hardened index and so differs from every index that is not.
pub proof fn lemma_harden_exact(index: u32, plain: u32)
    requires
        index < HARDENED_OFFSET,
        !is_hardened(plain),
    ensures
        harden_result(index) is Ok,
        harden_result(index)->Ok_0 == index + HARDENED_OFFSET,
        is_hardened(harden_result(index)->Ok_0),
        harden_result(index)->Ok_0 != plain,
{
}

/// Only two contexts exist, with coin types 283 and 0.
pub proof fn lemma_coin_types(context: KeyContext)
    ensures
        context == KeyContext::Address || context == KeyContext::Identity,
        coin_type_of(KeyContext::Address) == 283,
        coin_type_of(KeyContext::Identity) == 0,
{
}

} // verus!
