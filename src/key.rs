//! The extended-private-key capability and sequential derivation along a path.
use vstd::prelude::*;

use crate::path::DerivationIndex;

verus! {

/// Which hierarchical-deterministic derivation scheme a step follows.
#[derive(Clone, Copy, Debug, PartialEq, Eq, Structural)]
pub enum DerivationScheme {
    V1,
    V2,
}

/// An extended private key, as supplied by the caller.
///
/// Implementors promise that deriving a child and signing are functions of
/// their inputs alone (`child` and `signature`), that deriving leaves the
/// parent untouched, and that every signature of the key type is non-empty
/// and has the one length `signature_len`.
///
/// The three spec functions stand for the key type's own derivation and
/// signature algorithms. Their default bodies name no particular value, and
/// code generic over the key type never sees them; an implementation that is
/// verified states its own, as it must to meet the contracts below.
pub trait ExtendedKey: Sized {
    /// The child key at `index` under `scheme`.
    open spec fn child(&self, scheme: DerivationScheme, index: DerivationIndex) -> Self {
        arbitrary()
    }

    /// The signature bytes of `data` under this key.
    open spec fn signature(&self, data: Seq<u8>) -> Seq<u8> {
        arbitrary()
    }

    /// The length of every signature of this key type.
    open spec fn signature_len() -> nat {
        arbitrary()
    }

    /// A copy of this key.
    fn duplicate(&self) -> (r: Self)
        ensures
            r == *self,
    ;

    /// Derives the child key at `index` under `scheme`.
    fn derive(&self, scheme: DerivationScheme, index: DerivationIndex) -> (r: Self)
        ensures
            r == self.child(scheme, index),
    ;

    /// Signs `data`, returning the signature's byte encoding.
    fn sign(&self, data: &[u8]) -> (r: Vec<u8>)
        ensures
            r@ == self.signature(data@),
            r@.len() == Self::signature_len(),
            r@.len() > 0,
    ;
}

/// The key reached from `root` by deriving each index of `path` in order.
pub open spec fn derived<K: ExtendedKey>(
    root: K,
    scheme: DerivationScheme,
    path: Seq<DerivationIndex>,
) -> K
    decreases path.len(),
{
    if path.len() == 0 {
        root
    } else {
        derived(root, scheme, path.drop_last()).child(scheme, path.last())
    }
}

/// Walks `root` through `path`, one child derivation per index, in order.
/// The root is only read; the key reached is returned.
pub fn derive_path<K: ExtendedKey>(
    root_key: &K,
    path: &[DerivationIndex],
    scheme: DerivationScheme,
) -> (r: K)
    ensures
        r == derived(*root_key, scheme, path@),
{
    let mut current = root_key.duplicate();
    let mut i: usize = 0;
    while i < path.len()
        invariant
            i <= path@.len(),
            current == derived(*root_key, scheme, path@.subrange(0, i as int)),
        decreases path@.len() - i,
    {
        let index = path[i];
        current = current.derive(scheme, index);
        proof {
            assert(path@.subrange(0, i + 1).drop_last() =~= path@.subrange(0, i as int));
        }
        i = i + 1;
    }
    proof {
        assert(path@.subrange(0, path@.len() as int) =~= path@);
    }
    current
}

/// Deriving along the empty path gives back the root itself.
pub proof fn lemma_derive_empty<K: ExtendedKey>(root: K, scheme: DerivationScheme)
    ensures
        derived(root, scheme, Seq::<DerivationIndex>::empty()) == root,
{
}

/// Deriving along `first + second` is deriving along `first`, then along
/// `second` from the key reached.
pub proof fn lemma_derive_concat<K: ExtendedKey>(
    root: K,
    scheme: DerivationScheme,
    first: Seq<DerivationIndex>,
    second: Seq<DerivationIndex>,
)
    ensures
        derived(root, scheme, first + second) == derived(derived(root, scheme, first), scheme, second),
    decreases second.len(),
{
    if second.len() == 0 {
        assert(first + second =~= first);
    } else {
        lemma_derive_concat(root, scheme, first, second.drop_last());
        assert((first + second).drop_last() =~= first + second.drop_last());
        assert((first + second).last() == second.last());
    }
}

/// Deriving along a two-step path `[a, b]` is deriving `[a]`, then `[b]` from
/// the key reached; each single step is one child derivation.
pub proof fn lemma_derive_two_steps<K: ExtendedKey>(
    root: K,
    scheme: DerivationScheme,
    a: DerivationIndex,
    b: DerivationIndex,
)
    ensures
        derived(root, scheme, seq![a, b]) == derived(derived(root, scheme, seq![a]), scheme, seq![b]),
        derived(root, scheme, seq![a]) == root.child(scheme, a),
        derived(root, scheme, seq![a, b]) == root.child(scheme, a).child(scheme, b),
{
    lemma_derive_concat(root, scheme, seq![a], seq![b]);
    assert(seq![a] + seq![b] =~= seq![a, b]);
    assert(seq![a].drop_last() =~= Seq::<DerivationIndex>::empty());
    assert(seq![a, b].drop_last() =~= seq![a]);
    assert(seq![b].drop_last() =~= Seq::<DerivationIndex>::empty());
    assert(derived(root, scheme, seq![a]) == derived(root, scheme, seq![a].drop_last()).child(
        scheme,
        seq![a].last(),
    ));
    assert(derived(root, scheme, seq![a, b]) == derived(root, scheme, seq![a, b].drop_last()).child(
        scheme,
        seq![a, b].last(),
    ));
}

} // verus!
