//! The standard account path and the key-generation and signing entry points.
use vstd::prelude::*;

use crate::key::{derive_path, derived, DerivationScheme, ExtendedKey};
use crate::path::{
    coin_type_of, harden, harden_result, DerivationIndex, KeyContext, KeyError, HARDENED_OFFSET,
};

verus! {

/// A path of the five BIP44 levels: purpose, coin type, account, change and
/// address index.
pub type BIP44Path = [DerivationIndex; 5];

/// Purpose level of every account path.
pub const PURPOSE: u32 = 44;

/// The account path `44'/coin_type'/account'/0/key_index`, or `InvalidIndex`
/// when the account cannot be hardened.
pub open spec fn account_path(
    context: KeyContext,
    account: DerivationIndex,
    key_index: DerivationIndex,
) -> Result<Seq<DerivationIndex>, KeyError> {
    if account < HARDENED_OFFSET {
        Ok(
            seq![
                (PURPOSE + HARDENED_OFFSET) as u32,
                (coin_type_of(context) + HARDENED_OFFSET) as u32,
                (account + HARDENED_OFFSET) as u32,
                0u32,
                key_index,
            ],
        )
    } else {
        Err(KeyError::InvalidIndex)
    }
}

/// The key at the account path, or the error of building that path.
pub open spec fn key_gen_result<K: ExtendedKey>(
    root: K,
    context: KeyContext,
    account: DerivationIndex,
    key_index: DerivationIndex,
    scheme: DerivationScheme,
) -> Result<K, KeyError> {
    match account_path(context, account, key_index) {
        Ok(path) => Ok(derived(root, scheme, path)),
        Err(e) => Err(e),
    }
}

/// The signature of `data` by the key at `path` below `root`.
pub open spec fn raw_signature<K: ExtendedKey>(
    root: K,
    path: Seq<DerivationIndex>,
    data: Seq<u8>,
    scheme: DerivationScheme,
) -> Seq<u8> {
    derived(root, scheme, path).signature(data)
}

/// The signature of `data` by the key at the account path, or the error of
/// building that path.
pub open spec fn sign_result<K: ExtendedKey>(
    root: K,
    context: KeyContext,
    account: DerivationIndex,
    key_index: DerivationIndex,
    data: Seq<u8>,
    scheme: DerivationScheme,
) -> Result<Seq<u8>, KeyError> {
    match account_path(context, account, key_index) {
        Ok(path) => Ok(raw_signature(root, path, data, scheme)),
        Err(e) => Err(e),
    }
}

/// Builds the account path `44'/coin_type'/account'/0/key_index`: purpose,
/// coin type and account hardened, the external chain 0, and the key index as
/// given. Fails with `InvalidIndex` when the account is too large to harden.
pub fn bip44_path(
    context: KeyContext,
    account: DerivationIndex,
    key_index: DerivationIndex,
) -> (r: Result<BIP44Path, KeyError>)
    ensures
        match r {
            Ok(p) => account_path(context, account, key_index) == Ok::<
                Seq<DerivationIndex>,
                KeyError,
            >(p@),
            Err(e) => account_path(context, account, key_index) == Err::<
                Seq<DerivationIndex>,
                KeyError,
            >(e),
        },
{
    let purpose = match harden(PURPOSE) {
        Ok(i) => i,
        Err(e) => return Err(e),
    };
    let coin_type = match harden(context.coin_type()) {
        Ok(i) => i,
        Err(e) => return Err(e),
    };
    let account_index = match harden(account) {
        Ok(i) => i,
        Err(e) => return Err(e),
    };
    let p: BIP44Path = [purpose, coin_type, account_index, 0, key_index];
    assert(p@ =~= seq![purpose, coin_type, account_index, 0u32, key_index]);
    Ok(p)
}

/// Derives the key at the account path `44'/coin_type'/account'/0/key_index`
/// below `root_key`.
///
/// Fails with `InvalidIndex`, deriving nothing, when the account is too large
/// to harden.
pub fn key_gen<K: ExtendedKey>(
    root_key: K,
    context: KeyContext,
    account: DerivationIndex,
    key_index: DerivationIndex,
    scheme: DerivationScheme,
) -> (r: Result<K, KeyError>)
    ensures
        r == key_gen_result(root_key, context, account, key_index, scheme),
        r is Ok <==> account < HARDENED_OFFSET,
{
    match bip44_path(context, account, key_index) {
        Ok(path) => Ok(derive_path(&root_key, &path, scheme)),
        Err(e) => Err(e),
    }
}

/// Derives the key at an arbitrary `path` below `root_key` and signs `data`
/// with it, returning the signature's bytes. The path's shape is not checked.
pub fn raw_sign<K: ExtendedKey>(
    root_key: &K,
    path: &[DerivationIndex],
    data: &[u8],
    scheme: DerivationScheme,
) -> (r: Vec<u8>)
    ensures
        r@ == raw_signature(*root_key, path@, data@, scheme),
        r@.len() == K::signature_len(),
        r@.len() > 0,
{
    let derived_key = derive_path(root_key, path, scheme);
    derived_key.sign(data)
}

/// Signs `prefix_encoded_tx` with the key at the account path
/// `44'/coin_type'/account'/0/key_index` below `root_key`; the same as
/// [`raw_sign`] on that path.
///
/// Fails with `InvalidIndex`, signing nothing, when the account is too large
/// to harden.
pub fn sign<K: ExtendedKey>(
    root_key: &K,
    context: KeyContext,
    account: DerivationIndex,
    key_index: DerivationIndex,
    prefix_encoded_tx: &[u8],
    scheme: DerivationScheme,
) -> (r: Result<Vec<u8>, KeyError>)
    ensures
        match r {
            Ok(sig) => sign_result(*root_key, context, account, key_index, prefix_encoded_tx@, scheme)
                == Ok::<Seq<u8>, KeyError>(sig@) && sig@.len() == K::signature_len() && sig@.len()
                > 0,
            Err(e) => sign_result(*root_key, context, account, key_index, prefix_encoded_tx@, scheme)
                == Err::<Seq<u8>, KeyError>(e),
        },
        r is Ok <==> account < HARDENED_OFFSET,
{
    match bip44_path(context, account, key_index) {
        Ok(path) => Ok(raw_sign(root_key, &path, prefix_encoded_tx, scheme)),
        Err(e) => Err(e),
    }
}

/// Key generation derives, in order, along
/// `[harden(44), harden(coin_type), harden(account), 0, key_index]`.
pub proof fn lemma_key_gen_follows_account_path<K: ExtendedKey>(
    root: K,
    context: KeyContext,
    account: DerivationIndex,
    key_index: DerivationIndex,
    scheme: DerivationScheme,
)
    requires
        account < HARDENED_OFFSET,
    ensures
        key_gen_result(root, context, account, key_index, scheme) == Ok::<K, KeyError>(
            derived(
                root,
                scheme,
                seq![
                    harden_result(PURPOSE)->Ok_0,
                    harden_result(coin_type_of(context))->Ok_0,
                    harden_result(account)->Ok_0,
                    0u32,
                    key_index,
                ],
            ),
        ),
{
}

/// Signing on the account path is exactly raw signing on that path, and is
/// the signature by the key that key generation gives for the same inputs.
pub proof fn lemma_sign_is_raw_sign_on_account_path<K: ExtendedKey>(
    root: K,
    context: KeyContext,
    account: DerivationIndex,
    key_index: DerivationIndex,
    data: Seq<u8>,
    scheme: DerivationScheme,
)
    requires
        account < HARDENED_OFFSET,
    ensures
        account_path(context, account, key_index) is Ok,
        sign_result(root, context, account, key_index, data, scheme) == Ok::<Seq<u8>, KeyError>(
            raw_signature(root, account_path(context, account, key_index)->Ok_0, data, scheme),
        ),
        sign_result(root, context, account, key_index, data, scheme) == Ok::<Seq<u8>, KeyError>(
            key_gen_result(root, context, account, key_index, scheme)->Ok_0.signature(data),
        ),
{
}

/// Key generation and signing are deterministic: two calls with the same
/// inputs have the same outcome.
pub proof fn lemma_deterministic<K: ExtendedKey>(
    root: K,
    context: KeyContext,
    account: DerivationIndex,
    key_index: DerivationIndex,
    data: Seq<u8>,
    scheme: DerivationScheme,
    first_key: Result<K, KeyError>,
    second_key: Result<K, KeyError>,
    first_signature: Result<Seq<u8>, KeyError>,
    second_signature: Result<Seq<u8>, KeyError>,
)
    requires
        first_key == key_gen_result(root, context, account, key_index, scheme),
        second_key == key_gen_result(root, context, account, key_index, scheme),
        first_signature == sign_result(root, context, account, key_index, data, scheme),
        second_signature == sign_result(root, context, account, key_index, data, scheme),
    ensures
        first_key == second_key,
        first_signature == second_signature,
{
}

} // verus!
