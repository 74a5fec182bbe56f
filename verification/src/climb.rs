//! Trusted surface over the `layer-climb` crates and `deadpool`.
//!
//! Everything in this module is believed, not proved: each item's doc comment
//! names the outside function or type it relies on.

use vstd::prelude::*;

use crate::pool::AddressKind;

verus! {

/// Chain configuration from `layer_climb_config`. Opaque here: the factory
/// reads its address kind once through `config_addr_kind` and otherwise only
/// hands a copy of it to each constructed client.
#[verifier::external_type_specification]
#[verifier::external_body]
pub struct ExChainConfig(layer_climb_config::ChainConfig);

/// Key signer from `layer_climb_address`, wrapping the extended private key
/// derived from a seed phrase.
#[verifier::external_type_specification]
#[verifier::external_body]
pub struct ExKeySigner(layer_climb_address::KeySigner);

/// Usage statistics from `deadpool::managed`. Carried through `recycle`
/// unread: the factory accepts every returned client whatever they say.
#[verifier::external_type_specification]
#[verifier::external_body]
pub struct ExMetrics(deadpool::managed::Metrics);

/// The key material that BIP-39/BIP-32 derivation yields from a seed phrase
/// at one derivation index along the cosmos-hub path `m/44'/118'/0'/0/index`:
/// `None` when derivation fails there (a malformed phrase, or an index that is
/// no valid path component), otherwise the derived key, as bytes.
///
/// The result depends on the seed phrase and the index alone, in every process
/// and on every machine; nothing further is assumed of its value.
pub uninterp spec fn cosmos_key_material(seed_phrase: Seq<char>, index: u32) -> Option<Seq<u8>>;

/// Relies on `layer_climb_address::cosmos_hub_derivation`, which builds the
/// cosmos-hub derivation path for `index`, and on
/// `layer_climb_address::KeySigner::new_mnemonic_str`, which parses the seed
/// phrase and derives the signing key along that path. Both are deterministic
/// in their arguments, so the call succeeds exactly when a key exists for this
/// phrase and index.
#[verifier::external_body]
pub(crate) fn derive_cosmos_signer(seed_phrase: &str, index: u32) -> (r: Result<
    layer_climb_address::KeySigner,
    String,
>)
    ensures
        r is Ok <==> cosmos_key_material(seed_phrase@, index) is Some,
{
    let path = match layer_climb_address::cosmos_hub_derivation(index) {
        Ok(path) => path,
        Err(err) => return Err(format!("{err}")),
    };
    match layer_climb_address::KeySigner::new_mnemonic_str(seed_phrase, Some(&path)) {
        Ok(signer) => Ok(signer),
        Err(err) => Err(format!("{err}")),
    }
}

/// Relies on `bip32::ExtendedPrivateKey::public_key` and
/// `bip32::ExtendedPublicKey::to_bytes`, reached through the signer's `key`
/// field: the SEC1-compressed public key of the derived signer, 33 bytes.
#[verifier::external_body]
pub(crate) fn signer_public_key_bytes(signer: &layer_climb_address::KeySigner) -> (r: Vec<u8>)
    ensures
        r@.len() == 33,
{
    signer.key.public_key().to_bytes().to_vec()
}

/// Relies on the shape of `layer_climb_config::AddrKind`: tells its variants
/// apart, one arm each, and returns this library's tag for the one found.
#[verifier::external_body]
pub(crate) fn config_addr_kind(config: &layer_climb_config::ChainConfig) -> AddressKind {
    match &config.address_kind {
        layer_climb_config::AddrKind::Cosmos { .. } => AddressKind::Cosmos,
        layer_climb_config::AddrKind::Eth => AddressKind::Eth,
    }
}

/// Relies on `layer_climb_config::ChainConfig::clone`, a derived clone of
/// plain configuration data.
#[verifier::external_body]
pub(crate) fn clone_config(config: &layer_climb_config::ChainConfig) -> layer_climb_config::ChainConfig {
    config.clone()
}

} // verus!
