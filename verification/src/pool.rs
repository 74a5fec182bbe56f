//! The client factory and recycler for a managed pool of signing clients.

use vstd::prelude::*;

use crate::climb::clone_config;
use crate::climb::config_addr_kind;
use crate::climb::cosmos_key_material;
use crate::climb::derive_cosmos_signer;
use crate::climb::signer_public_key_bytes;

verus! {

/// The address families a chain configuration can name.
#[derive(Clone, Copy, Debug, PartialEq, Eq, Structural)]
pub enum AddressKind {
    Cosmos,
    Eth,
}

/// Why creating a signing client failed.
#[derive(Clone, Debug, PartialEq, Eq)]
pub enum PoolError {
    /// The configured address kind has no derivation implementation.
    UnsupportedAddressKind,
    /// The seed phrase and the allocated index produced no valid key
    /// material; the index stays consumed.
    KeyDerivationFailure(String),
}

/// A signing client bound to one derived keypair: the chain configuration it
/// was built for, the signer for that keypair, and the derivation index the
/// keypair came from.
pub struct SigningClient {
    chain_config: layer_climb_config::ChainConfig,
    signer: layer_climb_address::KeySigner,
    derivation_index: u32,
    seed_phrase: Ghost<Seq<char>>,
}

impl SigningClient {
    /// The seed phrase this client's key was derived from (ghost: the phrase
    /// itself is never handed out).
    pub closed spec fn spec_seed_phrase(&self) -> Seq<char> {
        self.seed_phrase@
    }

    /// The derivation index this client's key was derived at.
    pub closed spec fn spec_derivation_index(&self) -> u32 {
        self.derivation_index
    }

    pub closed spec fn spec_chain_config(&self) -> layer_climb_config::ChainConfig {
        self.chain_config
    }

    /// The key material this client is bound to: a function of its seed
    /// phrase and derivation index alone.
    pub open spec fn key_material(&self) -> Option<Seq<u8>> {
        cosmos_key_material(self.spec_seed_phrase(), self.spec_derivation_index())
    }

    pub fn derivation_index(&self) -> (r: u32)
        ensures
            r == self.spec_derivation_index(),
    {
        self.derivation_index
    }

    pub fn chain_config(&self) -> (r: &layer_climb_config::ChainConfig)
        ensures
            *r == self.spec_chain_config(),
    {
        &self.chain_config
    }

    /// The SEC1-compressed public key of this client's keypair, 33 bytes.
    pub fn public_key_bytes(&self) -> (r: Vec<u8>)
        ensures
            r@.len() == 33,
    {
        signer_public_key_bytes(&self.signer)
    }
}

/// The factory and recycler behind a managed pool of signing clients: it owns
/// the seed phrase, a read-only chain configuration, and the monotonic
/// derivation-index allocator.
pub struct SigningClientPoolManager {
    mnemonic: String,
    chain_config: layer_climb_config::ChainConfig,
    address_kind: AddressKind,
    derivation_index: u32,
}

impl SigningClientPoolManager {
    /// The seed phrase all keys derive from (ghost: never handed out).
    pub closed spec fn spec_mnemonic(&self) -> Seq<char> {
        self.mnemonic@
    }

    /// The address kind read from the chain configuration at construction.
    pub closed spec fn spec_address_kind(&self) -> AddressKind {
        self.address_kind
    }

    /// The next derivation index the allocator will mint.
    pub closed spec fn spec_next_index(&self) -> u32 {
        self.derivation_index
    }

    /// The chain configuration this factory was built with.
    pub closed spec fn spec_chain_config(&self) -> layer_climb_config::ChainConfig {
        self.chain_config
    }

    /// The indices the allocator has consumed so far: exactly
    /// `0, 1, ..., next - 1`, in order of allocation.
    pub open spec fn issued_indices(&self) -> Seq<u32> {
        Seq::new(self.spec_next_index() as nat, |i: int| i as u32)
    }

    /// Builds a factory that owns `mnemonic` and `chain_config`, with the
    /// derivation-index allocator at zero.
    pub fn new_mnemonic(mnemonic: String, chain_config: layer_climb_config::ChainConfig) -> (r:
        Self)
        ensures
            r.spec_mnemonic() == mnemonic@,
            r.spec_chain_config() == chain_config,
            r.spec_next_index() == 0,
    {
        let address_kind = config_addr_kind(&chain_config);
        Self { mnemonic, chain_config, address_kind, derivation_index: 0 }
    }

    /// The address kind this factory dispatches on.
    pub fn address_kind(&self) -> (r: AddressKind)
        ensures
            r == self.spec_address_kind(),
    {
        self.address_kind
    }

    /// The next derivation index the allocator will mint.
    pub fn next_derivation_index(&self) -> (r: u32)
        ensures
            r == self.spec_next_index(),
    {
        self.derivation_index
    }

    /// Creates one freshly keyed signing client.
    ///
    /// An unsupported address kind fails with `UnsupportedAddressKind` and
    /// leaves the allocator untouched. A supported kind first consumes the
    /// next derivation index irreversibly — succeed or fail — then derives
    /// the key for it; a failed derivation surfaces as
    /// `KeyDerivationFailure` and the index is never retried.
    pub fn create(&mut self) -> (r: Result<SigningClient, PoolError>)
        ensures
            final(self).spec_mnemonic() == old(self).spec_mnemonic(),
            final(self).spec_address_kind() == old(self).spec_address_kind(),
            final(self).spec_chain_config() == old(self).spec_chain_config(),
            old(self).spec_address_kind() is Eth ==> (r matches Err(e) && e
                is UnsupportedAddressKind && *final(self) == *old(self)),
            old(self).spec_address_kind() is Cosmos ==> {
                &&& old(self).spec_next_index() < u32::MAX ==> {
                    &&& final(self).spec_next_index() == old(self).spec_next_index() + 1
                    &&& final(self).issued_indices() == old(self).issued_indices().push(
                        old(self).spec_next_index(),
                    )
                }
                &&& old(self).spec_next_index() == u32::MAX ==> final(self).spec_next_index() == 0
            },
            r is Ok <==> old(self).spec_address_kind() is Cosmos && cosmos_key_material(
                old(self).spec_mnemonic(),
                old(self).spec_next_index(),
            ) is Some,
            r matches Ok(c) ==> {
                &&& c.spec_seed_phrase() == old(self).spec_mnemonic()
                &&& c.spec_derivation_index() == old(self).spec_next_index()
                &&& c.key_material() == cosmos_key_material(
                    old(self).spec_mnemonic(),
                    old(self).spec_next_index(),
                )
                &&& c.key_material() is Some
            },
            old(self).spec_address_kind() is Cosmos && cosmos_key_material(
                old(self).spec_mnemonic(),
                old(self).spec_next_index(),
            ) is None ==> (r matches Err(e) && e is KeyDerivationFailure),
    {
        match self.address_kind {
            AddressKind::Eth => Err(PoolError::UnsupportedAddressKind),
            AddressKind::Cosmos => {
                let index = self.derivation_index;
                if index == u32::MAX {
                    self.derivation_index = 0;
                } else {
                    self.derivation_index = index + 1;
                    proof {
                        assert(Seq::new((index + 1) as nat, |i: int| i as u32) =~= Seq::new(
                            index as nat,
                            |i: int| i as u32,
                        ).push(index));
                    }
                }
                match derive_cosmos_signer(self.mnemonic.as_str(), index) {
                    Ok(signer) => Ok(
                        SigningClient {
                            chain_config: clone_config(&self.chain_config),
                            signer,
                            derivation_index: index,
                            seed_phrase: Ghost(self.mnemonic@),
                        },
                    ),
                    Err(message) => Err(PoolError::KeyDerivationFailure(message)),
                }
            },
        }
    }

    /// Accepts a returned client for reuse, unconditionally: no health or
    /// staleness check, whatever the usage statistics say, and the client is
    /// left as it came.
    pub fn recycle(&self, client: &mut SigningClient, _metrics: &deadpool::managed::Metrics) -> (r:
        Result<(), PoolError>)
        ensures
            r is Ok,
            *final(client) == *old(client),
    {
        Ok(())
    }
}

/// Uniqueness of allocation: however a factory's calls interleaved, the
/// indices its allocator has consumed are exactly `{0, 1, ..., n - 1}` — the
/// `i`-th allocation observed `i`, and no index was observed twice.
pub proof fn lemma_issued_indices_unique(m: &SigningClientPoolManager)
    ensures
        m.issued_indices().len() == m.spec_next_index() as nat,
        forall|i: int| 0 <= i < m.issued_indices().len() ==> m.issued_indices()[i] == i as u32,
        forall|i: int, j: int|
            0 <= i < j < m.issued_indices().len() ==> m.issued_indices()[i]
                != m.issued_indices()[j],
{
    assert forall|i: int, j: int|
        0 <= i < j < m.issued_indices().len() implies m.issued_indices()[i]
        != m.issued_indices()[j] by {
        assert(m.issued_indices()[i] == i as u32);
        assert(m.issued_indices()[j] == j as u32);
    }
}

/// Determinism of derivation: two clients derived from the same seed phrase
/// at the same derivation index are bound to identical key material, whatever
/// factories they came from.
pub proof fn lemma_derivation_deterministic(a: &SigningClient, b: &SigningClient)
    requires
        a.spec_seed_phrase() == b.spec_seed_phrase(),
        a.spec_derivation_index() == b.spec_derivation_index(),
    ensures
        a.key_material() == b.key_material(),
{
}

} // verus!
