//! A client factory and recycler for a bounded pool of blockchain signing
//! clients.
//!
//! Each client the factory creates is bound to a distinct keypair, derived
//! from one secret seed phrase at a never-reused derivation index. The
//! factory dispatches on the configured address kind, allocates the next
//! index (consumed irreversibly, even when derivation then fails), derives
//! the key, and wraps it in a client; returned clients are accepted back
//! unconditionally.

pub mod climb;
pub mod pool;

pub use climb::cosmos_key_material;
pub use pool::AddressKind;
pub use pool::PoolError;
pub use pool::SigningClient;
pub use pool::SigningClientPoolManager;
pub use pool::lemma_derivation_deterministic;
pub use pool::lemma_issued_indices_unique;
