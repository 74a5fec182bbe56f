use std::time::Duration;
use std::time::Instant;

use climb_pool::AddressKind;
use climb_pool::PoolError;
use climb_pool::SigningClientPoolManager;
use layer_climb_config::AddrKind;
use layer_climb_config::ChainConfig;
use layer_climb_config::ChainId;

const MNEMONIC: &str = "test test test test test test test test test test test junk";

fn config_with(address_kind: AddrKind) -> ChainConfig {
    ChainConfig {
        chain_id: ChainId::new("test-1"),
        rpc_endpoint: None,
        grpc_endpoint: None,
        grpc_web_endpoint: None,
        gas_price: 0.025,
        gas_denom: "uosmo".to_string(),
        address_kind,
    }
}

fn cosmos_config() -> ChainConfig {
    config_with(AddrKind::Cosmos {
        prefix: "osmo".to_string(),
    })
}

#[test]
fn three_sequential_clients_get_indices_zero_one_two() {
    let mut manager = SigningClientPoolManager::new_mnemonic(MNEMONIC.to_string(), cosmos_config());
    assert_eq!(manager.address_kind(), AddressKind::Cosmos);

    let a = manager.create().unwrap();
    let b = manager.create().unwrap();
    let c = manager.create().unwrap();

    assert_eq!(a.derivation_index(), 0);
    assert_eq!(b.derivation_index(), 1);
    assert_eq!(c.derivation_index(), 2);
    assert_eq!(manager.next_derivation_index(), 3);
    assert_eq!(a.chain_config().gas_denom, "uosmo");
    assert_eq!(a.chain_config().chain_id.as_str(), "test-1");

    let key_a = a.public_key_bytes();
    let key_b = b.public_key_bytes();
    let key_c = c.public_key_bytes();
    assert_eq!(key_a.len(), 33);
    assert_eq!(key_b.len(), 33);
    assert_eq!(key_c.len(), 33);
    assert_ne!(key_a, key_b);
    assert_ne!(key_a, key_c);
    assert_ne!(key_b, key_c);
}

#[test]
fn unsupported_kind_fails_without_advancing_the_allocator() {
    let mut manager = SigningClientPoolManager::new_mnemonic(
        MNEMONIC.to_string(),
        config_with(AddrKind::Eth),
    );
    assert_eq!(manager.address_kind(), AddressKind::Eth);

    let first = manager.create();
    assert!(matches!(first, Err(PoolError::UnsupportedAddressKind)));
    assert_eq!(manager.next_derivation_index(), 0);

    let second = manager.create();
    assert!(matches!(second, Err(PoolError::UnsupportedAddressKind)));
    assert_eq!(manager.next_derivation_index(), 0);

    // A supported factory built afterwards still starts at index zero.
    let mut cosmos = SigningClientPoolManager::new_mnemonic(MNEMONIC.to_string(), cosmos_config());
    let client = cosmos.create().unwrap();
    assert_eq!(client.derivation_index(), 0);
}

#[test]
fn identical_seed_and_index_derive_identical_keys() {
    let mut first = SigningClientPoolManager::new_mnemonic(MNEMONIC.to_string(), cosmos_config());
    let mut second = SigningClientPoolManager::new_mnemonic(MNEMONIC.to_string(), cosmos_config());

    let first_0 = first.create().unwrap();
    let first_1 = first.create().unwrap();
    let second_0 = second.create().unwrap();
    let second_1 = second.create().unwrap();

    assert_eq!(first_0.public_key_bytes(), second_0.public_key_bytes());
    assert_eq!(first_1.public_key_bytes(), second_1.public_key_bytes());
    assert_ne!(first_0.public_key_bytes(), first_1.public_key_bytes());
}

#[test]
fn failed_derivation_still_consumes_its_index() {
    let mut manager = SigningClientPoolManager::new_mnemonic(
        "this phrase is not a valid mnemonic at all".to_string(),
        cosmos_config(),
    );

    let first = manager.create();
    assert!(matches!(first, Err(PoolError::KeyDerivationFailure(_))));
    assert_eq!(manager.next_derivation_index(), 1);

    let second = manager.create();
    assert!(matches!(second, Err(PoolError::KeyDerivationFailure(_))));
    assert_eq!(manager.next_derivation_index(), 2);
}

#[test]
fn recycle_accepts_every_client_whatever_the_metrics_say() {
    let mut manager = SigningClientPoolManager::new_mnemonic(MNEMONIC.to_string(), cosmos_config());
    let mut client = manager.create().unwrap();

    let fresh = deadpool::managed::Metrics::default();
    assert!(manager.recycle(&mut client, &fresh).is_ok());

    let worn = deadpool::managed::Metrics {
        created: Instant::now() - Duration::from_secs(86_400),
        recycled: Some(Instant::now()),
        recycle_count: 12_345,
    };
    assert!(manager.recycle(&mut client, &worn).is_ok());

    // The client came back untouched and still usable.
    assert_eq!(client.derivation_index(), 0);
    assert_eq!(client.public_key_bytes().len(), 33);
}
