//! Tests for the native-channel (LDK) provider: hash binding,
//! idempotence, key handling.

use lnpay::invoice::InvoiceParser;
use lnpay::provider::ldk::{LDKConfig, LDKProvider, Network};
use lnpay::provider::{create_provider, ModuleConfig, ProviderType};
use lnpay::LightningError;

fn testnet_provider() -> LDKProvider {
    LDKProvider::new(LDKConfig {
        data_dir: "/tmp/ldk_test".to_string(),
        network: "testnet".to_string(),
        node_private_key: None,
    })
    .unwrap()
}

#[test]
fn repeated_verification_is_idempotent() {
    let mut provider = testnet_provider();
    let now = 1_700_000_000;
    let invoice = provider.create_invoice(4321, "idempotent", 3600, now).unwrap();
    let hash = InvoiceParser::parse(&invoice, now).unwrap().payment_hash();

    let first = provider.verify_payment(&invoice, &hash, "pay-1", now).unwrap();
    // A later repeat of the same (invoice, hash, id) answers from the
    // record the first verification created.
    let second = provider.verify_payment(&invoice, &hash, "pay-1", now + 500).unwrap();
    assert_eq!(first.verified, second.verified);
    assert_eq!(first.amount_msats, second.amount_msats);
    assert_eq!(first.timestamp, second.timestamp);
    assert!(first.verified);
    assert_eq!(first.amount_msats, Some(4321));
    assert_eq!(first.timestamp, Some(now));
}

#[test]
fn mismatching_hash_is_an_outcome_not_an_error() {
    let mut provider = testnet_provider();
    let now = 1_700_000_000;
    let invoice = provider.create_invoice(1000, "mismatch", 3600, now).unwrap();
    let mut wrong_hash = InvoiceParser::parse(&invoice, now).unwrap().payment_hash();
    wrong_hash[0] ^= 0xff;

    let result = provider.verify_payment(&invoice, &wrong_hash, "pay-2", now);
    let v = result.expect("a hash mismatch is a verification outcome, not a fault");
    assert!(!v.verified);
    assert_eq!(v.amount_msats, None);
    assert_eq!(v.timestamp, None);
    assert_eq!(v.metadata_value("error").map(|s| s.as_str()), Some("payment_hash_mismatch"));
    assert_eq!(v.metadata_value("provider").map(|s| s.as_str()), Some("ldk"));
}

#[test]
fn confirmation_is_a_pure_record_lookup() {
    let mut provider = testnet_provider();
    let now = 1_700_000_000;
    let invoice = provider.create_invoice(1000, "confirm", 3600, now).unwrap();
    let hash = InvoiceParser::parse(&invoice, now).unwrap().payment_hash();

    // Absence means false, never an error.
    assert!(!provider.is_payment_confirmed(&hash).unwrap());
    provider.verify_payment(&invoice, &hash, "pay-3", now).unwrap();
    assert!(provider.is_payment_confirmed(&hash).unwrap());
}

#[test]
fn new_validates_a_supplied_key() {
    let valid_key = vec![1u8; 32];
    let provider = LDKProvider::new(LDKConfig {
        data_dir: String::new(),
        network: "regtest".to_string(),
        node_private_key: Some(valid_key.clone()),
    })
    .unwrap();
    assert_eq!(provider.node_key_bytes.to_vec(), valid_key);
    assert_eq!(provider.node_key_hex(), hex::encode(&valid_key));

    let short = LDKProvider::new(LDKConfig {
        data_dir: String::new(),
        network: "regtest".to_string(),
        node_private_key: Some(vec![1u8; 31]),
    });
    assert!(matches!(short, Err(LightningError::ConfigError(_))));

    // The zero scalar is not a valid curve key.
    let zero = LDKProvider::new(LDKConfig {
        data_dir: String::new(),
        network: "regtest".to_string(),
        node_private_key: Some(vec![0u8; 32]),
    });
    assert!(matches!(zero, Err(LightningError::ConfigError(_))));
}

#[test]
fn load_keys_checks_hex_length_and_scalar() {
    let good = hex::encode([2u8; 32]);
    assert_eq!(LDKProvider::load_keys(&good).unwrap(), vec![2u8; 32]);

    assert!(matches!(
        LDKProvider::load_keys("not hex at all"),
        Err(LightningError::ConfigError(_))
    ));
    assert!(matches!(
        LDKProvider::load_keys(&hex::encode([2u8; 30])),
        Err(LightningError::ConfigError(_))
    ));
    assert!(matches!(
        LDKProvider::load_keys(&hex::encode([0u8; 32])),
        Err(LightningError::ConfigError(_))
    ));
}

#[test]
fn create_provider_reads_ldk_key_from_config() {
    let key_hex = hex::encode([3u8; 32]);
    let ctx = ModuleConfig {
        entries: vec![
            ("lightning.ldk.data_dir".to_string(), "/tmp/ldk_cfg".to_string()),
            ("lightning.ldk.network".to_string(), "signet".to_string()),
            ("lightning.ldk.node_private_key".to_string(), key_hex),
        ],
    };
    let provider = create_provider(ProviderType::LDK, &ctx).unwrap();
    assert_eq!(provider.provider_type(), ProviderType::LDK);
    match provider {
        lnpay::provider::LightningProvider::LDK(p) => {
            assert_eq!(p.node_key_bytes.to_vec(), vec![3u8; 32]);
            assert_eq!(p.config.data_dir, "/tmp/ldk_cfg");
        }
        _ => panic!("expected the native provider"),
    }
}

#[test]
fn unknown_network_falls_back_to_testnet() {
    assert_eq!(Network::from_config_str("mainnet"), Network::Bitcoin);
    assert_eq!(Network::from_config_str("TESTNET"), Network::Testnet);
    assert_eq!(Network::from_config_str("regtest"), Network::Regtest);
    assert_eq!(Network::from_config_str("signet"), Network::Signet);
    assert_eq!(Network::from_config_str("somethingelse"), Network::Testnet);
    assert_eq!(Network::Bitcoin.name(), "Bitcoin");
}

#[test]
fn create_invoice_rejects_amount_overflow() {
    let mut provider = testnet_provider();
    // The wire unit is ten times finer than a millisatoshi, so amounts
    // whose pico-BTC value overflows are refused.
    let r = provider.create_invoice(u64::MAX / 10 + 1, "big", 3600, 1_700_000_000);
    assert!(matches!(r, Err(LightningError::ProcessorError(_))));
}
