//! Tests for the Lightning providers behind the uniform abstraction.

use lnpay::provider::lnbits::{LNBitsConfig, LNBitsProvider};
use lnpay::provider::{create_provider, ModuleConfig, ProviderType, RemoteInvoiceOutcome, RemotePaymentStatus};
use lnpay::LightningError;

fn config_of(pairs: &[(&str, &str)]) -> ModuleConfig {
    ModuleConfig {
        entries: pairs.iter().map(|(k, v)| (k.to_string(), v.to_string())).collect(),
    }
}

#[test]
fn test_stub_provider() {
    let ctx = config_of(&[("lightning.provider", "stub")]);
    let mut provider = create_provider(ProviderType::Stub, &ctx).unwrap();
    assert_eq!(provider.provider_type(), ProviderType::Stub);

    // Invoice creation returns an invoice-shaped placeholder string.
    let invoice = provider.create_invoice(1000, "test", 3600, 1_700_000_000, None).unwrap();
    assert!(invoice.starts_with("lnbc"));
    assert_eq!(invoice, "lnbc1000u1pstub_invoice");

    // Payment verification always succeeds.
    let payment_hash = [0u8; 32];
    let result = provider
        .verify_payment(&invoice, &payment_hash, "test_id", 1_700_000_000, None)
        .unwrap();
    assert!(result.verified);
    assert_eq!(result.amount_msats, Some(1000));
    assert_eq!(result.timestamp, Some(1_700_000_000));
    assert_eq!(result.metadata_value("provider").map(|s| s.as_str()), Some("stub"));

    // Payment confirmation is always positive.
    let confirmed = provider.is_payment_confirmed(&payment_hash, None).unwrap();
    assert!(confirmed);
}

#[test]
fn test_ldk_provider_creation() {
    let ctx = config_of(&[
        ("lightning.provider", "ldk"),
        ("lightning.ldk.data_dir", "/tmp/ldk_test"),
        ("lightning.ldk.network", "testnet"),
    ]);
    let mut provider = create_provider(ProviderType::LDK, &ctx).unwrap();
    assert_eq!(provider.provider_type(), ProviderType::LDK);

    // Invoice creation builds a real signed invoice.
    let now = 1_700_000_000;
    let invoice_result = provider.create_invoice(1000, "test", 3600, now, None);
    assert!(invoice_result.is_ok());

    // Verifying the created invoice against its own hash succeeds.
    let invoice = invoice_result.unwrap();
    let data = lnpay::invoice::InvoiceParser::parse(&invoice, now).unwrap();
    let payment_hash = data.payment_hash();
    let result = provider.verify_payment(&invoice, &payment_hash, "test_id", now, None);
    assert!(result.is_ok());
    assert!(result.unwrap().verified);
}

#[test]
fn ldk_rejects_malformed_invoice() {
    let ctx = config_of(&[("lightning.ldk.network", "testnet")]);
    let mut provider = create_provider(ProviderType::LDK, &ctx).unwrap();
    let payment_hash = [0u8; 32];
    let result = provider.verify_payment("lnbc1pstub", &payment_hash, "test_id", 0, None);
    assert!(matches!(result, Err(LightningError::InvoiceError(_))));
}

#[test]
fn lnbits_provider_requires_url_and_key() {
    let no_url = config_of(&[("lightning.lnbits.api_key", "SECRET-REDACTED")]);
    assert!(matches!(
        create_provider(ProviderType::LNBits, &no_url),
        Err(LightningError::ConfigError(_))
    ));

    let no_key = config_of(&[("lightning.lnbits.api_url", "https://ln.example.com")]);
    assert!(matches!(
        create_provider(ProviderType::LNBits, &no_key),
        Err(LightningError::ConfigError(_))
    ));

    let both = config_of(&[
        ("lightning.lnbits.api_url", "https://ln.example.com"),
        ("lightning.lnbits.api_key", "SECRET-REDACTED"),
    ]);
    let provider = create_provider(ProviderType::LNBits, &both).unwrap();
    assert_eq!(provider.provider_type(), ProviderType::LNBits);
}

#[test]
fn lnbits_interprets_remote_outcomes() {
    let provider = LNBitsProvider::new(LNBitsConfig {
        api_url: "https://ln.example.com/".to_string(),
        api_key: "SECRET-REDACTED".to_string(),
        wallet_id: None,
    })
    .unwrap();

    let hash = [0xabu8; 32];
    let paid = RemotePaymentStatus::Response {
        paid: true,
        amount_msats: Some(2500),
        timestamp: Some(42),
    };
    let v = provider.verify_payment("lnbc...", &hash, "id", &paid).unwrap();
    assert!(v.verified);
    assert_eq!(v.amount_msats, Some(2500));
    assert_eq!(v.timestamp, Some(42));
    assert_eq!(v.metadata_value("provider").map(|s| s.as_str()), Some("lnbits"));
    assert_eq!(
        v.metadata_value("payment_hash").map(|s| s.as_str()),
        Some(hex::encode([0xabu8; 32]).as_str())
    );

    let failed = RemotePaymentStatus::Failure { message: "404 - not found".to_string() };
    let v = provider.verify_payment("lnbc...", &hash, "id", &failed).unwrap();
    assert!(!v.verified);
    assert_eq!(v.amount_msats, None);
    assert_eq!(v.timestamp, None);
    assert_eq!(v.metadata_value("error").map(|s| s.as_str()), Some("404 - not found"));

    assert!(provider.is_payment_confirmed(&hash, &paid).unwrap());
    assert!(!provider.is_payment_confirmed(&hash, &failed).unwrap());

    let created = RemoteInvoiceOutcome::Created { payment_request: "lnbc1q...".to_string() };
    assert_eq!(provider.create_invoice(1000, "x", 3600, &created).unwrap(), "lnbc1q...");
    let create_failed = RemoteInvoiceOutcome::Failure { message: "500".to_string() };
    assert!(matches!(
        provider.create_invoice(1000, "x", 3600, &create_failed),
        Err(LightningError::ProcessorError(_))
    ));
}

#[test]
fn lnbits_builds_endpoints_and_urls() {
    let provider = LNBitsProvider::new(LNBitsConfig {
        api_url: "https://ln.example.com///".to_string(),
        api_key: "SECRET-REDACTED".to_string(),
        wallet_id: Some("w123".to_string()),
    })
    .unwrap();

    let hash = [0x01u8; 32];
    let endpoint = LNBitsProvider::payment_endpoint(&hash);
    assert_eq!(endpoint, format!("/payments/{}", hex::encode([0x01u8; 32])));

    let url = provider.request_url("/payments/ff");
    assert_eq!(url, "https://ln.example.com/api/v1/payments/ff");

    assert_eq!(provider.create_invoice_endpoint(), "/payments?wallet=w123");

    let body = provider.build_invoice_request(2000, "memo text", 600);
    assert!(!body.out);
    assert_eq!(body.amount, 2000);
    assert_eq!(body.memo, "memo text");
    assert_eq!(body.expiry, 600);
}

#[test]
fn provider_type_from_str_accepts_case_insensitive_and_rejects_unknown() {
    assert_eq!(ProviderType::from_str("LNBITS").unwrap(), ProviderType::LNBits);
    assert_eq!(ProviderType::from_str("Stub").unwrap(), ProviderType::Stub);
    assert_eq!(ProviderType::from_str("ldk").unwrap(), ProviderType::LDK);
    assert_eq!(ProviderType::from_str("LdK").unwrap(), ProviderType::LDK);
    assert!(matches!(
        ProviderType::from_str("foo"),
        Err(LightningError::ConfigError(_))
    ));
    assert!(matches!(ProviderType::from_str(""), Err(LightningError::ConfigError(_))));
}

#[test]
fn provider_type_default_is_lnbits() {
    assert_eq!(ProviderType::default(), ProviderType::LNBits);
    assert_eq!(ProviderType::LNBits.as_config_str(), "lnbits");
    assert_eq!(ProviderType::LDK.as_config_str(), "ldk");
    assert_eq!(ProviderType::Stub.as_config_str(), "stub");
}
