//! Tests for the verification orchestrator: guard order, expiry, batch
//! semantics, startup records.

use lnpay::invoice::InvoiceParser;
use lnpay::processor::{LightningProcessor, PaymentEvent};
use lnpay::provider::{ModuleConfig, ProviderType, RemotePaymentStatus};
use lnpay::LightningError;

fn config_of(pairs: &[(&str, &str)]) -> ModuleConfig {
    ModuleConfig {
        entries: pairs.iter().map(|(k, v)| (k.to_string(), v.to_string())).collect(),
    }
}

fn stub_processor() -> LightningProcessor {
    LightningProcessor::new(&config_of(&[
        ("lightning.provider", "stub"),
        ("lightning.node_url", "http://localhost:9735"),
    ]))
    .unwrap()
}

fn mint_invoice(amount_msats: u64, expiry: u64, now: u64) -> String {
    let ctx = config_of(&[("lightning.ldk.network", "testnet")]);
    let mut p = lnpay::provider::create_provider(ProviderType::LDK, &ctx).unwrap();
    p.create_invoice(amount_msats, "minted", expiry, now, None).unwrap()
}

#[test]
fn guards_fire_in_order() {
    let now = 1_700_000_000;
    let mut processor = stub_processor();

    // Empty invoice before empty payment id; empty inputs are processor
    // errors, InvoiceError is reserved for the codec.
    assert!(matches!(
        processor.process_payment("", "", now, None),
        Err(LightningError::ProcessorError(_))
    ));
    assert!(matches!(
        processor.process_payment("lnbc1...", "", now, None),
        Err(LightningError::ProcessorError(_))
    ));

    // Missing node URL before the codec runs.
    let mut unconfigured =
        LightningProcessor::new(&config_of(&[("lightning.provider", "stub")])).unwrap();
    assert!(matches!(
        unconfigured.process_payment("lnbc1...", "id", now, None),
        Err(LightningError::ProcessorError(_))
    ));

    // Then parsing.
    assert!(matches!(
        processor.process_payment("not an invoice", "id", now, None),
        Err(LightningError::InvoiceError(_))
    ));
}

#[test]
fn expired_invoice_is_rejected() {
    let created_at = 1_700_000_000;
    let invoice = mint_invoice(1000, 600, created_at);
    let mut processor = stub_processor();

    // Within the expiry window the stub verifies.
    let ok = processor.process_payment(&invoice, "id", created_at + 600, None);
    assert!(ok.unwrap().verified);

    // One second past the window the invoice is rejected before the
    // provider is consulted.
    let expired = processor.process_payment(&invoice, "id", created_at + 601, None);
    assert!(matches!(expired, Err(LightningError::InvoiceError(_))));
}

#[test]
fn batch_fails_whole_on_parse_error() {
    let now = 1_700_000_000;
    let good = mint_invoice(1000, 3600, now);
    let mut processor = stub_processor();

    let payments = vec![
        (good.clone(), "a".to_string()),
        ("malformed".to_string(), "b".to_string()),
        (good, "c".to_string()),
    ];
    let remotes = vec![None, None, None];
    let result = processor.verify_payments_batch(&payments, now, &remotes);
    assert!(matches!(result, Err(LightningError::InvoiceError(_))));
}

#[test]
fn batch_isolates_per_entry_provider_failure() {
    let now = 1_700_000_000;
    let good = mint_invoice(1000, 3600, now);
    let mut processor = LightningProcessor::new(&config_of(&[
        ("lightning.provider", "lnbits"),
        ("lightning.lnbits.api_url", "https://ln.example.com"),
        ("lightning.lnbits.api_key", "SECRET-REDACTED"),
        ("lightning.node_url", "http://localhost:9735"),
    ]))
    .unwrap();

    let payments = vec![
        (good.clone(), "a".to_string()),
        (good.clone(), "b".to_string()),
        (good, "c".to_string()),
    ];
    let paid = RemotePaymentStatus::Response {
        paid: true,
        amount_msats: Some(1000),
        timestamp: Some(now),
    };
    let remotes = vec![
        Some(paid.clone()),
        Some(RemotePaymentStatus::Failure { message: "timeout".to_string() }),
        Some(paid),
    ];
    let flags = processor.verify_payments_batch(&payments, now, &remotes).unwrap();
    assert_eq!(flags, vec![true, false, true]);
}

#[test]
fn batch_of_nothing_is_empty() {
    let mut processor = stub_processor();
    let flags = processor.verify_payments_batch(&vec![], 0, &vec![]).unwrap();
    assert!(flags.is_empty());
}

#[test]
fn handle_event_acts_only_on_created_requests_with_invoices() {
    let now = 1_700_000_000;
    let invoice = mint_invoice(1000, 3600, now);
    let mut processor = stub_processor();

    let acted = processor
        .handle_event(
            &PaymentEvent::RequestCreated { payment_id: "p1".to_string(), invoice: Some(invoice) },
            now,
            None,
        )
        .unwrap();
    assert!(acted.unwrap().verified);

    let ignored = processor
        .handle_event(
            &PaymentEvent::RequestCreated { payment_id: "p2".to_string(), invoice: None },
            now,
            None,
        )
        .unwrap();
    assert!(ignored.is_none());
    assert!(processor.handle_event(&PaymentEvent::Settled, now, None).unwrap().is_none());
    assert!(processor.handle_event(&PaymentEvent::Failed, now, None).unwrap().is_none());
    assert!(processor.handle_event(&PaymentEvent::Other, now, None).unwrap().is_none());
}

#[test]
fn new_rejects_unknown_provider_configuration() {
    let result = LightningProcessor::new(&config_of(&[("lightning.provider", "foo")]));
    assert!(matches!(result, Err(LightningError::ConfigError(_))));
}

#[test]
fn new_defaults_to_the_custodial_provider() {
    let processor = LightningProcessor::new(&config_of(&[
        ("lightning.lnbits.api_url", "https://ln.example.com"),
        ("lightning.lnbits.api_key", "SECRET-REDACTED"),
    ]))
    .unwrap();
    assert_eq!(processor.provider_type(), ProviderType::LNBits);
}

#[test]
fn initial_storage_records_hold_provider_and_zeroed_counters() {
    let processor = stub_processor();
    let records = processor.initial_storage_records();
    assert_eq!(records.len(), 3);
    assert_eq!(records[0].0, b"provider_type".to_vec());
    assert_eq!(records[0].1, b"stub".to_vec());
    assert_eq!(records[1].0, b"channel_count".to_vec());
    assert_eq!(records[1].1, 0u64.to_be_bytes().to_vec());
    assert_eq!(records[2].0, b"total_capacity_sats".to_vec());
    assert_eq!(records[2].1, 0u64.to_be_bytes().to_vec());
}

#[test]
fn parse_invoice_delegates_to_the_codec() {
    let now = 1_700_000_000;
    let invoice = mint_invoice(2000, 3600, now);
    let processor = stub_processor();
    let data = processor.parse_invoice(&invoice, now).unwrap();
    let direct = InvoiceParser::parse(&invoice, now).unwrap();
    assert_eq!(data.amount_msats, direct.amount_msats);
    assert_eq!(data.payment_hash, direct.payment_hash);
}

#[test]
fn batch_with_native_provider_confirms_parsed_invoices() {
    let now = 1_700_000_000;
    let ctx = config_of(&[
        ("lightning.provider", "ldk"),
        ("lightning.ldk.network", "testnet"),
        ("lightning.node_url", "http://localhost:9735"),
    ]);
    let mut processor = LightningProcessor::new(&ctx).unwrap();
    let a = mint_invoice(1000, 3600, now);
    let b = mint_invoice(2000, 3600, now);

    // A duplicated entry is answered from the record its first
    // verification created.
    let payments = vec![
        (a.clone(), "a".to_string()),
        (b, "b".to_string()),
        (a, "a-again".to_string()),
    ];
    let remotes = vec![None, None, None];
    let flags = processor.verify_payments_batch(&payments, now, &remotes).unwrap();
    assert_eq!(flags, vec![true, true, true]);
}

#[test]
fn error_messages_carry_their_detail() {
    let e = LightningError::ConfigError("missing".to_string());
    assert_eq!(e.message().as_str(), "missing");
    let e = LightningError::InvoiceError("bad".to_string());
    assert_eq!(e.message().as_str(), "bad");
}
