//! Tests for the BOLT11 invoice codec.

use lnpay::invoice::{InvoiceData, InvoiceParser};
use lnpay::provider::{create_provider, ModuleConfig, ProviderType};
use lnpay::LightningError;

fn ldk_provider() -> lnpay::provider::LightningProvider {
    let ctx = ModuleConfig {
        entries: vec![("lightning.ldk.network".to_string(), "testnet".to_string())],
    };
    create_provider(ProviderType::LDK, &ctx).unwrap()
}

#[test]
fn parse_recovers_built_amount_and_hash() {
    let mut provider = ldk_provider();
    let now = 1_700_000_000;
    let invoice = provider.create_invoice(123_456, "round trip", 7200, now, None).unwrap();

    let data = InvoiceParser::parse(&invoice, now).unwrap();
    assert_eq!(data.amount_msats, 123_456);
    assert_eq!(data.payment_hash.len(), 32);
    // The encoded expiry offset resolves against the creation time.
    assert_eq!(data.expiry_unix, now + 7200);
    assert_eq!(data.raw, invoice);
}

#[test]
fn parse_rejects_malformed_text() {
    assert!(matches!(
        InvoiceParser::parse("definitely not an invoice", 0),
        Err(LightningError::InvoiceError(_))
    ));
    assert!(matches!(
        InvoiceParser::parse("lnbc1pstub", 0),
        Err(LightningError::InvoiceError(_))
    ));
    assert!(matches!(InvoiceParser::parse("", 0), Err(LightningError::InvoiceError(_))));
}

#[test]
fn verify_signature_accepts_parsed_invoices() {
    let mut provider = ldk_provider();
    let now = 1_700_000_000;
    let invoice = provider.create_invoice(1000, "sig", 3600, now, None).unwrap();
    let data = InvoiceParser::parse(&invoice, now).unwrap();
    assert_eq!(InvoiceParser::verify_signature(&data).unwrap(), true);
}

#[test]
fn is_expired_boundary() {
    let data = InvoiceData {
        amount_msats: 0,
        payment_hash: vec![0u8; 32],
        expiry_unix: 100,
        raw: String::new(),
    };
    assert!(!data.is_expired(99));
    // The boundary itself is not yet expired.
    assert!(!data.is_expired(100));
    assert!(data.is_expired(101));
}

#[test]
fn payment_hash_accessors() {
    let bytes: Vec<u8> = (0u8..32).collect();
    let data = InvoiceData {
        amount_msats: 5,
        payment_hash: bytes.clone(),
        expiry_unix: 0,
        raw: String::new(),
    };
    assert_eq!(data.payment_hash().to_vec(), bytes);
    assert_eq!(data.payment_hash_hex(), hex::encode(&bytes));
}

#[test]
fn hexstr_matches_reference_implementation() {
    let bytes = [0x00u8, 0x01, 0x7f, 0x80, 0xab, 0xff];
    let encoded = lnpay::hexstr::encode(&bytes);
    assert_eq!(encoded, hex::encode(bytes));

    let decoded = lnpay::hexstr::decode(&encoded).unwrap();
    assert_eq!(decoded, bytes.to_vec());
    assert_eq!(
        lnpay::hexstr::decode("AbCdEf").unwrap(),
        hex::decode("AbCdEf").unwrap()
    );

    assert!(lnpay::hexstr::decode("abc").is_none());
    assert!(lnpay::hexstr::decode("zz").is_none());
}

#[test]
fn amount_less_invoice_yields_zero() {
    // An invoice with no amount field parses to zero millisatoshi: the
    // canonical donation invoice from the BOLT11 test vectors (expired
    // long ago, so parse at a time before its expiry).
    let donation = "lnbc1pvjluezsp5zyg3zyg3zyg3zyg3zyg3zyg3zyg3zyg3zyg3zyg3zyg3zyg3zygspp5qqqsyqcyq5rqwzqfqqqsyqcyq5rqwzqfqqqsyqcyq5rqwzqfqypqdpl2pkx2ctnv5sxxmmwwd5kgetjypeh2ursdae8g6twvus8g6rfwvs8qun0dfjkxaq9qrsgq357wnc5r2ueh7ck6q93dj32dlqnls087fxdwk8qakdyafkq3yap9us6v52vjjsrvywa6rt52cm9r9zqt8r2t7mlcwspyetp5h2tztugp9lfyql";
    match InvoiceParser::parse(donation, 1_496_314_658) {
        Ok(data) => {
            assert_eq!(data.amount_msats, 0);
            assert_eq!(data.payment_hash.len(), 32);
        }
        Err(e) => panic!("donation invoice should parse: {:?}", e),
    }
}
