//! Stub provider implementation.
//!
//! For testing and development: verification always succeeds with a fixed
//! placeholder amount, invoice creation returns an invoice-shaped
//! placeholder string carrying the requested amount, and confirmation is
//! always positive.

use vstd::prelude::*;
use crate::error::LightningError;
use crate::provider::{kv_get, PaymentVerificationResult, ProviderType};
use crate::strutil::{decimal_of, u64_to_string};

verus! {

/// The fixed placeholder amount the stub reports for every verification.
pub const STUB_AMOUNT_MSATS: u64 = 1000;

/// What stub verification promises: success with the fixed amount, the
/// current time, and metadata naming this provider.
pub open spec fn stub_verify_post(now: u64, r: Result<
    PaymentVerificationResult,
    LightningError,
>) -> bool {
    &&& r matches Ok(v)
    &&& {
        let v = r->Ok_0;
        &&& v.verified == true
        &&& v.amount_msats == Some(STUB_AMOUNT_MSATS)
        &&& v.timestamp == Some(now)
        &&& kv_get(v.metadata@, "provider"@) == Some("stub"@)
    }
}

/// What stub invoice creation promises: an invoice-shaped placeholder
/// string carrying the requested amount.
pub open spec fn stub_create_post(amount_msats: u64, r: Result<String, LightningError>) -> bool {
    r matches Ok(s) && s@ == "lnbc"@ + decimal_of(amount_msats as nat) + "u1pstub_invoice"@
}

/// Stub provider implementation.
pub struct StubProvider;

impl StubProvider {
    /// Creates a new stub provider.
    pub fn new() -> StubProvider {
        StubProvider
    }

    /// Always verifies: the result carries the fixed stub amount and the
    /// current time.
    pub fn verify_payment(
        &self,
        invoice: &str,
        payment_hash: &[u8; 32],
        payment_id: &str,
        now: u64,
    ) -> (r: Result<PaymentVerificationResult, LightningError>)
        ensures
            stub_verify_post(now, r),
    {
        let _ = invoice;
        let _ = payment_hash;
        let _ = payment_id;
        let mut metadata: Vec<(String, String)> = Vec::new();
        metadata.push((String::from_str("provider"), String::from_str("stub")));
        Ok(
            PaymentVerificationResult {
                verified: true,
                amount_msats: Some(STUB_AMOUNT_MSATS),
                timestamp: Some(now),
                metadata,
            },
        )
    }

    /// Returns a placeholder invoice string carrying the requested amount.
    pub fn create_invoice(
        &self,
        amount_msats: u64,
        description: &str,
        expiry_seconds: u64,
    ) -> (r: Result<String, LightningError>)
        ensures
            stub_create_post(amount_msats, r),
    {
        let _ = description;
        let _ = expiry_seconds;
        let mut s = String::from_str("lnbc");
        let amount = u64_to_string(amount_msats);
        s.append(amount.as_str());
        s.append("u1pstub_invoice");
        Ok(s)
    }

    /// Always confirmed.
    pub fn is_payment_confirmed(&self, payment_hash: &[u8; 32]) -> (r: Result<
        bool,
        LightningError,
    >)
        ensures
            r matches Ok(b) && b == true,
    {
        let _ = payment_hash;
        Ok(true)
    }

    /// This provider's type.
    pub fn provider_type(&self) -> (t: ProviderType)
        ensures
            t == ProviderType::Stub,
    {
        ProviderType::Stub
    }
}

} // verus!
