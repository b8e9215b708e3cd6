//! LNBits provider: a custodial wallet service reached over a REST API.
//!
//! The provider's verification semantics are decision logic over what the
//! remote service replied; the HTTP transport itself lives outside this
//! library and hands its outcome in as a [`RemotePaymentStatus`] or
//! [`RemoteInvoiceOutcome`] value.

use vstd::prelude::*;
use crate::error::LightningError;
use crate::hexstr;
use crate::provider::{
    kv_get, PaymentVerificationResult, ProviderType, RemoteInvoiceOutcome, RemotePaymentStatus,
};

verus! {

/// LNBits provider configuration.
pub struct LNBitsConfig {
    /// Base URL of the wallet service.
    pub api_url: String,
    /// API key sent with every request.
    pub api_key: String,
    /// Optional wallet identifier for wallet-specific operations.
    pub wallet_id: Option<String>,
}

/// LNBits provider implementation: holds the configuration; the HTTP
/// client lives with the caller that performs the transport.
pub struct LNBitsProvider {
    pub config: LNBitsConfig,
}

/// A character string with trailing '/' characters removed.
pub open spec fn trim_trailing_slash(s: Seq<char>) -> Seq<char>
    decreases s.len(),
{
    if s.len() > 0 && s.last() == '/' {
        trim_trailing_slash(s.drop_last())
    } else {
        s
    }
}

/// The verified flag a remote payment status denotes: the remote's `paid`
/// flag, and `false` when the lookup failed.
pub open spec fn remote_verified_flag(o: RemotePaymentStatus) -> bool {
    match o {
        RemotePaymentStatus::Response { paid, .. } => paid,
        RemotePaymentStatus::Failure { .. } => false,
    }
}

/// What custodial verification promises over the remote outcome: the
/// remote's `paid` flag becomes `verified` and amount and timestamp pass
/// through; a failed lookup is a soft `verified = false` outcome
/// carrying the failure text, never an error.
pub open spec fn lnbits_verify_post(
    h: Seq<u8>,
    remote: RemotePaymentStatus,
    r: Result<PaymentVerificationResult, LightningError>,
) -> bool {
    &&& r matches Ok(v)
    &&& {
        let v = r->Ok_0;
        &&& v.verified == remote_verified_flag(remote)
        &&& kv_get(v.metadata@, "provider"@) == Some("lnbits"@)
        &&& match remote {
            RemotePaymentStatus::Response { paid, amount_msats, timestamp } => {
                &&& v.amount_msats == amount_msats
                &&& v.timestamp == timestamp
                &&& kv_get(v.metadata@, "payment_hash"@) == Some(hexstr::hex_of(h))
            },
            RemotePaymentStatus::Failure { message } => {
                &&& v.amount_msats is None
                &&& v.timestamp is None
                &&& kv_get(v.metadata@, "error"@) == Some(message@)
            },
        }
    }
}

/// What custodial invoice creation promises over the remote outcome:
/// the returned payment request on success, a hard `ProcessorError` on
/// failure.
pub open spec fn lnbits_create_post(remote: RemoteInvoiceOutcome, r: Result<
    String,
    LightningError,
>) -> bool {
    match remote {
        RemoteInvoiceOutcome::Created { payment_request } => r matches Ok(s) && s@
            == payment_request@,
        RemoteInvoiceOutcome::Failure { message } => r matches Err(
            LightningError::ProcessorError(m),
        ) && m@ == message@,
    }
}

/// Request body for invoice creation, as plain values
/// (`out = false` asks the service for an incoming payment request).
pub struct InvoiceRequestBody {
    pub out: bool,
    pub amount: u64,
    pub memo: String,
    pub expiry: u64,
}

impl LNBitsProvider {
    /// Creates a new LNBits provider over its configuration.
    pub fn new(config: LNBitsConfig) -> (r: Result<LNBitsProvider, LightningError>)
        ensures
            r matches Ok(p) && p.config == config,
    {
        Ok(LNBitsProvider { config })
    }

    /// The service path that reports the status of a payment hash.
    pub fn payment_endpoint(payment_hash: &[u8; 32]) -> (s: String)
        ensures
            s@ == "/payments/"@ + hexstr::hex_of(payment_hash@),
    {
        let mut s = String::from_str("/payments/");
        let hex = hexstr::encode(payment_hash.as_slice());
        s.append(hex.as_str());
        s
    }

    /// The full request URL for a service path: the configured base URL
    /// without trailing slashes, the API prefix, then the path.
    pub fn request_url(&self, endpoint: &str) -> (s: String)
        ensures
            s@ == trim_trailing_slash(self.config.api_url@) + "/api/v1"@ + endpoint@,
    {
        let base = self.config.api_url.as_str();
        let n = base.unicode_len();
        proof {
            assert(base@.take(n as int) =~= base@);
        }
        let mut k: usize = n;
        while k > 0 && base.get_char(k - 1) == '/'
            invariant
                n == base@.len(),
                k <= n,
                trim_trailing_slash(base@) == trim_trailing_slash(base@.take(k as int)),
            decreases k,
        {
            proof {
                assert(base@.take(k as int).last() == base@[k - 1]);
                assert(base@.take(k as int).drop_last() =~= base@.take(k as int - 1));
            }
            k = k - 1;
        }
        proof {
            if k > 0 {
                assert(base@.take(k as int).last() == base@[k - 1]);
            }
            assert(trim_trailing_slash(base@.take(k as int)) == base@.take(k as int));
        }
        let mut s = String::from_str(base.substring_char(0, k));
        s.append("/api/v1");
        s.append(endpoint);
        s
    }

    /// The service path for invoice creation, scoped to the configured
    /// wallet when one is set.
    pub fn create_invoice_endpoint(&self) -> (s: String)
        ensures
            match self.config.wallet_id {
                Some(w) => s@ == "/payments?wallet="@ + w@,
                None => s@ == "/payments"@,
            },
    {
        match &self.config.wallet_id {
            Some(w) => {
                let mut s = String::from_str("/payments?wallet=");
                s.append(w.as_str());
                s
            },
            None => String::from_str("/payments"),
        }
    }

    /// The request body for creating an invoice over the given amount,
    /// description and expiry.
    pub fn build_invoice_request(
        &self,
        amount_msats: u64,
        description: &str,
        expiry_seconds: u64,
    ) -> (b: InvoiceRequestBody)
        ensures
            b.out == false,
            b.amount == amount_msats,
            b.memo@ == description@,
            b.expiry == expiry_seconds,
    {
        InvoiceRequestBody {
            out: false,
            amount: amount_msats,
            memo: String::from_str(description),
            expiry: expiry_seconds,
        }
    }

    /// Translates the remote payment status into a verification result:
    /// the remote's `paid` flag becomes `verified` and amount and
    /// timestamp pass through; a failed lookup is a soft `verified =
    /// false` outcome carrying the failure text, never an error, since
    /// "not found yet" and "service error" are both legitimate while
    /// waiting for settlement.
    pub fn verify_payment(
        &self,
        invoice: &str,
        payment_hash: &[u8; 32],
        payment_id: &str,
        remote: &RemotePaymentStatus,
    ) -> (r: Result<PaymentVerificationResult, LightningError>)
        ensures
            lnbits_verify_post(payment_hash@, *remote, r),
    {
        let _ = invoice;
        let _ = payment_id;
        match remote {
            RemotePaymentStatus::Response { paid, amount_msats, timestamp } => {
                let mut metadata: Vec<(String, String)> = Vec::new();
                metadata.push((String::from_str("provider"), String::from_str("lnbits")));
                metadata.push(
                    (String::from_str("payment_hash"), hexstr::encode(payment_hash.as_slice())),
                );
                proof {
                    reveal_strlit("provider");
                    reveal_strlit("payment_hash");
                    assert("provider"@.len() == 8);
                    assert("payment_hash"@.len() == 12);
                    crate::provider::lemma_kv_get_found(metadata@, "provider"@, 0);
                    crate::provider::lemma_kv_get_found(metadata@, "payment_hash"@, 1);
                }
                Ok(
                    PaymentVerificationResult {
                        verified: *paid,
                        amount_msats: *amount_msats,
                        timestamp: *timestamp,
                        metadata,
                    },
                )
            },
            RemotePaymentStatus::Failure { message } => {
                let mut metadata: Vec<(String, String)> = Vec::new();
                metadata.push((String::from_str("provider"), String::from_str("lnbits")));
                metadata.push((String::from_str("error"), message.clone()));
                proof {
                    reveal_strlit("provider");
                    reveal_strlit("error");
                    assert("provider"@.len() == 8);
                    assert("error"@.len() == 5);
                    crate::provider::lemma_kv_get_found(metadata@, "provider"@, 0);
                    crate::provider::lemma_kv_get_found(metadata@, "error"@, 1);
                }
                Ok(
                    PaymentVerificationResult {
                        verified: false,
                        amount_msats: None,
                        timestamp: None,
                        metadata,
                    },
                )
            },
        }
    }

    /// Translates the remote invoice-creation outcome: the returned
    /// payment request on success, a hard `ProcessorError` on failure
    /// (creation has no safe default).
    pub fn create_invoice(
        &self,
        amount_msats: u64,
        description: &str,
        expiry_seconds: u64,
        remote: &RemoteInvoiceOutcome,
    ) -> (r: Result<String, LightningError>)
        ensures
            lnbits_create_post(*remote, r),
    {
        let _ = amount_msats;
        let _ = description;
        let _ = expiry_seconds;
        match remote {
            RemoteInvoiceOutcome::Created { payment_request } => Ok(payment_request.clone()),
            RemoteInvoiceOutcome::Failure { message } => Err(
                LightningError::ProcessorError(message.clone()),
            ),
        }
    }

    /// Translates the remote payment status into a confirmation flag:
    /// the remote's `paid` flag; a failed lookup counts as not confirmed
    /// rather than an error, since the caller is polling.
    pub fn is_payment_confirmed(&self, payment_hash: &[u8; 32], remote: &RemotePaymentStatus) -> (r:
        Result<bool, LightningError>)
        ensures
            r matches Ok(b) && b == remote_verified_flag(*remote),
    {
        let _ = payment_hash;
        match remote {
            RemotePaymentStatus::Response { paid, .. } => Ok(*paid),
            RemotePaymentStatus::Failure { .. } => Ok(false),
        }
    }

    /// This provider's type.
    pub fn provider_type(&self) -> (t: ProviderType)
        ensures
            t == ProviderType::LNBits,
    {
        ProviderType::LNBits
    }
}

} // verus!
