//! Lightning payment processor: owns one provider, applies the
//! invoice-independent guard checks in their exact order, and exposes
//! single-payment and batch-payment verification.

use vstd::prelude::*;
use vstd::string::StringSliceAdditionalSpecFns;
use crate::error::LightningError;
use crate::invoice::{bolt11_decoded, resolved_amount, resolved_expiry, Bolt11Fields, InvoiceData, InvoiceParser};
use crate::provider::{
    create_provider, kv_get, spec_lnbits_api_url, LightningProvider, ModuleConfig,
    PaymentVerificationResult, ProviderType, RemotePaymentStatus,
};
use crate::provider::ldk::{
    ldk_verify_outcome, ldk_verify_post, ldk_verify_tracker_after, RecordV,
};
use crate::provider::lnbits::{lnbits_verify_post, remote_verified_flag};
use crate::provider::stub::stub_verify_post;
use crate::strutil::eq_ignore_ascii_case;

verus! {

/// A payment-lifecycle event delivered by the host. Only a created
/// payment request carrying an invoice is acted on; the other events are
/// informational.
#[derive(Debug, Clone)]
pub enum PaymentEvent {
    /// A payment request was created, possibly carrying its invoice.
    RequestCreated { payment_id: String, invoice: Option<String> },
    /// A payment settled.
    Settled,
    /// A payment failed.
    Failed,
    /// Any other lifecycle event.
    Other,
}

/// Lightning payment processor.
pub struct LightningProcessor {
    /// The active provider (LNBits, LDK, or Stub).
    pub provider: LightningProvider,
    /// The configured Lightning node URL, if any; payment processing is
    /// refused without one.
    pub node_url: Option<String>,
}

/// The provider string configuration resolves to: the configured value,
/// or the legacy default.
pub open spec fn resolved_provider_string(m: Seq<(String, String)>) -> Seq<char> {
    match kv_get(m, "lightning.provider"@) {
        Some(v) => v,
        None => "lnbits"@,
    }
}

/// Whether the guard checks pass: a non-empty invoice, a non-empty
/// payment id, and a configured node URL, in that order.
pub open spec fn guards_ok(pre: LightningProcessor, invoice: Seq<char>, payment_id: Seq<char>) -> bool {
    &&& invoice.len() > 0
    &&& payment_id.len() > 0
    &&& pre.node_url is Some
}

/// Whether processing a payment succeeds: the guards pass, the invoice
/// parses, and it is not yet expired.
pub open spec fn process_ok(
    pre: LightningProcessor,
    invoice: Seq<char>,
    payment_id: Seq<char>,
    now: u64,
) -> bool {
    &&& guards_ok(pre, invoice, payment_id)
    &&& bolt11_decoded(invoice) matches Some(f)
    &&& !(now > resolved_expiry(bolt11_decoded(invoice)->Some_0, now))
}

/// Which error processing a payment returns, by the first guard that
/// fails: empty invoice before empty payment id before missing node URL
/// before the codec, then expiry. Empty inputs are processor errors;
/// `InvoiceError` is reserved for the codec (parse failure, expiry).
pub open spec fn process_err_kind(
    pre: LightningProcessor,
    invoice: Seq<char>,
    payment_id: Seq<char>,
    now: u64,
    e: LightningError,
) -> bool {
    if invoice.len() == 0 {
        e matches LightningError::ProcessorError(_)
    } else if payment_id.len() == 0 {
        e matches LightningError::ProcessorError(_)
    } else if pre.node_url is None {
        e matches LightningError::ProcessorError(_)
    } else if bolt11_decoded(invoice) is None {
        e matches LightningError::InvoiceError(_)
    } else if now > resolved_expiry(bolt11_decoded(invoice)->Some_0, now) {
        e matches LightningError::InvoiceError(_)
    } else {
        false
    }
}

/// How one processed payment relates the result and the provider states:
/// the invoice's own hash is the one verified, so dispatch follows each
/// provider's verification contract.
pub open spec fn process_result_post(
    pre: LightningProcessor,
    post: LightningProcessor,
    invoice: Seq<char>,
    now: u64,
    remote: Option<RemotePaymentStatus>,
    r: Result<PaymentVerificationResult, LightningError>,
) -> bool {
    let f = bolt11_decoded(invoice)->Some_0;
    match (pre.provider, post.provider) {
        (LightningProvider::LNBits(p), LightningProvider::LNBits(q)) => q == p
            && lnbits_verify_post(f.payment_hash, remote->0, r),
        (LightningProvider::LDK(p), LightningProvider::LDK(q)) => ldk_verify_post(
            p,
            q,
            invoice,
            f.payment_hash,
            now,
            r,
        ),
        (LightningProvider::Stub(p), LightningProvider::Stub(q)) => q == p && stub_verify_post(
            now,
            r,
        ),
        _ => false,
    }
}

/// The flags and record state a native-channel provider produces when it
/// verifies a sequence of parsed invoices in order, each against its own
/// payment hash.
pub open spec fn ldk_batch(rs: Seq<RecordV>, fs: Seq<Bolt11Fields>, now: u64) -> (Seq<bool>, Seq<
    RecordV,
>)
    decreases fs.len(),
{
    if fs.len() == 0 {
        (Seq::<bool>::empty(), rs)
    } else {
        let prev = ldk_batch(rs, fs.drop_last(), now);
        let f = fs.last();
        (
            prev.0.push(ldk_verify_outcome(prev.1, f, f.payment_hash, now).verified),
            ldk_verify_tracker_after(prev.1, f, f.payment_hash, now),
        )
    }
}

/// The decoded fields of each invoice in a batch.
pub open spec fn decoded_fields_of(payments: Seq<(String, String)>) -> Seq<Bolt11Fields> {
    Seq::new(payments.len(), |i: int| bolt11_decoded(payments[i].0@)->Some_0)
}

/// Whether every invoice of a batch parses.
pub open spec fn all_parse(payments: Seq<(String, String)>) -> bool {
    forall|i: int| 0 <= i < payments.len() ==> bolt11_decoded((#[trigger] payments[i]).0@) is Some
}

impl LightningProcessor {
    /// The processor's internal invariant.
    pub open spec fn wf(&self) -> bool {
        self.provider.wf()
    }

    /// Creates a new Lightning processor from configuration: resolves
    /// the provider choice (defaulting to the custodial provider),
    /// builds the provider, and records the configured node URL. A stub
    /// choice always constructs; a custodial choice constructs whenever
    /// its API URL and key are configured; a native choice constructs
    /// whenever the configured key text is a valid 32-byte curve key.
    pub fn new(ctx: &ModuleConfig) -> (r: Result<LightningProcessor, LightningError>)
        ensures
            r matches Err(e) ==> e matches LightningError::ConfigError(_),
            ({
                let s = resolved_provider_string(ctx.entries@);
                !eq_ignore_ascii_case(s, "lnbits"@) && !eq_ignore_ascii_case(s, "ldk"@)
                    && !eq_ignore_ascii_case(s, "stub"@)
            }) ==> r is Err,
            eq_ignore_ascii_case(resolved_provider_string(ctx.entries@), "stub"@) ==> r is Ok,
            eq_ignore_ascii_case(resolved_provider_string(ctx.entries@), "lnbits"@)
                && spec_lnbits_api_url(ctx.entries@) is Some && kv_get(
                ctx.entries@,
                "lightning.lnbits.api_key"@,
            ) is Some ==> r is Ok,
            ({
                let key_hex = kv_get(ctx.entries@, "lightning.ldk.node_private_key"@);
                &&& eq_ignore_ascii_case(resolved_provider_string(ctx.entries@), "ldk"@)
                &&& key_hex is Some
                &&& crate::hexstr::valid_hex(key_hex->0)
                &&& crate::hexstr::decoded_hex(key_hex->0).len() == 32
                &&& crate::keys::secp_scalar_ok(crate::hexstr::decoded_hex(key_hex->0))
            }) ==> r is Ok,
            r matches Ok(p) ==> {
                let s = resolved_provider_string(ctx.entries@);
                &&& p.wf()
                &&& (eq_ignore_ascii_case(s, "lnbits"@) ==> p.provider.spec_provider_type()
                    == ProviderType::LNBits)
                &&& (eq_ignore_ascii_case(s, "ldk"@) ==> p.provider.spec_provider_type()
                    == ProviderType::LDK)
                &&& (eq_ignore_ascii_case(s, "stub"@) ==> p.provider.spec_provider_type()
                    == ProviderType::Stub)
                &&& match p.node_url {
                    Some(u) => kv_get(ctx.entries@, "lightning.node_url"@) == Some(u@),
                    None => kv_get(ctx.entries@, "lightning.node_url"@) is None,
                }
            },
    {
        let provider_type_str = ctx.get_config_or("lightning.provider", "lnbits");
        let provider_type = match ProviderType::from_str(provider_type_str.as_str()) {
            Ok(t) => t,
            Err(e) => {
                let mut m = String::from_str("Invalid provider type: ");
                m.append(e.message().as_str());
                return Err(LightningError::ConfigError(m));
            },
        };
        let provider = match create_provider(provider_type, ctx) {
            Ok(p) => p,
            Err(e) => {
                return Err(e);
            },
        };
        let node_url: Option<String> = match ctx.get_config("lightning.node_url") {
            Some(u) => Some(u.clone()),
            None => None,
        };
        Ok(LightningProcessor { provider, node_url })
    }

    /// The key/value records the processor persists at startup: the
    /// active provider type and zeroed channel statistics.
    pub fn initial_storage_records(&self) -> (r: Vec<(Vec<u8>, Vec<u8>)>)
        ensures
            r@.len() == 3,
            r@[0].0@ == ("provider_type").spec_bytes(),
            self.provider.spec_provider_type() == ProviderType::LNBits ==> r@[0].1@ == (
            "lnbits").spec_bytes(),
            self.provider.spec_provider_type() == ProviderType::LDK ==> r@[0].1@ == (
            "ldk").spec_bytes(),
            self.provider.spec_provider_type() == ProviderType::Stub ==> r@[0].1@ == (
            "stub").spec_bytes(),
            r@[1].0@ == ("channel_count").spec_bytes(),
            r@[2].0@ == ("total_capacity_sats").spec_bytes(),
            r@[1].1@ =~= Seq::new(8, |i: int| 0u8),
            r@[2].1@ =~= Seq::new(8, |i: int| 0u8),
    {
        let t = self.provider.provider_type();
        let name = t.as_config_str();
        let mut records: Vec<(Vec<u8>, Vec<u8>)> = Vec::new();
        records.push(("provider_type".as_bytes_vec(), name.as_bytes_vec()));
        records.push(("channel_count".as_bytes_vec(), Self::zero_counter()));
        records.push(("total_capacity_sats".as_bytes_vec(), Self::zero_counter()));
        records
    }

    /// An eight-byte zeroed counter, as persisted for channel
    /// statistics.
    fn zero_counter() -> (v: Vec<u8>)
        ensures
            v@ =~= Seq::new(8, |i: int| 0u8),
    {
        let mut v: Vec<u8> = Vec::new();
        let mut i: usize = 0;
        while i < 8
            invariant
                i <= 8,
                v@.len() == i,
                forall|j: int| 0 <= j < i ==> v@[j] == 0u8,
            decreases 8 - i,
        {
            v.push(0u8);
            i = i + 1;
        }
        v
    }

    /// Parses a BOLT11 invoice.
    pub fn parse_invoice(&self, invoice: &str, now: u64) -> (r: Result<
        InvoiceData,
        LightningError,
    >)
        ensures
            r matches Ok(d) ==> {
                &&& bolt11_decoded(invoice@) matches Some(f)
                &&& d.amount_msats == resolved_amount(bolt11_decoded(invoice@)->Some_0)
                &&& d.payment_hash@ == bolt11_decoded(invoice@)->Some_0.payment_hash
                &&& d.expiry_unix == resolved_expiry(bolt11_decoded(invoice@)->Some_0, now)
                &&& d.wf()
            },
            r is Err <==> bolt11_decoded(invoice@) is None,
            r matches Err(e) ==> e matches LightningError::InvoiceError(_),
    {
        InvoiceParser::parse(invoice, now)
    }

    /// Processes a Lightning payment: guards in exact order (empty
    /// invoice, empty payment id, missing node URL), then parse, then
    /// expiry, then the provider's verification against the invoice's
    /// own payment hash. For the custodial provider the caller hands in
    /// the remote lookup's outcome.
    pub fn process_payment(
        &mut self,
        invoice: &str,
        payment_id: &str,
        now: u64,
        remote: Option<&RemotePaymentStatus>,
    ) -> (r: Result<PaymentVerificationResult, LightningError>)
        requires
            old(self).wf(),
            old(self).provider.is_custodial() ==> remote is Some,
        ensures
            final(self).wf(),
            final(self).node_url == old(self).node_url,
            r is Ok <==> process_ok(*old(self), invoice@, payment_id@, now),
            r matches Err(e) ==> process_err_kind(*old(self), invoice@, payment_id@, now, e)
                && final(self).provider == old(self).provider,
            r is Ok ==> process_result_post(
                *old(self),
                *final(self),
                invoice@,
                now,
                match remote {
                    Some(o) => Some(*o),
                    None => None,
                },
                r,
            ),
    {
        if invoice.is_empty() {
            return Err(LightningError::ProcessorError(String::from_str("Empty invoice")));
        }
        if payment_id.is_empty() {
            return Err(LightningError::ProcessorError(String::from_str("Empty payment_id")));
        }
        match &self.node_url {
            Some(_) => {},
            None => {
                return Err(
                    LightningError::ProcessorError(
                        String::from_str("Lightning node URL not configured"),
                    ),
                );
            },
        }
        let invoice_data = match self.parse_invoice(invoice, now) {
            Ok(d) => d,
            Err(e) => {
                return Err(e);
            },
        };
        if invoice_data.is_expired(now) {
            return Err(LightningError::InvoiceError(String::from_str("Invoice expired")));
        }
        let payment_hash = invoice_data.payment_hash();
        self.provider.verify_payment(invoice, &payment_hash, payment_id, now, remote)
    }

    /// Handles one payment-lifecycle event: a created payment request
    /// carrying an invoice is processed; every other event is observed
    /// and ignored.
    pub fn handle_event(
        &mut self,
        event: &PaymentEvent,
        now: u64,
        remote: Option<&RemotePaymentStatus>,
    ) -> (r: Result<Option<PaymentVerificationResult>, LightningError>)
        requires
            old(self).wf(),
            old(self).provider.is_custodial() && (event matches PaymentEvent::RequestCreated {
                payment_id: _,
                invoice: Some(_),
            }) ==> remote is Some,
        ensures
            final(self).wf(),
            final(self).node_url == old(self).node_url,
            !(event matches PaymentEvent::RequestCreated { payment_id: _, invoice: Some(_) })
                ==> (r matches Ok(o) && o is None && final(self).provider == old(self).provider),
            event matches PaymentEvent::RequestCreated { payment_id, invoice: Some(inv) } ==> {
                &&& (r is Ok <==> process_ok(*old(self), inv@, payment_id@, now))
                &&& (r matches Err(e) ==> process_err_kind(*old(self), inv@, payment_id@, now, e)
                    && final(self).provider == old(self).provider)
                &&& (r matches Ok(o) ==> o matches Some(v) && process_result_post(
                    *old(self),
                    *final(self),
                    inv@,
                    now,
                    match remote {
                        Some(x) => Some(*x),
                        None => None,
                    },
                    Ok::<PaymentVerificationResult, LightningError>(o->0),
                ))
            },
    {
        match event {
            PaymentEvent::RequestCreated { payment_id, invoice } => match invoice {
                Some(inv) => match self.process_payment(
                    inv.as_str(),
                    payment_id.as_str(),
                    now,
                    remote,
                ) {
                    Ok(v) => Ok(Some(v)),
                    Err(e) => Err(e),
                },
                None => Ok(None),
            },
            _ => Ok(None),
        }
    }

    /// Verifies a batch of payments, each a pair of invoice text and
    /// payment id. Every invoice is parsed first and any parse failure
    /// fails the whole batch with `InvoiceError`; the verifications then
    /// run in input order, and a per-entry verification collapse yields
    /// `false` for that entry rather than aborting the batch. For the
    /// custodial provider the caller supplies one remote outcome per
    /// entry.
    pub fn verify_payments_batch(
        &mut self,
        payments: &Vec<(String, String)>,
        now: u64,
        remotes: &Vec<Option<RemotePaymentStatus>>,
    ) -> (r: Result<Vec<bool>, LightningError>)
        requires
            old(self).wf(),
            remotes@.len() == payments@.len(),
            old(self).provider.is_custodial() ==> forall|i: int|
                0 <= i < remotes@.len() ==> (#[trigger] remotes@[i]) is Some,
        ensures
            final(self).wf(),
            final(self).node_url == old(self).node_url,
            r is Err <==> !all_parse(payments@),
            r matches Err(e) ==> e matches LightningError::InvoiceError(_) && final(self).provider
                == old(self).provider,
            r matches Ok(flags) ==> flags@.len() == payments@.len() && match (
                old(self).provider,
                final(self).provider,
            ) {
                (LightningProvider::Stub(p), LightningProvider::Stub(q)) => q == p && forall|i: int|
                    0 <= i < flags@.len() ==> flags@[i] == true,
                (LightningProvider::LNBits(p), LightningProvider::LNBits(q)) => q == p && forall|
                    i: int,
                |
                    0 <= i < flags@.len() ==> flags@[i] == remote_verified_flag(
                        (#[trigger] remotes@[i])->0,
                    ),
                (LightningProvider::LDK(p), LightningProvider::LDK(q)) => {
                    &&& q.config == p.config
                    &&& q.network == p.network
                    &&& q.node_key_bytes == p.node_key_bytes
                    &&& q.storage() == p.storage()
                    &&& flags@ == ldk_batch(p.records(), decoded_fields_of(payments@), now).0
                    &&& q.records() == ldk_batch(p.records(), decoded_fields_of(payments@), now).1
                },
                _ => false,
            },
    {
        let ghost fs = decoded_fields_of(payments@);
        let mut parsed: Vec<InvoiceData> = Vec::new();
        let mut i: usize = 0;
        while i < payments.len()
            invariant
                i <= payments@.len(),
                parsed@.len() == i,
                fs == decoded_fields_of(payments@),
                self.provider == old(self).provider,
                self.node_url == old(self).node_url,
                self.wf(),
                forall|j: int|
                    0 <= j < i ==> bolt11_decoded((#[trigger] payments@[j]).0@) is Some,
                forall|j: int|
                    0 <= j < i ==> (#[trigger] parsed@[j]).payment_hash@ == fs[j].payment_hash
                        && parsed@[j].wf(),
            decreases payments@.len() - i,
        {
            match InvoiceParser::parse(payments[i].0.as_str(), now) {
                Ok(d) => {
                    parsed.push(d);
                },
                Err(e) => {
                    return Err(e);
                },
            }
            i = i + 1;
        }
        let mut flags: Vec<bool> = Vec::new();
        let mut i: usize = 0;
        while i < payments.len()
            invariant
                i <= payments@.len(),
                flags@.len() == i,
                parsed@.len() == payments@.len(),
                remotes@.len() == payments@.len(),
                fs == decoded_fields_of(payments@),
                self.wf(),
                self.node_url == old(self).node_url,
                old(self).provider.is_custodial() ==> forall|j: int|
                    0 <= j < remotes@.len() ==> (#[trigger] remotes@[j]) is Some,
                forall|j: int|
                    0 <= j < payments@.len() ==> bolt11_decoded(
                        (#[trigger] payments@[j]).0@,
                    ) is Some,
                forall|j: int|
                    0 <= j < payments@.len() ==> (#[trigger] parsed@[j]).payment_hash@
                        == fs[j].payment_hash && parsed@[j].wf(),
                match (old(self).provider, self.provider) {
                    (LightningProvider::Stub(p), LightningProvider::Stub(q)) => q == p && forall|
                        j: int,
                    | 0 <= j < i ==> flags@[j] == true,
                    (LightningProvider::LNBits(p), LightningProvider::LNBits(q)) => q == p
                        && forall|j: int|
                        0 <= j < i ==> flags@[j] == remote_verified_flag(
                            (#[trigger] remotes@[j])->0,
                        ),
                    (LightningProvider::LDK(p), LightningProvider::LDK(q)) => {
                        &&& q.config == p.config
                        &&& q.network == p.network
                        &&& q.node_key_bytes == p.node_key_bytes
                        &&& q.storage() == p.storage()
                        &&& flags@ == ldk_batch(p.records(), fs.take(i as int), now).0
                        &&& q.records() == ldk_batch(p.records(), fs.take(i as int), now).1
                    },
                    _ => false,
                },
            decreases payments@.len() - i,
        {
            let payment_hash = parsed[i].payment_hash();
            let remote_i: Option<&RemotePaymentStatus> = match &remotes[i] {
                Some(o) => Some(o),
                None => None,
            };
            let result = self.provider.verify_payment(
                payments[i].0.as_str(),
                &payment_hash,
                payments[i].1.as_str(),
                now,
                remote_i,
            );
            let flag = match result {
                Ok(v) => v.verified,
                Err(_) => false,
            };
            flags.push(flag);
            proof {
                match old(self).provider {
                    LightningProvider::LDK(p) => {
                        assert(fs.take(i as int + 1).drop_last() =~= fs.take(i as int));
                        assert(fs.take(i as int + 1).last() == fs[i as int]);
                    },
                    _ => {},
                }
            }
            i = i + 1;
        }
        proof {
            assert(fs.take(payments@.len() as int) =~= fs);
        }
        Ok(flags)
    }

    /// The active provider's type.
    pub fn provider_type(&self) -> (t: ProviderType)
        ensures
            t == self.provider.spec_provider_type(),
    {
        self.provider.provider_type()
    }
}

} // verus!
