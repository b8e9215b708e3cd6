//! Lightning provider abstraction.
//!
//! Three settlement backends stand behind one interface: a custodial REST
//! wallet (LNBits), a native channel node (LDK), and a deterministic stub
//! for testing. The set of variants is closed, so dispatch is a tagged
//! union rather than an open trait.

use vstd::prelude::*;
use crate::error::LightningError;
use crate::strutil::{eq_ignore_ascii_case, str_eq_ignore_ascii_case, str_eq};

pub mod ldk;
pub mod lnbits;
pub mod stub;

use ldk::LDKProvider;
use lnbits::{LNBitsConfig, LNBitsProvider};
use stub::StubProvider;

verus! {

/// Lightning provider type: a closed enumeration.
#[derive(Debug, Clone, Copy, PartialEq, Eq, Structural)]
pub enum ProviderType {
    /// LNBits REST API provider (custodial).
    LNBits,
    /// LDK (Lightning Development Kit) native provider.
    LDK,
    /// Stub provider (for testing, always succeeds).
    Stub,
}

impl Default for ProviderType {
    /// The custodial REST provider is the legacy default used when
    /// configuration omits a choice.
    fn default() -> (t: Self)
        ensures
            t == ProviderType::LNBits,
    {
        ProviderType::LNBits
    }
}

impl ProviderType {
    /// Reads a provider type from a configuration string, matching
    /// "lnbits", "ldk" and "stub" without regard to ASCII letter case,
    /// and rejecting every other string with `ConfigError` (an
    /// unrecognized value is invalid configuration).
    pub fn from_str(s: &str) -> (r: Result<ProviderType, LightningError>)
        ensures
            eq_ignore_ascii_case(s@, "lnbits"@) ==> r == Ok::<ProviderType, LightningError>(
                ProviderType::LNBits,
            ),
            eq_ignore_ascii_case(s@, "ldk"@) ==> r == Ok::<ProviderType, LightningError>(
                ProviderType::LDK,
            ),
            eq_ignore_ascii_case(s@, "stub"@) ==> r == Ok::<ProviderType, LightningError>(
                ProviderType::Stub,
            ),
            !eq_ignore_ascii_case(s@, "lnbits"@) && !eq_ignore_ascii_case(s@, "ldk"@)
                && !eq_ignore_ascii_case(s@, "stub"@) ==> r matches Err(
                LightningError::ConfigError(_),
            ),
    {
        proof {
            reveal_strlit("lnbits");
            reveal_strlit("ldk");
            reveal_strlit("stub");
        }
        if str_eq_ignore_ascii_case(s, "lnbits") {
            Ok(ProviderType::LNBits)
        } else if str_eq_ignore_ascii_case(s, "ldk") {
            Ok(ProviderType::LDK)
        } else if str_eq_ignore_ascii_case(s, "stub") {
            Ok(ProviderType::Stub)
        } else {
            Err(
                LightningError::ConfigError(
                    String::from_str("Unknown provider type (supported: lnbits, ldk, stub)"),
                ),
            )
        }
    }

    /// The lowercase configuration name of this provider type.
    pub fn as_config_str(&self) -> (s: &'static str)
        ensures
            *self == ProviderType::LNBits ==> s@ == "lnbits"@,
            *self == ProviderType::LDK ==> s@ == "ldk"@,
            *self == ProviderType::Stub ==> s@ == "stub"@,
    {
        match self {
            ProviderType::LNBits => "lnbits",
            ProviderType::LDK => "ldk",
            ProviderType::Stub => "stub",
        }
    }
}

/// First value bound to a key in an association list, if any.
pub open spec fn kv_get(m: Seq<(String, String)>, k: Seq<char>) -> Option<Seq<char>>
    decreases m.len(),
{
    if m.len() == 0 {
        None
    } else if m[0].0@ == k {
        Some(m[0].1@)
    } else {
        kv_get(m.drop_first(), k)
    }
}

/// A key bound at index `i`, with no earlier binding, is what `kv_get`
/// returns.
pub proof fn lemma_kv_get_found(m: Seq<(String, String)>, k: Seq<char>, i: int)
    requires
        0 <= i < m.len(),
        m[i].0@ == k,
        forall|j: int| 0 <= j < i ==> (#[trigger] m[j]).0@ != k,
    ensures
        kv_get(m, k) == Some(m[i].1@),
    decreases i,
{
    if i > 0 {
        assert forall|j: int| 0 <= j < i - 1 implies (#[trigger] m.drop_first()[j]).0@ != k by {
            assert(m.drop_first()[j] == m[j + 1]);
        }
        assert(m.drop_first()[i - 1] == m[i]);
        lemma_kv_get_found(m.drop_first(), k, i - 1);
    }
}

/// A key bound at no index is not found.
pub proof fn lemma_kv_get_not_found(m: Seq<(String, String)>, k: Seq<char>)
    requires
        forall|j: int| 0 <= j < m.len() ==> (#[trigger] m[j]).0@ != k,
    ensures
        kv_get(m, k) is None,
    decreases m.len(),
{
    if m.len() > 0 {
        assert forall|j: int| 0 <= j < m.len() - 1 implies (#[trigger] m.drop_first()[j]).0@
            != k by {
            assert(m.drop_first()[j] == m[j + 1]);
        }
        lemma_kv_get_not_found(m.drop_first(), k);
    }
}

/// Payment verification result.
#[derive(Debug, Clone)]
pub struct PaymentVerificationResult {
    /// Whether the payment is verified.
    pub verified: bool,
    /// Payment amount in millisatoshi, when the provider reports one.
    pub amount_msats: Option<u64>,
    /// Payment timestamp, when the provider reports one.
    pub timestamp: Option<u64>,
    /// Provider-specific diagnostic key/value pairs.
    pub metadata: Vec<(String, String)>,
}

impl PaymentVerificationResult {
    /// The first metadata value bound to `key`, if any.
    pub fn metadata_value(&self, key: &str) -> (r: Option<&String>)
        ensures
            match r {
                Some(v) => kv_get(self.metadata@, key@) == Some(v@),
                None => kv_get(self.metadata@, key@) is None,
            },
    {
        proof {
            assert(self.metadata@.skip(0) =~= self.metadata@);
        }
        let mut i: usize = 0;
        while i < self.metadata.len()
            invariant
                i <= self.metadata@.len(),
                kv_get(self.metadata@, key@) == kv_get(
                    self.metadata@.skip(i as int),
                    key@,
                ),
            decreases self.metadata@.len() - i,
        {
            proof {
                assert(self.metadata@.skip(i as int)[0] == self.metadata@[i as int]);
            }
            if str_eq(self.metadata[i].0.as_str(), key) {
                return Some(&self.metadata[i].1);
            }
            proof {
                assert(self.metadata@.skip(i as int).drop_first() =~= self.metadata@.skip(
                    i as int + 1,
                ));
            }
            i = i + 1;
        }
        None
    }
}

/// What a remote payment-status lookup came back with: a decoded reply,
/// or a failure (non-2xx response, transport error, malformed body)
/// carrying its diagnostic text.
#[derive(Debug, Clone)]
pub enum RemotePaymentStatus {
    /// A well-formed reply from the wallet service.
    Response { paid: bool, amount_msats: Option<u64>, timestamp: Option<u64> },
    /// The lookup failed; the payment may simply not be settled yet.
    Failure { message: String },
}

/// What a remote invoice-creation call came back with.
#[derive(Debug, Clone)]
pub enum RemoteInvoiceOutcome {
    /// The wallet service returned a BOLT11 payment request.
    Created { payment_request: String },
    /// The call failed; creation has no safe default.
    Failure { message: String },
}

/// A Lightning provider: one of the three closed settlement backends.
///
/// Operations that consult the remote wallet service (the custodial
/// variant) take the remote call's outcome as an argument: the caller
/// performs the transport against the endpoint the provider names and
/// hands the decoded reply in. The other variants ignore that argument.
pub enum LightningProvider {
    LNBits(LNBitsProvider),
    LDK(LDKProvider),
    Stub(StubProvider),
}

impl LightningProvider {
    /// Whether this provider settles through the remote custodial
    /// service, so that its operations need a remote outcome.
    pub open spec fn is_custodial(&self) -> bool {
        self matches LightningProvider::LNBits(_)
    }

    /// The provider's internal invariant.
    pub open spec fn wf(&self) -> bool {
        match self {
            LightningProvider::LDK(p) => p.wf(),
            _ => true,
        }
    }

    /// The provider's type, as a value.
    pub open spec fn spec_provider_type(&self) -> ProviderType {
        match self {
            LightningProvider::LNBits(_) => ProviderType::LNBits,
            LightningProvider::LDK(_) => ProviderType::LDK,
            LightningProvider::Stub(_) => ProviderType::Stub,
        }
    }

    /// This provider's type.
    pub fn provider_type(&self) -> (t: ProviderType)
        ensures
            t == self.spec_provider_type(),
    {
        match self {
            LightningProvider::LNBits(p) => p.provider_type(),
            LightningProvider::LDK(p) => p.provider_type(),
            LightningProvider::Stub(p) => p.provider_type(),
        }
    }

    /// Verifies a Lightning payment against an invoice, payment hash and
    /// tracking id. The custodial variant judges from `remote`; the
    /// native variant re-derives the invoice's hash and consults its
    /// record map; the stub always succeeds.
    pub fn verify_payment(
        &mut self,
        invoice: &str,
        payment_hash: &[u8; 32],
        payment_id: &str,
        now: u64,
        remote: Option<&RemotePaymentStatus>,
    ) -> (r: Result<PaymentVerificationResult, LightningError>)
        requires
            old(self).wf(),
            old(self).is_custodial() ==> remote is Some,
        ensures
            final(self).wf(),
            match (*old(self), *final(self)) {
                (LightningProvider::LNBits(p), LightningProvider::LNBits(q)) => q == p
                    && lnbits::lnbits_verify_post(payment_hash@, *(remote->Some_0), r),
                (LightningProvider::LDK(p), LightningProvider::LDK(q)) => ldk::ldk_verify_post(
                    p,
                    q,
                    invoice@,
                    payment_hash@,
                    now,
                    r,
                ),
                (LightningProvider::Stub(p), LightningProvider::Stub(q)) => q == p
                    && stub::stub_verify_post(now, r),
                _ => false,
            },
    {
        match self {
            LightningProvider::LNBits(p) => match remote {
                Some(o) => p.verify_payment(invoice, payment_hash, payment_id, o),
                None => vstd::pervasive::unreached(),
            },
            LightningProvider::LDK(p) => p.verify_payment(invoice, payment_hash, payment_id, now),
            LightningProvider::Stub(p) => p.verify_payment(invoice, payment_hash, payment_id, now),
        }
    }

    /// Creates a Lightning invoice over an amount, description and
    /// expiry. The custodial variant relays `remote`'s payment request;
    /// the native variant builds and signs an invoice itself; the stub
    /// returns a placeholder.
    pub fn create_invoice(
        &mut self,
        amount_msats: u64,
        description: &str,
        expiry_seconds: u64,
        now: u64,
        remote: Option<&RemoteInvoiceOutcome>,
    ) -> (r: Result<String, LightningError>)
        requires
            old(self).wf(),
            old(self).is_custodial() ==> remote is Some,
        ensures
            final(self).wf(),
            match (*old(self), *final(self)) {
                (LightningProvider::LNBits(p), LightningProvider::LNBits(q)) => q == p
                    && lnbits::lnbits_create_post(*(remote->Some_0), r),
                (LightningProvider::LDK(p), LightningProvider::LDK(q)) => ldk::ldk_create_post(
                    p,
                    q,
                    amount_msats,
                    description@,
                    now,
                    expiry_seconds,
                    r,
                ),
                (LightningProvider::Stub(p), LightningProvider::Stub(q)) => q == p
                    && stub::stub_create_post(amount_msats, r),
                _ => false,
            },
    {
        match self {
            LightningProvider::LNBits(p) => match remote {
                Some(o) => p.create_invoice(amount_msats, description, expiry_seconds, o),
                None => vstd::pervasive::unreached(),
            },
            LightningProvider::LDK(p) => p.create_invoice(
                amount_msats,
                description,
                expiry_seconds,
                now,
            ),
            LightningProvider::Stub(p) => p.create_invoice(amount_msats, description, expiry_seconds),
        }
    }

    /// Checks whether a payment is confirmed: a pure lookup, answered
    /// from `remote` for the custodial variant, from the record map for
    /// the native variant, and positively by the stub.
    pub fn is_payment_confirmed(
        &self,
        payment_hash: &[u8; 32],
        remote: Option<&RemotePaymentStatus>,
    ) -> (r: Result<bool, LightningError>)
        requires
            self.is_custodial() ==> remote is Some,
        ensures
            match *self {
                LightningProvider::LNBits(_) => r matches Ok(b) && b
                    == lnbits::remote_verified_flag(*(remote->Some_0)),
                LightningProvider::LDK(p) => r matches Ok(b) && b == match ldk::tracker_lookup(
                    p.records(),
                    payment_hash@,
                ) {
                    Some(rec) => rec.confirmed,
                    None => false,
                },
                LightningProvider::Stub(_) => r matches Ok(b) && b == true,
            },
    {
        match self {
            LightningProvider::LNBits(p) => match remote {
                Some(o) => p.is_payment_confirmed(payment_hash, o),
                None => vstd::pervasive::unreached(),
            },
            LightningProvider::LDK(p) => p.is_payment_confirmed(payment_hash),
            LightningProvider::Stub(p) => p.is_payment_confirmed(payment_hash),
        }
    }
}

/// The custodial API URL a configuration names: the provider-specific
/// key, falling back to the legacy node URL key.
pub open spec fn spec_lnbits_api_url(m: Seq<(String, String)>) -> Option<Seq<char>> {
    if kv_get(m, "lightning.lnbits.api_url"@) is Some {
        kv_get(m, "lightning.lnbits.api_url"@)
    } else {
        kv_get(m, "lightning.node_url"@)
    }
}

/// Creates a Lightning provider of the requested type from
/// configuration. The custodial provider needs an API URL and key and
/// fails with `ConfigError` without them; the native provider reads its
/// data directory, network and optional node key (hexadecimal; text that
/// is not valid hexadecimal counts as no key); the stub needs nothing.
pub fn create_provider(provider_type: ProviderType, ctx: &ModuleConfig) -> (r: Result<
    LightningProvider,
    LightningError,
>)
    ensures
        r matches Ok(p) ==> p.wf() && p.spec_provider_type() == provider_type,
        r matches Err(e) ==> e matches LightningError::ConfigError(_),
        provider_type == ProviderType::Stub ==> r is Ok,
        provider_type == ProviderType::LNBits ==> {
            let url = spec_lnbits_api_url(ctx.entries@);
            let key = kv_get(ctx.entries@, "lightning.lnbits.api_key"@);
            &&& ((url is None || key is None) <==> r is Err)
            &&& (r matches Ok(p) ==> p matches LightningProvider::LNBits(q) && {
                let q = p->LNBits_0;
                &&& q.config.api_url@ == url->0
                &&& q.config.api_key@ == key->0
                &&& match q.config.wallet_id {
                    Some(w) => kv_get(ctx.entries@, "lightning.lnbits.wallet_id"@) == Some(w@),
                    None => kv_get(ctx.entries@, "lightning.lnbits.wallet_id"@) is None,
                }
            })
        },
        provider_type == ProviderType::LDK ==> {
            let key_hex = kv_get(ctx.entries@, "lightning.ldk.node_private_key"@);
            let kb = if key_hex is Some && crate::hexstr::valid_hex(key_hex->0) {
                Some(crate::hexstr::decoded_hex(key_hex->0))
            } else {
                None
            };
            &&& (kb matches Some(b) && b.len() == 32 && crate::keys::secp_scalar_ok(b) ==> r is Ok)
            &&& (kb matches Some(b) && (b.len() != 32 || !crate::keys::secp_scalar_ok(b)) ==> r
                is Err)
            &&& (r matches Ok(p) ==> p matches LightningProvider::LDK(q) && {
                let q = p->LDK_0;
                let dd = match kv_get(ctx.entries@, "lightning.ldk.data_dir"@) {
                    Some(v) => v,
                    None => "data/ldk"@,
                };
                let nw = match kv_get(ctx.entries@, "lightning.ldk.network"@) {
                    Some(v) => v,
                    None => "testnet"@,
                };
                &&& q.config.data_dir@ == dd
                &&& q.config.network@ == nw
                &&& q.network == ldk::spec_network_of(nw)
                &&& (kb matches Some(b) ==> q.node_key_bytes@ == b)
                &&& (kb is None ==> q.config.node_private_key is None)
                &&& q.records() =~= Seq::<ldk::RecordV>::empty()
            })
        },
{
    match provider_type {
        ProviderType::LNBits => {
            let api_url: String = match ctx.get_config("lightning.lnbits.api_url") {
                Some(u) => u.clone(),
                None => match ctx.get_config("lightning.node_url") {
                    Some(u) => u.clone(),
                    None => {
                        return Err(
                            LightningError::ConfigError(
                                String::from_str("LNBits API URL not configured"),
                            ),
                        );
                    },
                },
            };
            let api_key: String = match ctx.get_config("lightning.lnbits.api_key") {
                Some(k) => k.clone(),
                None => {
                    return Err(
                        LightningError::ConfigError(
                            String::from_str("LNBits API key not configured"),
                        ),
                    );
                },
            };
            let wallet_id: Option<String> = match ctx.get_config("lightning.lnbits.wallet_id") {
                Some(w) => Some(w.clone()),
                None => None,
            };
            let config = LNBitsConfig { api_url, api_key, wallet_id };
            match LNBitsProvider::new(config) {
                Ok(p) => Ok(LightningProvider::LNBits(p)),
                Err(e) => Err(e),
            }
        },
        ProviderType::LDK => {
            let data_dir = ctx.get_config_or("lightning.ldk.data_dir", "data/ldk");
            let network = ctx.get_config_or("lightning.ldk.network", "testnet");
            let node_private_key: Option<Vec<u8>> = match ctx.get_config(
                "lightning.ldk.node_private_key",
            ) {
                Some(s) => crate::hexstr::decode(s.as_str()),
                None => None,
            };
            let config = ldk::LDKConfig { data_dir, network, node_private_key };
            match LDKProvider::new(config) {
                Ok(p) => Ok(LightningProvider::LDK(p)),
                Err(e) => Err(e),
            }
        },
        ProviderType::Stub => Ok(LightningProvider::Stub(StubProvider::new())),
    }
}

/// Configuration handed down by the host: a key/value list.
pub struct ModuleConfig {
    pub entries: Vec<(String, String)>,
}

impl ModuleConfig {
    /// The configured value for `key`, if any.
    pub fn get_config(&self, key: &str) -> (r: Option<&String>)
        ensures
            match r {
                Some(v) => kv_get(self.entries@, key@) == Some(v@),
                None => kv_get(self.entries@, key@) is None,
            },
    {
        proof {
            assert(self.entries@.skip(0) =~= self.entries@);
        }
        let mut i: usize = 0;
        while i < self.entries.len()
            invariant
                i <= self.entries@.len(),
                kv_get(self.entries@, key@) == kv_get(self.entries@.skip(i as int), key@),
            decreases self.entries@.len() - i,
        {
            proof {
                assert(self.entries@.skip(i as int)[0] == self.entries@[i as int]);
            }
            if str_eq(self.entries[i].0.as_str(), key) {
                return Some(&self.entries[i].1);
            }
            proof {
                assert(self.entries@.skip(i as int).drop_first() =~= self.entries@.skip(
                    i as int + 1,
                ));
            }
            i = i + 1;
        }
        None
    }

    /// The configured value for `key`, or `default` when absent.
    pub fn get_config_or(&self, key: &str, default: &str) -> (r: String)
        ensures
            r@ == match kv_get(self.entries@, key@) {
                Some(v) => v,
                None => default@,
            },
    {
        match self.get_config(key) {
            Some(v) => v.clone(),
            None => String::from_str(default),
        }
    }
}

} // verus!
