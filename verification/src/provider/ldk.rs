//! LDK (Lightning Development Kit) provider implementation.
//!
//! The native-channel provider holds a long-lived identity key and an
//! in-memory record of payment hashes it has seen. Verification binds the
//! caller's payment hash to the invoice's own hash and answers repeat
//! verifications from the record, making verification idempotent per
//! hash. Full channel-state management is out of scope: a hash-matching,
//! non-expired invoice is treated as confirmed without consulting an
//! external settlement oracle.

use vstd::prelude::*;
use crate::error::LightningError;
use crate::hexstr;
use crate::invoice::{bolt11_decoded, resolved_amount, Bolt11Fields, InvoiceParser};
use crate::keys;
use crate::provider::{kv_get, PaymentVerificationResult, ProviderType};
use crate::strutil::{bytes32_of, bytes_eq, eq_ignore_ascii_case, str_eq_ignore_ascii_case};

verus! {

/// Bitcoin network flavour the provider signs invoices for.
#[derive(Debug, Clone, Copy, PartialEq, Eq, Structural)]
pub enum Network {
    Bitcoin,
    Testnet,
    Regtest,
    Signet,
}

/// The network named by a configuration string, matched without regard
/// to ASCII letter case; unknown names fall back to testnet.
pub open spec fn spec_network_of(s: Seq<char>) -> Network {
    if eq_ignore_ascii_case(s, "mainnet"@) {
        Network::Bitcoin
    } else if eq_ignore_ascii_case(s, "testnet"@) {
        Network::Testnet
    } else if eq_ignore_ascii_case(s, "regtest"@) {
        Network::Regtest
    } else if eq_ignore_ascii_case(s, "signet"@) {
        Network::Signet
    } else {
        Network::Testnet
    }
}

impl Network {
    /// Reads a network from its configuration name.
    pub fn from_config_str(s: &str) -> (n: Network)
        ensures
            n == spec_network_of(s@),
    {
        if str_eq_ignore_ascii_case(s, "mainnet") {
            Network::Bitcoin
        } else if str_eq_ignore_ascii_case(s, "testnet") {
            Network::Testnet
        } else if str_eq_ignore_ascii_case(s, "regtest") {
            Network::Regtest
        } else if str_eq_ignore_ascii_case(s, "signet") {
            Network::Signet
        } else {
            Network::Testnet
        }
    }

    /// The network's display name.
    pub fn name(&self) -> (s: &'static str)
        ensures
            *self == Network::Bitcoin ==> s@ == "Bitcoin"@,
            *self == Network::Testnet ==> s@ == "Testnet"@,
            *self == Network::Regtest ==> s@ == "Regtest"@,
            *self == Network::Signet ==> s@ == "Signet"@,
    {
        match self {
            Network::Bitcoin => "Bitcoin",
            Network::Testnet => "Testnet",
            Network::Regtest => "Regtest",
            Network::Signet => "Signet",
        }
    }
}

/// LDK provider configuration.
pub struct LDKConfig {
    /// Data directory for the provider's persisted state.
    pub data_dir: String,
    /// Network name (mainnet, testnet, regtest, signet).
    pub network: String,
    /// Node private key; a fresh one is generated when absent.
    pub node_private_key: Option<Vec<u8>>,
}

/// One tracked payment: amount, observation time, and confirmation.
pub struct PaymentRecord {
    pub payment_hash: [u8; 32],
    pub amount_msats: u64,
    pub timestamp: u64,
    pub confirmed: bool,
}

/// Mathematical image of a payment record.
pub struct RecordV {
    pub payment_hash: Seq<u8>,
    pub amount_msats: u64,
    pub timestamp: u64,
    pub confirmed: bool,
}

impl View for PaymentRecord {
    type V = RecordV;

    open spec fn view(&self) -> RecordV {
        RecordV {
            payment_hash: self.payment_hash@,
            amount_msats: self.amount_msats,
            timestamp: self.timestamp,
            confirmed: self.confirmed,
        }
    }
}

/// One stored invoice, keyed by its payment hash.
pub struct InvoiceEntry {
    pub payment_hash: [u8; 32],
    pub invoice: String,
}

/// Mathematical image of a stored invoice.
pub struct EntryV {
    pub payment_hash: Seq<u8>,
    pub invoice: Seq<char>,
}

impl View for InvoiceEntry {
    type V = EntryV;

    open spec fn view(&self) -> EntryV {
        EntryV { payment_hash: self.payment_hash@, invoice: self.invoice@ }
    }
}

/// First record bound to a payment hash, if any.
pub open spec fn tracker_lookup(rs: Seq<RecordV>, h: Seq<u8>) -> Option<RecordV>
    decreases rs.len(),
{
    if rs.len() == 0 {
        None
    } else if rs[0].payment_hash == h {
        Some(rs[0])
    } else {
        tracker_lookup(rs.drop_first(), h)
    }
}

/// What one native-channel verification reports.
pub struct VerifyOutcome {
    pub verified: bool,
    pub amount_msats: Option<u64>,
    pub timestamp: Option<u64>,
    pub hash_mismatch: bool,
}

/// The result of verifying decoded fields `f` against caller hash `h`
/// over record state `rs` at time `now`: a mismatching hash is a
/// verification outcome (not a fault); a known hash is answered from its
/// record; a fresh hash is confirmed with the invoice's amount.
pub open spec fn ldk_verify_outcome(rs: Seq<RecordV>, f: Bolt11Fields, h: Seq<u8>, now: u64) -> VerifyOutcome {
    if f.payment_hash != h {
        VerifyOutcome { verified: false, amount_msats: None, timestamp: None, hash_mismatch: true }
    } else {
        match tracker_lookup(rs, h) {
            Some(rec) => VerifyOutcome {
                verified: rec.confirmed,
                amount_msats: Some(rec.amount_msats),
                timestamp: Some(rec.timestamp),
                hash_mismatch: false,
            },
            None => VerifyOutcome {
                verified: true,
                amount_msats: Some(resolved_amount(f)),
                timestamp: Some(now),
                hash_mismatch: false,
            },
        }
    }
}

/// The record state after one verification: unchanged, except that a
/// matching, previously unseen hash gains a confirmed record.
pub open spec fn ldk_verify_tracker_after(
    rs: Seq<RecordV>,
    f: Bolt11Fields,
    h: Seq<u8>,
    now: u64,
) -> Seq<RecordV> {
    if f.payment_hash == h && tracker_lookup(rs, h) is None {
        rs.push(
            RecordV {
                payment_hash: h,
                amount_msats: resolved_amount(f),
                timestamp: now,
                confirmed: true,
            },
        )
    } else {
        rs
    }
}

/// Appending a record changes lookups only for its own hash, and only
/// when that hash was absent.
pub proof fn lemma_tracker_lookup_push(rs: Seq<RecordV>, rec: RecordV, h: Seq<u8>)
    ensures
        tracker_lookup(rs.push(rec), h) == if tracker_lookup(rs, h) is Some {
            tracker_lookup(rs, h)
        } else if rec.payment_hash == h {
            Some(rec)
        } else {
            None
        },
    decreases rs.len(),
{
    if rs.len() == 0 {
        assert(rs.push(rec)[0] == rec);
        assert(rs.push(rec).drop_first() =~= Seq::<RecordV>::empty());
    } else {
        assert(rs.push(rec)[0] == rs[0]);
        assert(rs.push(rec).drop_first() =~= rs.drop_first().push(rec));
        lemma_tracker_lookup_push(rs.drop_first(), rec, h);
    }
}

/// A failed lookup means no record carries the hash.
pub proof fn lemma_tracker_lookup_none(rs: Seq<RecordV>, h: Seq<u8>)
    requires
        tracker_lookup(rs, h) is None,
    ensures
        forall|i: int| 0 <= i < rs.len() ==> (#[trigger] rs[i]).payment_hash != h,
    decreases rs.len(),
{
    if rs.len() > 0 {
        lemma_tracker_lookup_none(rs.drop_first(), h);
        assert forall|i: int| 0 <= i < rs.len() implies (#[trigger] rs[i]).payment_hash != h by {
            if i > 0 {
                assert(rs.drop_first()[i - 1] == rs[i]);
            }
        }
    }
}

/// Native-channel idempotence: verifying the same invoice and hash a
/// second time answers from the record the first verification found or
/// created, so the second verification reports the same verified flag,
/// amount and timestamp as the first, and leaves the record state
/// unchanged.
pub proof fn lemma_verify_idempotent(
    rs: Seq<RecordV>,
    f: Bolt11Fields,
    h: Seq<u8>,
    now1: u64,
    now2: u64,
)
    ensures
        ({
            let rs1 = ldk_verify_tracker_after(rs, f, h, now1);
            &&& ldk_verify_outcome(rs1, f, h, now2) == ldk_verify_outcome(rs, f, h, now1)
            &&& ldk_verify_tracker_after(rs1, f, h, now2) == rs1
        }),
{
    if f.payment_hash == h && tracker_lookup(rs, h) is None {
        let rec = RecordV {
            payment_hash: h,
            amount_msats: resolved_amount(f),
            timestamp: now1,
            confirmed: true,
        };
        lemma_tracker_lookup_push(rs, rec, h);
    }
}

/// LDK provider implementation.
pub struct LDKProvider {
    /// The configuration the provider was built from.
    pub config: LDKConfig,
    /// The node's identity key.
    pub signing_key: bitcoin::secp256k1::SecretKey,
    /// The identity key's bytes, kept for persistence.
    pub node_key_bytes: [u8; 32],
    /// The node's public identity, compressed.
    pub node_id: [u8; 33],
    /// The network invoices are signed for.
    pub network: Network,
    /// Payment hash tracking: hash, amount, observation time, confirmed.
    pub payment_tracker: Vec<PaymentRecord>,
    /// Invoices this provider issued, keyed by payment hash.
    pub invoice_storage: Vec<InvoiceEntry>,
}

/// Everything one native-channel verification promises: the provider's
/// identity and issued invoices are untouched; on unparseable text the
/// call fails with `InvoiceError` and changes nothing; otherwise the
/// result and the new record state follow [`ldk_verify_outcome`] and
/// [`ldk_verify_tracker_after`], the metadata names this provider, and it
/// carries the `payment_hash_mismatch` marker exactly on a mismatch.
pub open spec fn ldk_verify_post(
    pre: LDKProvider,
    post: LDKProvider,
    invoice: Seq<char>,
    h: Seq<u8>,
    now: u64,
    r: Result<PaymentVerificationResult, LightningError>,
) -> bool {
    &&& post.config == pre.config
    &&& post.network == pre.network
    &&& post.node_key_bytes == pre.node_key_bytes
    &&& post.node_id == pre.node_id
    &&& post.storage() == pre.storage()
    &&& match bolt11_decoded(invoice) {
        None => {
            &&& r matches Err(LightningError::InvoiceError(_))
            &&& post.records() == pre.records()
        },
        Some(f) => {
            let out = ldk_verify_outcome(pre.records(), f, h, now);
            &&& post.records() == ldk_verify_tracker_after(pre.records(), f, h, now)
            &&& r matches Ok(v)
            &&& {
                let v = r->Ok_0;
                &&& v.verified == out.verified
                &&& v.amount_msats == out.amount_msats
                &&& v.timestamp == out.timestamp
                &&& kv_get(v.metadata@, "provider"@) == Some("ldk"@)
                &&& (out.hash_mismatch ==> kv_get(v.metadata@, "error"@) == Some(
                    "payment_hash_mismatch"@,
                ))
                &&& (!out.hash_mismatch ==> kv_get(v.metadata@, "error"@) is None)
            }
        },
    }
}

/// Everything one native invoice creation promises: the provider's
/// identity, record state and configuration are untouched; on success
/// the returned text decodes to an invoice over the requested amount,
/// creation time and expiry, whose 32-byte payment hash keys the stored
/// copy; an amount whose pico-BTC value overflows is refused; and with
/// that amount in range, a creation time within the encoding's 35-bit
/// range and a description of at most 159 characters, creation succeeds.
pub open spec fn ldk_create_post(
    pre: LDKProvider,
    post: LDKProvider,
    amount_msats: u64,
    description: Seq<char>,
    now: u64,
    expiry_seconds: u64,
    r: Result<String, LightningError>,
) -> bool {
    &&& post.config == pre.config
    &&& post.network == pre.network
    &&& post.node_key_bytes == pre.node_key_bytes
    &&& post.records() == pre.records()
    &&& (r matches Ok(s) ==> {
        &&& bolt11_decoded(s@) matches Some(f)
        &&& amount_msats * 10 <= u64::MAX
        &&& {
            let f = bolt11_decoded(s@)->Some_0;
            &&& f.amount_pico == Some((amount_msats * 10) as u64)
            &&& f.created_at == now
            &&& f.expiry_rel == Some(expiry_seconds)
            &&& f.payment_hash.len() == 32
            &&& post.storage() == pre.storage().push(
                EntryV { payment_hash: f.payment_hash, invoice: s@ },
            )
        }
    })
    &&& (amount_msats * 10 > u64::MAX ==> r is Err)
    &&& (amount_msats * 10 <= u64::MAX && now < 0x8_0000_0000 && description.len() <= 159 ==> r
        is Ok)
    &&& (r is Err ==> post.storage() == pre.storage())
    &&& (r matches Err(e) ==> e matches LightningError::ProcessorError(_))
}

impl LDKProvider {
    /// The record state as a sequence of record images.
    pub open spec fn records(&self) -> Seq<RecordV> {
        self.payment_tracker@.map_values(|r: PaymentRecord| r@)
    }

    /// The issued invoices as a sequence of entry images.
    pub open spec fn storage(&self) -> Seq<EntryV> {
        self.invoice_storage@.map_values(|e: InvoiceEntry| e@)
    }

    /// Tracked hashes are unique: the record map is keyed by hash.
    pub open spec fn wf(&self) -> bool {
        forall|i: int, j: int|
            0 <= i < j < self.records().len() ==> (#[trigger] self.records()[i]).payment_hash != (
            #[trigger] self.records()[j]).payment_hash
    }

    /// Creates a new LDK provider. A supplied node key must be exactly 32
    /// bytes and a valid curve scalar, otherwise construction fails with
    /// `ConfigError`; when none is supplied a fresh key is generated.
    pub fn new(config: LDKConfig) -> (r: Result<LDKProvider, LightningError>)
        ensures
            r matches Ok(p) ==> {
                &&& p.wf()
                &&& p.records() =~= Seq::<RecordV>::empty()
                &&& p.storage() =~= Seq::<EntryV>::empty()
                &&& p.network == spec_network_of(config.network@)
                &&& p.config == config
                &&& (config.node_private_key matches Some(k) ==> p.node_key_bytes@ == k@)
            },
            config.node_private_key matches Some(k) && k@.len() != 32 ==> r matches Err(
                LightningError::ConfigError(_),
            ),
            config.node_private_key matches Some(k) && k@.len() == 32 && !keys::secp_scalar_ok(k@)
                ==> r matches Err(LightningError::ConfigError(_)),
            config.node_private_key matches Some(k) && k@.len() == 32 && keys::secp_scalar_ok(k@)
                ==> r is Ok,
            r matches Err(e) ==> e matches LightningError::ConfigError(_),
    {
        let network = Network::from_config_str(config.network.as_str());
        let node_key_bytes: [u8; 32] = match &config.node_private_key {
            Some(kb) => {
                if kb.len() != 32 {
                    return Err(
                        LightningError::ConfigError(
                            String::from_str("Node private key must be 32 bytes"),
                        ),
                    );
                }
                bytes32_of(kb.as_slice())
            },
            None => keys::random_bytes32(),
        };
        let signing_key = match keys::secret_key_from_bytes(&node_key_bytes) {
            Some(k) => k,
            None => {
                return Err(LightningError::ConfigError(String::from_str("Invalid private key")));
            },
        };
        let node_id = keys::public_key_bytes(&signing_key);
        Ok(
            LDKProvider {
                config,
                signing_key,
                node_key_bytes,
                node_id,
                network,
                payment_tracker: Vec::new(),
                invoice_storage: Vec::new(),
            },
        )
    }

    /// Reads a persisted node key from its hexadecimal text: it must be
    /// well-formed hexadecimal of exactly 32 bytes forming a valid curve
    /// scalar.
    pub fn load_keys(key_hex: &str) -> (r: Result<Vec<u8>, LightningError>)
        ensures
            r matches Ok(v) ==> {
                &&& hexstr::valid_hex(key_hex@)
                &&& v@ == hexstr::decoded_hex(key_hex@)
                &&& v@.len() == 32
                &&& keys::secp_scalar_ok(v@)
            },
            r matches Err(e) ==> e matches LightningError::ConfigError(_),
            hexstr::valid_hex(key_hex@) && hexstr::decoded_hex(key_hex@).len() == 32
                && keys::secp_scalar_ok(hexstr::decoded_hex(key_hex@)) ==> r is Ok,
    {
        let bytes = match hexstr::decode(key_hex) {
            Some(v) => v,
            None => {
                return Err(LightningError::ConfigError(String::from_str("Invalid key hex")));
            },
        };
        if bytes.len() != 32 {
            return Err(LightningError::ConfigError(String::from_str("Node key must be 32 bytes")));
        }
        let arr = bytes32_of(bytes.as_slice());
        match keys::secret_key_from_bytes(&arr) {
            Some(_) => Ok(bytes),
            None => Err(LightningError::ConfigError(String::from_str("Invalid key"))),
        }
    }

    /// The node key as lowercase hexadecimal, for persistence.
    pub fn node_key_hex(&self) -> (s: String)
        ensures
            s@ == hexstr::hex_of(self.node_key_bytes@),
    {
        hexstr::encode(self.node_key_bytes.as_slice())
    }

    /// First tracked record carrying the hash, by index.
    fn find_record(&self, payment_hash: &[u8; 32]) -> (r: Option<usize>)
        ensures
            match r {
                Some(i) => i < self.payment_tracker@.len() && tracker_lookup(
                    self.records(),
                    payment_hash@,
                ) == Some(self.records()[i as int]),
                None => tracker_lookup(self.records(), payment_hash@) is None,
            },
    {
        proof {
            assert(self.records().skip(0) =~= self.records());
        }
        let mut i: usize = 0;
        while i < self.payment_tracker.len()
            invariant
                i <= self.payment_tracker@.len(),
                tracker_lookup(self.records(), payment_hash@) == tracker_lookup(
                    self.records().skip(i as int),
                    payment_hash@,
                ),
            decreases self.payment_tracker@.len() - i,
        {
            proof {
                assert(self.records().skip(i as int)[0] == self.records()[i as int]);
            }
            if bytes_eq(self.payment_tracker[i].payment_hash.as_slice(), payment_hash.as_slice()) {
                return Some(i);
            }
            proof {
                assert(self.records().skip(i as int).drop_first() =~= self.records().skip(
                    i as int + 1,
                ));
            }
            i = i + 1;
        }
        None
    }

    /// Verifies a payment: parses the invoice text independently, binds
    /// the caller's hash to the invoice's own hash, and answers from the
    /// payment record, creating one for a fresh matching hash.
    pub fn verify_payment(
        &mut self,
        invoice: &str,
        payment_hash: &[u8; 32],
        payment_id: &str,
        now: u64,
    ) -> (r: Result<PaymentVerificationResult, LightningError>)
        requires
            old(self).wf(),
        ensures
            final(self).wf(),
            ldk_verify_post(*old(self), *final(self), invoice@, payment_hash@, now, r),
    {
        let _ = payment_id;
        let data = match InvoiceParser::parse(invoice, now) {
            Ok(d) => d,
            Err(e) => {
                return Err(e);
            },
        };
        proof {
            reveal_strlit("provider");
            reveal_strlit("error");
            reveal_strlit("payment_hash");
            reveal_strlit("network");
            reveal_strlit("node_id");
            assert("provider"@.len() == 8);
            assert("error"@.len() == 5);
            assert("payment_hash"@.len() == 12);
            assert("network"@.len() == 7);
            assert("node_id"@.len() == 7);
        }
        if !bytes_eq(data.payment_hash.as_slice(), payment_hash.as_slice()) {
            let mut metadata: Vec<(String, String)> = Vec::new();
            metadata.push((String::from_str("provider"), String::from_str("ldk")));
            metadata.push(
                (String::from_str("error"), String::from_str("payment_hash_mismatch")),
            );
            metadata.push(
                (String::from_str("payment_hash"), hexstr::encode(payment_hash.as_slice())),
            );
            proof {
                crate::provider::lemma_kv_get_found(metadata@, "provider"@, 0);
                crate::provider::lemma_kv_get_found(metadata@, "error"@, 1);
            }
            return Ok(
                PaymentVerificationResult {
                    verified: false,
                    amount_msats: None,
                    timestamp: None,
                    metadata,
                },
            );
        }
        match self.find_record(payment_hash) {
            Some(i) => {
                let rec = &self.payment_tracker[i];
                let mut metadata: Vec<(String, String)> = Vec::new();
                metadata.push((String::from_str("provider"), String::from_str("ldk")));
                metadata.push(
                    (String::from_str("payment_hash"), hexstr::encode(payment_hash.as_slice())),
                );
                metadata.push((String::from_str("network"), String::from_str(self.network.name())));
                proof {
                    crate::provider::lemma_kv_get_found(metadata@, "provider"@, 0);
                    crate::provider::lemma_kv_get_not_found(metadata@, "error"@);
                }
                Ok(
                    PaymentVerificationResult {
                        verified: rec.confirmed,
                        amount_msats: Some(rec.amount_msats),
                        timestamp: Some(rec.timestamp),
                        metadata,
                    },
                )
            },
            None => {
                proof {
                    lemma_tracker_lookup_none(self.records(), payment_hash@);
                }
                let rec = PaymentRecord {
                    payment_hash: bytes32_of(data.payment_hash.as_slice()),
                    amount_msats: data.amount_msats,
                    timestamp: now,
                    confirmed: true,
                };
                self.payment_tracker.push(rec);
                proof {
                    assert(self.records() =~= old(self).records().push(
                        RecordV {
                            payment_hash: payment_hash@,
                            amount_msats: data.amount_msats,
                            timestamp: now,
                            confirmed: true,
                        },
                    ));
                }
                let mut metadata: Vec<(String, String)> = Vec::new();
                metadata.push((String::from_str("provider"), String::from_str("ldk")));
                metadata.push(
                    (String::from_str("payment_hash"), hexstr::encode(payment_hash.as_slice())),
                );
                metadata.push((String::from_str("network"), String::from_str(self.network.name())));
                metadata.push((String::from_str("node_id"), hexstr::encode(self.node_id.as_slice())));
                proof {
                    crate::provider::lemma_kv_get_found(metadata@, "provider"@, 0);
                    crate::provider::lemma_kv_get_not_found(metadata@, "error"@);
                }
                Ok(
                    PaymentVerificationResult {
                        verified: true,
                        amount_msats: Some(data.amount_msats),
                        timestamp: Some(now),
                        metadata,
                    },
                )
            },
        }
    }

    /// Creates a signed invoice over a fresh payment secret: the payment
    /// hash is the digest of the secret, the invoice is stored under that
    /// hash, and the serialized text is returned.
    pub fn create_invoice(
        &mut self,
        amount_msats: u64,
        description: &str,
        expiry_seconds: u64,
        now: u64,
    ) -> (r: Result<String, LightningError>)
        requires
            old(self).wf(),
        ensures
            final(self).wf(),
            ldk_create_post(
                *old(self),
                *final(self),
                amount_msats,
                description@,
                now,
                expiry_seconds,
                r,
            ),
    {
        let preimage = keys::random_bytes32();
        let payment_hash = keys::sha256(preimage.as_slice());
        let payment_secret = keys::random_bytes32();
        let mainnet = match self.network {
            Network::Bitcoin => true,
            _ => false,
        };
        let invoice = match crate::invoice::bolt11_build(
            mainnet,
            amount_msats,
            description,
            &payment_hash,
            &payment_secret,
            now,
            expiry_seconds,
            144,
            &self.signing_key,
        ) {
            Ok(s) => s,
            Err(e) => {
                return Err(e);
            },
        };
        let entry = InvoiceEntry { payment_hash, invoice: invoice.clone() };
        self.invoice_storage.push(entry);
        proof {
            assert(self.storage() =~= old(self).storage().push(
                EntryV { payment_hash: payment_hash@, invoice: invoice@ },
            ));
            assert(self.records() =~= old(self).records());
        }
        Ok(invoice)
    }

    /// Pure confirmation lookup in the payment record: absence means
    /// `false`, never an error.
    pub fn is_payment_confirmed(&self, payment_hash: &[u8; 32]) -> (r: Result<
        bool,
        LightningError,
    >)
        ensures
            r matches Ok(b) && b == match tracker_lookup(self.records(), payment_hash@) {
                Some(rec) => rec.confirmed,
                None => false,
            },
    {
        match self.find_record(payment_hash) {
            Some(i) => Ok(self.payment_tracker[i].confirmed),
            None => Ok(false),
        }
    }

    /// This provider's type.
    pub fn provider_type(&self) -> (t: ProviderType)
        ensures
            t == ProviderType::LDK,
    {
        ProviderType::LDK
    }
}

} // verus!
