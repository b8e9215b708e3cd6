//! BOLT11 invoice handling: parsing into a normalized record and building
//! signed invoices.
//!
//! The BOLT11 wire format itself (bech32, tagged fields, signature) is
//! handled by the `lightning-invoice` crate behind two trusted wrappers;
//! everything derived from the decoded fields (amount conversion, expiry
//! resolution, hash extraction) is verified here.

use vstd::prelude::*;
use crate::error::LightningError;
use crate::hexstr;

verus! {

/// The fields of a well-formed BOLT11 invoice that this module reads:
/// the raw amount in pico-BTC (absent when the invoice carries no
/// amount), the 32-byte payment hash, the creation timestamp (seconds
/// since epoch), and the relative expiry offset in seconds (absent when
/// the invoice encodes none).
pub struct Bolt11Fields {
    pub amount_pico: Option<u64>,
    pub payment_hash: Seq<u8>,
    pub created_at: u64,
    pub expiry_rel: Option<u64>,
}

/// What BOLT11 decoding yields on a given character string: `None` when
/// the text is not a valid signed invoice, otherwise its fields.
pub uninterp spec fn bolt11_decoded(s: Seq<char>) -> Option<Bolt11Fields>;

/// The decoded fields as plain values, as handed out of the parse
/// wrapper.
pub struct DecodedInvoice {
    pub amount_pico: Option<u64>,
    pub payment_hash: Vec<u8>,
    pub created_at: u64,
    pub expiry_rel: Option<u64>,
}

impl View for DecodedInvoice {
    type V = Bolt11Fields;

    open spec fn view(&self) -> Bolt11Fields {
        Bolt11Fields {
            amount_pico: self.amount_pico,
            payment_hash: self.payment_hash@,
            created_at: self.created_at,
            expiry_rel: self.expiry_rel,
        }
    }
}

/// Relies on `lightning_invoice::Bolt11Invoice::from_str`, which parses a
/// BOLT11 string and validates checksum, field counts and signature, and
/// on its accessors `payment_hash` (always 32 bytes), `amount_pico_btc`,
/// `duration_since_epoch` and `expiry_time`. Parsing is a function of the
/// text alone.
#[verifier::external_body]
fn bolt11_parse_raw(s: &str) -> (r: Option<DecodedInvoice>)
    ensures
        r matches Some(d) ==> bolt11_decoded(s@) == Some(d@) && d.payment_hash@.len() == 32,
        r is None ==> bolt11_decoded(s@) is None,
{
    let invoice = match <lightning_invoice::Bolt11Invoice as core::str::FromStr>::from_str(s) {
        Ok(i) => i,
        Err(_) => {
            return None;
        },
    };
    let payment_hash =
        bitcoin::hashes::Hash::to_byte_array(*invoice.payment_hash()).to_vec();
    let created_at = invoice.duration_since_epoch().as_secs();
    let signed = invoice.into_signed_raw();
    let amount_pico = signed.raw_invoice().amount_pico_btc();
    let expiry_rel = signed.raw_invoice().expiry_time().map(|e| e.as_seconds());
    Some(DecodedInvoice { amount_pico, payment_hash, created_at, expiry_rel })
}

/// Relies on `lightning_invoice::InvoiceBuilder` (`build_signed`) and the
/// `Display`/`FromStr` pair: a signed invoice built over these fields
/// renders to text that decodes back to the same amount, payment hash,
/// creation timestamp and expiry offset. Building fails only on its
/// arguments: an amount whose pico-BTC value overflows `u64`, a
/// description over 639 UTF-8 bytes, or a creation timestamp beyond the
/// encoding's 35-bit range; within those bounds it succeeds (159
/// characters are at most 636 UTF-8 bytes, so the character bound below
/// suffices).
#[verifier::external_body]
pub(crate) fn bolt11_build(
    mainnet: bool,
    amount_msats: u64,
    description: &str,
    payment_hash: &[u8; 32],
    payment_secret: &[u8; 32],
    created_at: u64,
    expiry_seconds: u64,
    min_final_cltv_delta: u64,
    signing_key: &bitcoin::secp256k1::SecretKey,
) -> (r: Result<String, LightningError>)
    ensures
        r matches Ok(s) ==> amount_msats * 10 <= u64::MAX && bolt11_decoded(s@) == Some(
            Bolt11Fields {
                amount_pico: Some((amount_msats * 10) as u64),
                payment_hash: payment_hash@,
                created_at: created_at,
                expiry_rel: Some(expiry_seconds),
            },
        ),
        amount_msats * 10 > u64::MAX ==> r is Err,
        amount_msats * 10 <= u64::MAX && created_at < 0x8_0000_0000 && description@.len() <= 159
            ==> r is Ok,
        r matches Err(e) ==> e matches LightningError::ProcessorError(_),
{
    let currency = if mainnet { lightning_invoice::Currency::Bitcoin } else { lightning_invoice::Currency::BitcoinTestnet };
    let hash = <bitcoin::hashes::sha256::Hash as bitcoin::hashes::Hash>::from_byte_array(*payment_hash);
    let secp = bitcoin::secp256k1::Secp256k1::new();
    let built = lightning_invoice::InvoiceBuilder::new(currency)
        .amount_milli_satoshis(amount_msats).description(description.to_string())
        .payment_hash(hash).payment_secret(lightning_invoice::PaymentSecret(*payment_secret))
        .duration_since_epoch(core::time::Duration::from_secs(created_at))
        .expiry_time(core::time::Duration::from_secs(expiry_seconds))
        .min_final_cltv_expiry_delta(min_final_cltv_delta)
        .build_signed(|m| secp.sign_ecdsa_recoverable(m, signing_key));
    match built {
        Ok(invoice) => Ok(invoice.to_string()),
        Err(e) => Err(LightningError::ProcessorError(format!("Failed to build invoice: {:?}", e))),
    }
}

/// Millisatoshi value of a pico-BTC amount, rounded half up (1 msat is
/// 10 pico-BTC).
pub open spec fn msat_of_pico(p: u64) -> u64 {
    ((p + 5) / 10) as u64
}

/// The amount in millisatoshi carried by decoded fields: 0 when the
/// invoice has no amount field.
pub open spec fn resolved_amount(f: Bolt11Fields) -> u64 {
    match f.amount_pico {
        Some(p) => msat_of_pico(p),
        None => 0,
    }
}

/// Sum of two timestamps, saturating at the largest representable value.
pub open spec fn sat_add64(a: u64, b: u64) -> u64 {
    if a + b <= u64::MAX {
        (a + b) as u64
    } else {
        u64::MAX
    }
}

/// The absolute expiry time of decoded fields: the invoice's creation
/// time plus its expiry offset, or one hour from parse time when the
/// invoice encodes no offset.
pub open spec fn resolved_expiry(f: Bolt11Fields, now: u64) -> u64 {
    match f.expiry_rel {
        Some(offset) => sat_add64(f.created_at, offset),
        None => sat_add64(now, 3600),
    }
}

/// Adds two timestamps, saturating at `u64::MAX`.
fn sat_add(a: u64, b: u64) -> (r: u64)
    ensures
        r == sat_add64(a, b),
{
    if a <= u64::MAX - b {
        a + b
    } else {
        u64::MAX
    }
}

/// Round trip of the codec: an invoice built over an amount in
/// millisatoshi and a payment hash decodes to fields whose resolved
/// amount is that same amount (the wire unit is ten times finer and the
/// conversion rounds half up, so the exact multiple comes back
/// unchanged) and whose payment hash is that same hash. Together with
/// the contracts of building and parsing, parsing a serialized invoice
/// recovers the amount and the 32-byte hash it was built over.
pub proof fn lemma_round_trip(s: Seq<char>, amount_msats: u64, hash: Seq<u8>)
    requires
        amount_msats * 10 <= u64::MAX,
        bolt11_decoded(s) matches Some(f),
        bolt11_decoded(s)->Some_0.amount_pico == Some((amount_msats * 10) as u64),
        bolt11_decoded(s)->Some_0.payment_hash == hash,
    ensures
        resolved_amount(bolt11_decoded(s)->Some_0) == amount_msats,
        bolt11_decoded(s)->Some_0.payment_hash == hash,
{
    let p = (amount_msats * 10) as u64;
    assert(p as int + 5 == 10 * (amount_msats as int) + 5);
    vstd::arithmetic::div_mod::lemma_div_multiples_vanish_fancy(amount_msats as int, 5, 10);
    assert(msat_of_pico(p) == amount_msats);
}

/// Parsed invoice data: amount in millisatoshi (0 when the invoice
/// carries none), the 32-byte payment hash, the absolute expiry time, and
/// the original invoice text.
pub struct InvoiceData {
    pub amount_msats: u64,
    pub payment_hash: Vec<u8>,
    pub expiry_unix: u64,
    pub raw: String,
}

impl InvoiceData {
    /// The payment hash is always exactly 32 bytes.
    pub open spec fn wf(&self) -> bool {
        self.payment_hash@.len() == 32
    }

    /// Whether the invoice is expired at `now` (seconds since epoch):
    /// strictly past the expiry time. `now == expiry_unix` is not yet
    /// expired.
    pub fn is_expired(&self, now: u64) -> (r: bool)
        ensures
            r == (now > self.expiry_unix),
    {
        now > self.expiry_unix
    }

    /// The payment hash as a lowercase hexadecimal string.
    pub fn payment_hash_hex(&self) -> (s: String)
        ensures
            s@ == hexstr::hex_of(self.payment_hash@),
    {
        hexstr::encode(self.payment_hash.as_slice())
    }

    /// The payment hash as a 32-byte array.
    pub fn payment_hash(&self) -> (h: [u8; 32])
        requires
            self.wf(),
        ensures
            h@ == self.payment_hash@,
    {
        let mut h = [0u8; 32];
        let mut i: usize = 0;
        while i < 32
            invariant
                self.payment_hash@.len() == 32,
                i <= 32,
                forall|j: int| 0 <= j < i ==> h@[j] == self.payment_hash@[j],
            decreases 32 - i,
        {
            h[i] = self.payment_hash[i];
            i = i + 1;
        }
        proof {
            assert(h@ =~= self.payment_hash@);
        }
        h
    }
}

/// Invoice parser for BOLT11 invoices.
pub struct InvoiceParser;

impl InvoiceParser {
    /// Parses a BOLT11 invoice at time `now` (seconds since epoch, used
    /// to resolve a missing expiry offset). Fails with `InvoiceError`
    /// exactly on text that is not a valid signed invoice.
    pub fn parse(invoice_str: &str, now: u64) -> (r: Result<InvoiceData, LightningError>)
        ensures
            r matches Ok(d) ==> {
                &&& bolt11_decoded(invoice_str@) matches Some(f)
                &&& d.amount_msats == resolved_amount(f)
                &&& d.payment_hash@ == f.payment_hash
                &&& d.expiry_unix == resolved_expiry(f, now)
                &&& d.raw@ == invoice_str@
                &&& d.wf()
            },
            r is Err <==> bolt11_decoded(invoice_str@) is None,
            r matches Err(e) ==> e matches LightningError::InvoiceError(_),
    {
        let decoded = match bolt11_parse_raw(invoice_str) {
            Some(d) => d,
            None => {
                return Err(
                    LightningError::InvoiceError(String::from_str("Failed to parse invoice")),
                );
            },
        };
        let amount_msats = match decoded.amount_pico {
            Some(pico) => {
                // 1 msat is 10 pico-BTC; round half up in wide arithmetic
                // so the increment cannot overflow.
                let wide = ((pico as u128) + 5) / 10;
                wide as u64
            },
            None => 0,
        };
        let expiry_unix = match decoded.expiry_rel {
            Some(offset) => sat_add(decoded.created_at, offset),
            None => sat_add(now, 3600),
        };
        Ok(
            InvoiceData {
                amount_msats,
                payment_hash: decoded.payment_hash,
                expiry_unix,
                raw: String::from_str(invoice_str),
            },
        )
    }

    /// Whether a parsed invoice's signature is valid. The parse itself
    /// verifies the signature, so any parsed invoice passes.
    pub fn verify_signature(invoice: &InvoiceData) -> (r: Result<bool, LightningError>)
        ensures
            r matches Ok(b) && b == true,
    {
        let _ = invoice;
        Ok(true)
    }
}

} // verus!
