//! Lightning Network payment verification engine.
//!
//! Parses BOLT11 invoices, verifies payments behind a uniform provider
//! abstraction (custodial REST wallet, native channel node, or a
//! deterministic stub), and drives verification from batched payment
//! events.

pub mod error;
pub mod hexstr;
pub mod intake;
pub mod invoice;
pub mod keys;
pub mod processor;
pub mod provider;
pub mod strutil;

pub use error::LightningError;
pub use provider::{
    create_provider, ldk, lnbits, stub, LightningProvider, PaymentVerificationResult, ProviderType,
};
