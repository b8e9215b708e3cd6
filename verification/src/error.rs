//! Error types for the Lightning payment module.

use vstd::prelude::*;

verus! {

/// Errors raised while parsing invoices, configuring providers, or
/// verifying payments.
#[derive(Debug, Clone)]
pub enum LightningError {
    /// Failure reported by the host module layer.
    ModuleError(String),
    /// The invoice text could not be parsed.
    InvoiceParseError(String),
    /// The invoice is malformed, expired, or otherwise unusable.
    InvoiceError(String),
    /// The processor rejected the request (empty inputs, missing
    /// configuration, provider failure).
    ProcessorError(String),
    /// A caller demanded a hard failure instead of a soft
    /// `verified = false` result.
    PaymentVerificationFailed(String),
    /// The Lightning node could not be reached.
    NodeConnectionError(String),
    /// Payment routing failed.
    RoutingError(String),
    /// Required configuration is missing or invalid.
    ConfigError(String),
}

impl LightningError {
    /// The human-readable detail carried by this error.
    pub fn message(&self) -> (m: &String)
        ensures
            m == match self {
                LightningError::ModuleError(s) => s,
                LightningError::InvoiceParseError(s) => s,
                LightningError::InvoiceError(s) => s,
                LightningError::ProcessorError(s) => s,
                LightningError::PaymentVerificationFailed(s) => s,
                LightningError::NodeConnectionError(s) => s,
                LightningError::RoutingError(s) => s,
                LightningError::ConfigError(s) => s,
            },
    {
        match self {
            LightningError::ModuleError(s) => s,
            LightningError::InvoiceParseError(s) => s,
            LightningError::InvoiceError(s) => s,
            LightningError::ProcessorError(s) => s,
            LightningError::PaymentVerificationFailed(s) => s,
            LightningError::NodeConnectionError(s) => s,
            LightningError::RoutingError(s) => s,
            LightningError::ConfigError(s) => s,
        }
    }
}

} // verus!
