//! A deliberately unreliable gateway in front of a currency-exchange-rate
//! provider.
//!
//! The verified core is the request pipeline: admission control, randomized
//! fault injection, validation of the upstream document's shape, extraction
//! of a single rate or of the currency catalog, and the mapping of every
//! internal failure to an externally observable outcome.

pub mod codes;
pub mod doc;
pub mod errors;
pub mod fault;
pub mod limiter;
pub mod pipeline;
pub mod resolve;
