//! Verified state machines for a carbon-credit market and a livestock-backed
//! lending pool.
//!
//! Each contract is a plain value: its configuration and its tables. An
//! operation takes the context of the invocation and, where it depends on
//! another contract, that contract's answer. It returns a result or the reason
//! for a refusal, and a refused request changes nothing.
//!
//! - [`carbon_registry`], [`carbon_credit`] and [`carbon_marketplace`] are the
//!   market: projects, the ledger of credits, and the sale of credits.
//! - [`carbon_oracle`] keeps prices that come with a signature.
//! - [`stellarkraal`] is the lending pool.
//! - [`laws`] states and proves what holds across operations.
//! - [`replay`] runs lists of requests against the ledger of credits.
//! - [`host`], [`table`], [`numeric`], [`encoding`] and [`crypto`] are what the
//!   contracts build on.

pub mod carbon_credit;
pub mod carbon_marketplace;
pub mod carbon_oracle;
pub mod carbon_registry;
pub mod crypto;
pub mod encoding;
pub mod host;
pub mod laws;
pub mod numeric;
pub mod replay;
pub mod stellarkraal;
pub mod table;
