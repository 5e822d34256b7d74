//! What holds of the contracts as a whole: across several operations, and in
//! every state that a history of requests leads to.
//!
//! The modules whose names end in `_ops` say of each operation by itself when it
//! goes through and what it changes, in plain arithmetic over the fields on
//! record.

pub mod arithmetic;
pub mod credit;
pub mod credit_ops;
pub mod kraal;
pub mod kraal_ops;
pub mod market;
pub mod market_ops;
pub mod oracle;
pub mod oracle_ops;
pub mod registry;
pub mod registry_ops;
pub mod system;
