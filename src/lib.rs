//! Credit-usage reporting for a search-API account.
//!
//! The upstream account endpoint reports only a remaining `balance`; this
//! crate infers the plan tier and credit limit from it, normalises the
//! response into a single record, and keeps the three failure tiers apart:
//! transport failures, unparseable bodies, and non-success HTTP statuses.
pub mod decimal;
pub mod plan;
pub mod usage;
