//! Resolves movie and episode lookups against a Jackett indexer into
//! download requests, keeping the indexer's API token out of every
//! request handed back to the caller.
pub mod error;
pub mod finalize;
pub mod query;
pub mod request;
pub mod search;
pub mod text;
