//! Credential lifecycle and polling logic for a metered-usage status monitor.
//!
//! The monitor keeps a cached usage status fresh by calling a metered-usage
//! API with OAuth credentials from the platform's secret store. This library
//! holds its decisions: what a fetch does when the API rejects the access
//! token, how a refreshed token is merged into the stored record, what the
//! shared state shows after each fetch, and when the scheduler fetches.
//! Reading the store, calling the network and waiting for the timer are left
//! to the caller, who reports back what each brought.

pub mod credentials;
pub mod endpoints;
pub mod error;
pub mod fetch;
pub mod json;
pub mod profiles;
pub mod refresh;
pub mod runs;
pub mod scheduler;
pub mod state;
pub mod store;
pub mod subscription;
