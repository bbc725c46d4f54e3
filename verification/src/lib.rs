//! A verified REST query client for a blockchain node's monitoring endpoints.
//!
//! The client builds request URLs of the form `{base}/v0/{path}`, and decodes
//! the JSON bodies that the node returns for its reward-history and
//! stake-distribution endpoints into typed values.  Issuing the HTTP request
//! itself is left to the caller; the library states and proves exactly which
//! URL each operation asks for and how each transport outcome is classified.

pub mod client;
pub mod digits;
pub mod error;
pub mod json;
pub mod rewards;
pub mod stake;

pub use client::ClientConfig;
pub use client::JormungandrRest;
pub use error::RestError;
pub use rewards::EpochRewardsInfo;
pub use stake::StakeDistributionInfo;
