//! Host capabilities for offchain workers: saturating time values, HTTP
//! request handles and statuses, and the interface through which a worker
//! reaches its host.

pub mod externalities;
pub mod mock;
pub mod status;
pub mod time;

pub use externalities::Externalities;
pub use status::{HttpRequestId, HttpRequestStatus};
pub use time::{Duration, Timestamp};
