//! Estimating the offset between the local clock and a remote reference
//! clock from the timestamps of a single request/response exchange.
//!
//! The estimator itself is a pure function over a small timestamp tuple;
//! reading the local clock and talking to the remote authority are left to
//! thin wrappers and to the surrounding program.

pub mod address;
pub mod clock;
pub mod digits;
pub mod errors;
pub mod estimator;
pub mod response;
pub mod rounding;
pub mod verdict;

pub use clock::get_unix_times;
pub use response::Response;
pub use response::ResponseWithDifference;
pub use response::ResultDefault;
pub use response::ResultWithDifference;
pub use response::Status;
pub use rounding::round_to_nearest;
