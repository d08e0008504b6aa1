//! AWS credentials and HTTP client support for object stores, built on the AWS SDK.
//!
//! The crate keeps the decisions of the credentials source (when cached
//! credentials are still good, what a failed provider call turns into, how
//! connection timeouts are read from client options) in verified code, and
//! reaches the AWS SDK crates through small trusted wrappers.

pub mod credentials;
pub mod decimal;
pub mod error;
pub mod http;
pub mod init;
pub mod time;
