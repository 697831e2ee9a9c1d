//! Lifecycle manager for a network listener that is started on a worker thread.

pub mod error;
pub mod laws;
pub mod os_error;
pub mod pretty;
pub mod server;

pub use error::Error;
pub use error::ErrorKind;
pub use os_error::OsError;
pub use os_error::OsErrorKind;
pub use server::Failure;
pub use server::Handles;
pub use server::Received;
pub use server::Report;
pub use server::Server;
