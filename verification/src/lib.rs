//! CouchDB support for an `r2d2`-style connection pool: a connection
//! manager that produces, validates, and condemns sessions against one
//! validated server address, and a unified error type wrapping the
//! underlying client library's failures.
mod error;
mod manager;

pub use error::Error;
pub use error::ErrorDetail;
pub use error::lemma_display_without_cause;
pub use error::parse_error_msg;
pub use manager::Connection;
pub use manager::CouchdbConnectionManager;
pub use manager::url_parse_ok;
