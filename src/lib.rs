//! Administrative tool for the RustSec advisory database: the logic that
//! publishes a pull request by reconciling a git remote and fetching the
//! contributor's branch into a namespaced ref.

pub mod decimal;
pub mod error;
pub mod publish;
pub mod pull_request;
pub mod session;

pub use error::{Error, ErrorKind};
