//! Storage-order tags and status codes shared by every LAPACKE call.
use vstd::prelude::*;

pub mod error;
pub mod layout;

pub use error::Error;
pub use layout::Layout;
