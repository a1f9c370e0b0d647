//! The first form of the development server answers requests with the same
//! rule as `ws::resolve_request`.
pub use super::ws::{resolve_request, ServedFile};
