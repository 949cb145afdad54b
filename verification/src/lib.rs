//! Uniform sampling of one item from a large, paginated remote catalog.
//!
//! The catalog is never retrieved as a whole. A sampler asks for its size,
//! draws an index below that size, resolves the index to the locator of one
//! item and fetches that item. The network round-trips themselves are left to
//! the caller: this library decides what is asked next and what each reply
//! means.

pub mod error;
pub mod model;
pub mod request;
pub mod sampler;
pub mod text;
