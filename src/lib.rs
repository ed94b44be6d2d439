//! Client-side protocol and markup extraction for a small hosted-pages site.
//!
//! The library decides everything that can be decided from plain values:
//! which URL and form a request needs, how a response is classified, and which
//! fragment of the returned markup is the page's content. Transport stays with
//! the caller.
pub mod error;
pub mod markup;
pub mod extract;
pub mod page;
pub mod session;

pub use error::Error;
pub use page::Page;
