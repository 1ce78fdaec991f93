//! Cover browsing for e-book readers: which books a directory offers, how
//! the cover of an EPUB or PDF book is found, and the state of the viewer
//! that cycles through the books.

pub mod cover;
pub mod epub;
pub mod error;
pub mod orientation;
pub mod pdf;
pub mod paths;
pub mod picture;
pub mod state;
pub mod text;
pub mod xml;
