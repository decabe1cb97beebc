//! Normalization of web feeds into one in-memory model, and the digest that
//! is made of them.
//!
//! A feed document arrives in the shape of its dialect ([`xml::atom`],
//! [`xml::rss`]), is converted entry by entry into [`blog::Post`]s, and
//! becomes a [`blog::Blog`] when at least one entry survives. An entry that
//! fails is dropped; a document without a surviving entry fails as a whole.
//!
//! The library reads no file, no clock and no network: documents, the text
//! of the list of feeds and the present moment are handed to it.

pub mod blog;
pub mod html;
pub mod instant;
pub mod listing;
pub mod util;
pub mod xml;
