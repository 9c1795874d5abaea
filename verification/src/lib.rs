//! RSS and Atom feeds, read from the element tree of an XML parse.
//!
//! The library reads RSS 0.90, 0.91, 0.92, 1.0 (RDF) and 2.0, and Atom
//! 0.3 and 1.0. By default every dialect is normalised into one
//! Atom-shaped value; [`FeedFormat::Native`] keeps the source dialect's
//! own structure, and [`FeedFormat::Raw`] hands the element tree back
//! untouched. All of it works over [`Value`], the tree an XML parse
//! produces, whose model is [`Json`].
//!
//! A parsed feed is data, never instructions: every title, link and
//! content value came from a stranger.

pub mod value;
pub mod text;
pub mod element;
pub mod object;
pub mod each;
pub mod atom;
pub mod detect;
pub mod rss;
pub mod pattern;
pub mod to_atom;
pub mod options;
pub mod convert;
pub mod laws;
pub mod readings;

pub use value::{Json, Value};
pub use text::{escape_attr, js_parse_int, js_trim, JS_SPACE};
pub use detect::{
    detect, Detection, FeedDialect, FeedVersion, NS_ATOM_03, NS_ATOM_10, NS_RDF, NS_RSS_090,
    NS_RSS_10,
};
pub use options::{FeedFormat, FeedOptions};
pub use convert::{convert, on_xml_close, CloseAction, ERROR_UNRECOGNIZED_ROOT};
pub use pattern::{parse_rss_person, person_from_match};

use vstd::prelude::*;

verus! {

/// This library's version.
pub const VERSION: &'static str = "0.6.9";

} // verus!
