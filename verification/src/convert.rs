//! The pipeline: a parsed element tree to the requested output shape;
//! and what the XML rule's close does with it.

use vstd::prelude::*;
use crate::value::{text, Json, Value};
use crate::element::{is_element, is_element_value, local_name, local_name_of};
use crate::detect::{detect, spec_detect, Detection, FeedDialect, FeedVersion};
use crate::options::FeedFormat;
use crate::atom::{parse_atom, spec_parse_atom};
use crate::rss::{parse_rss1, parse_rss2, spec_parse_rss1, spec_parse_rss2};
use crate::to_atom::{rss1_to_atom, rss2_to_atom, spec_rss1_to_atom, spec_rss2_to_atom};

verus! {

/// The code carried by the one refusal this layer raises itself; the
/// message is the contract, the code exists because the engine's error
/// channel requires one.
pub const ERROR_UNRECOGNIZED_ROOT: &'static str = "feed_unrecognized_root";

/// The refusal of a value that is not an element.
pub open spec fn not_element_message() -> Seq<char> {
    "feed: input did not parse to an XML element"@
}

/// The refusal of a root element that is not a feed.
pub open spec fn unrecognized_message(name: Seq<char>) -> Seq<char> {
    "feed: unrecognized root element \""@ + name + "\"; expected one of feed, rss, RDF"@
}

/// A detected feed in its own shape.
pub open spec fn spec_native(root: Json, d: Detection) -> Json {
    match d.dialect {
        FeedDialect::Atom => spec_parse_atom(root, d.version == FeedVersion::Atom03),
        FeedDialect::Rss => spec_parse_rss2(root, d.version),
        _ => spec_parse_rss1(root, d.version),
    }
}

/// A native feed mapped onto the Atom shape.
pub open spec fn spec_to_atom(native: Json, dialect: FeedDialect) -> Json {
    match dialect {
        FeedDialect::Atom => native,
        FeedDialect::Rss => spec_rss2_to_atom(native),
        _ => spec_rss1_to_atom(native),
    }
}

/// A parsed element tree in the requested shape: the tree itself for
/// raw; otherwise the detected feed in its own shape, mapped onto the
/// Atom shape unless native was asked for. A value that is not an
/// element, or a root that is not `feed`, `rss` or `RDF`, is refused.
pub open spec fn spec_convert(root: Json, format: FeedFormat) -> Result<Json, Seq<char>> {
    if format == FeedFormat::Raw {
        Ok(root)
    } else if !is_element(root) {
        Err(not_element_message())
    } else {
        let d = spec_detect(root);
        if d.dialect == FeedDialect::Unknown {
            Err(unrecognized_message(local_name(root)))
        } else if format == FeedFormat::Native {
            Ok(spec_native(root, d))
        } else {
            Ok(spec_to_atom(spec_native(root, d), d.dialect))
        }
    }
}

pub open spec fn result_model(r: Result<Value, String>) -> Result<Json, Seq<char>> {
    match r {
        Ok(v) => Ok(v@),
        Err(e) => Err(e@),
    }
}

/// Convert a parsed element tree to the requested output shape.
pub fn convert(root: &Value, format: FeedFormat) -> (r: Result<Value, String>)
    ensures
        result_model(r) == spec_convert(root@, format),
{
    if format == FeedFormat::Raw {
        return Ok(root.clone());
    }
    if !is_element_value(root) {
        return Err(text("feed: input did not parse to an XML element"));
    }
    let d = detect(root);
    if d.dialect == FeedDialect::Unknown {
        let mut message = text("feed: unrecognized root element \"");
        message.append(local_name_of(root));
        message.append("\"; expected one of feed, rss, RDF");
        return Err(message);
    }
    // Native first, whatever the requested shape.
    let native = match d.dialect {
        FeedDialect::Atom => parse_atom(root, d.version == FeedVersion::Atom03),
        FeedDialect::Rss => parse_rss2(root, d.version),
        _ => parse_rss1(root, d.version),
    };
    if format == FeedFormat::Native {
        return Ok(native);
    }
    Ok(
        match d.dialect {
            FeedDialect::Atom => native,
            FeedDialect::Rss => rss2_to_atom(&native),
            _ => rss1_to_atom(&native),
        },
    )
}

/// What the XML rule's close does to its node.
pub enum CloseAction {
    /// The node stays as it is.
    Keep,
    /// The node becomes this value.
    Replace(Value),
    /// The parse is refused with this message.
    Refuse(String),
}

/// What the XML rule's close does with its node: nothing unless an
/// element was parsed in this iteration and the node is still an
/// element; then the conversion's result, which for raw is the node
/// itself; a refusal where the conversion refuses.
pub open spec fn close_ok(parsed_here: bool, node: Json, format: FeedFormat, action: CloseAction) -> bool {
    if !parsed_here || !is_element(node) {
        action is Keep
    } else {
        match spec_convert(node, format) {
            Ok(v) => if format == FeedFormat::Raw {
                action is Keep && v == node
            } else {
                action matches CloseAction::Replace(x) && x@ == v
            },
            Err(m) => action matches CloseAction::Refuse(e) && e@ == m,
        }
    }
}

/// The decision of the XML rule's close. It fires once per close,
/// including the extra times the rule recurses over trailing white
/// space; the conversion runs only when an element was parsed in this
/// iteration, and only while the node is still an element.
pub fn on_xml_close(parsed_here: bool, node: &Value, format: FeedFormat) -> (r: CloseAction)
    ensures
        close_ok(parsed_here, node@, format, r),
{
    if !parsed_here || !is_element_value(node) {
        return CloseAction::Keep;
    }
    if format == FeedFormat::Raw {
        return CloseAction::Keep;
    }
    match convert(node, format) {
        Ok(value) => CloseAction::Replace(value),
        Err(message) => CloseAction::Refuse(message),
    }
}

} // verus!
