//! Which feed dialect and version an element tree declares.

use vstd::prelude::*;
use crate::value::{text_eq, Json, Value};
use crate::object::{have_str, obj, Obj};
use crate::element::{
    attribute, attribute_of, find_child, find_child_of, is_element, is_element_value, local_name,
    local_name_of, namespace_of, namespace_of_value, or_text,
};

verus! {

/// The Atom 1.0 namespace (RFC 4287).
pub const NS_ATOM_10: &'static str = "http://www.w3.org/2005/Atom";

/// The Atom 0.3 namespace.
pub const NS_ATOM_03: &'static str = "http://purl.org/atom/ns#";

/// The RSS 1.0 namespace.
pub const NS_RSS_10: &'static str = "http://purl.org/rss/1.0/";

/// The RSS 0.90 namespace.
pub const NS_RSS_090: &'static str = "http://my.netscape.com/rdf/simple/0.9/";

/// The RDF namespace, the document element of RSS 0.90 and 1.0.
pub const NS_RDF: &'static str = "http://www.w3.org/1999/02/22-rdf-syntax-ns#";

/// The feed family a document belongs to.
#[derive(Debug, Clone, Copy, PartialEq, Eq, Hash, Structural)]
pub enum FeedDialect {
    /// Atom, either version.
    Atom,
    /// An `<rss>` document: 0.91, 0.92 or 2.0.
    Rss,
    /// An RDF document: RSS 0.90 or 1.0.
    Rdf,
    /// A root element that is not a feed.
    Unknown,
}

/// The exact dialect version a document declares.
#[derive(Debug, Clone, Copy, PartialEq, Eq, Hash, Structural)]
pub enum FeedVersion {
    /// Atom 1.0 (RFC 4287).
    Atom10,
    /// Atom 0.3.
    Atom03,
    /// RSS 2.0, including the 2.0.1 and 2.0.2 spellings.
    Rss20,
    /// RSS 0.92, including the 0.93 and 0.94 spellings.
    Rss092,
    /// RSS 0.91, Userland variant.
    Rss091u,
    /// RSS 0.91, Netscape variant.
    Rss091n,
    /// RSS 1.0 (RDF).
    Rss10,
    /// RSS 0.90 (RDF).
    Rss090,
    /// No version that is recognised.
    Unknown,
}

/// The dialect and the version, together.
#[derive(Debug, Clone, Copy, PartialEq, Eq, Hash, Structural)]
pub struct Detection {
    /// The feed family.
    pub dialect: FeedDialect,
    /// The exact version within that family.
    pub version: FeedVersion,
}

/// The spelling of a dialect in a detection report.
pub open spec fn dialect_name(d: FeedDialect) -> Seq<char> {
    match d {
        FeedDialect::Atom => "atom"@,
        FeedDialect::Rss => "rss"@,
        FeedDialect::Rdf => "rdf"@,
        FeedDialect::Unknown => "unknown"@,
    }
}

/// The spelling of a version in a detection report.
pub open spec fn version_name(v: FeedVersion) -> Seq<char> {
    match v {
        FeedVersion::Atom10 => "atom10"@,
        FeedVersion::Atom03 => "atom03"@,
        FeedVersion::Rss20 => "rss20"@,
        FeedVersion::Rss092 => "rss092"@,
        FeedVersion::Rss091u => "rss091u"@,
        FeedVersion::Rss091n => "rss091n"@,
        FeedVersion::Rss10 => "rss10"@,
        FeedVersion::Rss090 => "rss090"@,
        FeedVersion::Unknown => "unknown"@,
    }
}

impl FeedDialect {
    /// The spelling a detection report carries.
    pub fn as_str(&self) -> (r: &'static str)
        ensures
            r@ == dialect_name(*self),
    {
        match self {
            FeedDialect::Atom => "atom",
            FeedDialect::Rss => "rss",
            FeedDialect::Rdf => "rdf",
            FeedDialect::Unknown => "unknown",
        }
    }
}

impl FeedVersion {
    /// The spelling a detection report carries.
    pub fn as_str(&self) -> (r: &'static str)
        ensures
            r@ == version_name(*self),
    {
        match self {
            FeedVersion::Atom10 => "atom10",
            FeedVersion::Atom03 => "atom03",
            FeedVersion::Rss20 => "rss20",
            FeedVersion::Rss092 => "rss092",
            FeedVersion::Rss091u => "rss091u",
            FeedVersion::Rss091n => "rss091n",
            FeedVersion::Rss10 => "rss10",
            FeedVersion::Rss090 => "rss090",
            FeedVersion::Unknown => "unknown",
        }
    }
}

/// The `{ dialect, version }` object of a detection.
pub open spec fn detection_json(d: Detection) -> Json {
    obj(seq![have_str("dialect"@, dialect_name(d.dialect)), have_str("version"@, version_name(d.version))])
}

impl Detection {
    /// The `{ dialect, version }` object of this detection.
    pub fn to_value(&self) -> (r: Value)
        ensures
            r@ == detection_json(*self),
    {
        let mut o = Obj::new();
        o.put_str("dialect", self.dialect.as_str());
        o.put_str("version", self.version.as_str());
        proof {
            assert(o.plan() =~= seq![
                have_str("dialect"@, dialect_name(self.dialect)),
                have_str("version"@, version_name(self.version)),
            ]);
        }
        o.done()
    }
}

/// The version an `<rss>` root's `version` attribute declares.
pub open spec fn rss_version(declared: Seq<char>) -> FeedVersion {
    if declared == "2.0"@ || declared == "2.0.1"@ || declared == "2.0.2"@ {
        FeedVersion::Rss20
    } else if declared == "0.92"@ || declared == "0.93"@ || declared == "0.94"@ {
        FeedVersion::Rss092
    } else if declared == "0.91"@ {
        FeedVersion::Rss091u
    } else {
        FeedVersion::Rss20
    }
}

/// The dialect table: the root's local name picks the family; the
/// namespace, the `version` attribute or the channel's namespace picks
/// the version. Anything else is unknown.
pub open spec fn spec_detect(root: Json) -> Detection {
    let unknown = Detection { dialect: FeedDialect::Unknown, version: FeedVersion::Unknown };
    if !is_element(root) {
        unknown
    } else if local_name(root) == "feed"@ {
        Detection {
            dialect: FeedDialect::Atom,
            version: if namespace_of(root) == NS_ATOM_03@ {
                FeedVersion::Atom03
            } else {
                FeedVersion::Atom10
            },
        }
    } else if local_name(root) == "rss"@ {
        Detection {
            dialect: FeedDialect::Rss,
            version: rss_version(or_text(attribute(root, "version"@), Seq::empty())),
        }
    } else if local_name(root) == "RDF"@ {
        Detection {
            dialect: FeedDialect::Rdf,
            version: match find_child(root, "channel"@) {
                Some(c) => if namespace_of(c) == NS_RSS_090@ {
                    FeedVersion::Rss090
                } else {
                    FeedVersion::Rss10
                },
                None => FeedVersion::Rss10,
            },
        }
    } else {
        unknown
    }
}

fn rss_version_of(declared: &str) -> (r: FeedVersion)
    ensures
        r == rss_version(declared@),
{
    if text_eq(declared, "2.0") || text_eq(declared, "2.0.1") || text_eq(declared, "2.0.2") {
        FeedVersion::Rss20
    } else if text_eq(declared, "0.92") || text_eq(declared, "0.93") || text_eq(declared, "0.94") {
        FeedVersion::Rss092
    } else if text_eq(declared, "0.91") {
        // Userland and Netscape 0.91 differ only by DOCTYPE; absent that,
        // the Userland one, the dominant one in the wild.
        FeedVersion::Rss091u
    } else {
        FeedVersion::Rss20
    }
}

/// The dialect and version of a parsed element tree. Anything that is
/// not an element, and any root other than `feed`, `rss` or `RDF`, is
/// [`FeedDialect::Unknown`].
pub fn detect(root: &Value) -> (d: Detection)
    ensures
        d == spec_detect(root@),
{
    let unknown = Detection { dialect: FeedDialect::Unknown, version: FeedVersion::Unknown };
    if !is_element_value(root) {
        return unknown;
    }
    let name = local_name_of(root);
    if text_eq(name, "feed") {
        let version = if text_eq(namespace_of_value(root), NS_ATOM_03) {
            FeedVersion::Atom03
        } else {
            FeedVersion::Atom10
        };
        assert(version == spec_detect(root@).version);
        Detection { dialect: FeedDialect::Atom, version }
    } else if text_eq(name, "rss") {
        proof {
            reveal_strlit("");
        }
        let declared = match attribute_of(root, "version") {
            Some(v) => v,
            None => "",
        };
        assert(declared@ == or_text(attribute(root@, "version"@), Seq::empty()));
        let v = rss_version_of(declared);
        assert(v == spec_detect(root@).version);
        let d = Detection { dialect: FeedDialect::Rss, version: v };
        assert(d == spec_detect(root@));
        d
    } else if text_eq(name, "RDF") {
        // The channel's namespace picks RSS 1.0 from RSS 0.90.
        let version = match find_child_of(root, "channel") {
            Some(c) => if text_eq(namespace_of_value(c), NS_RSS_090) {
                FeedVersion::Rss090
            } else {
                FeedVersion::Rss10
            },
            None => FeedVersion::Rss10,
        };
        assert(version == spec_detect(root@).version);
        Detection { dialect: FeedDialect::Rdf, version }
    } else {
        assert(unknown == spec_detect(root@));
        unknown
    }
}

} // verus!
