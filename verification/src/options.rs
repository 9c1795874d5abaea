//! The plugin options: the output shape, and whether namespaces are
//! enforced; read from and written to an option bag.

use vstd::prelude::*;
use crate::value::{field, get_field, text_eq, Json, Value};
use crate::object::{have, have_str, obj, Obj};

verus! {

/// The output shape of a parse.
#[derive(Debug, Clone, Copy, PartialEq, Eq, Hash, Structural)]
pub enum FeedFormat {
    /// The normalised Atom-shaped object. The default.
    Atom,
    /// The source dialect's own structure, with no cross-dialect mapping.
    Native,
    /// The element tree, untouched.
    Raw,
}

impl Default for FeedFormat {
    fn default() -> (r: Self)
        ensures
            r == FeedFormat::Atom,
    {
        FeedFormat::Atom
    }
}

/// The option-bag spelling of a format.
pub open spec fn format_name(f: FeedFormat) -> Seq<char> {
    match f {
        FeedFormat::Atom => "atom"@,
        FeedFormat::Native => "native"@,
        FeedFormat::Raw => "raw"@,
    }
}

/// The format a name names: `native` and `raw` name theirs, anything
/// else is the default, Atom.
pub open spec fn format_from_name(name: Seq<char>) -> FeedFormat {
    if name == "native"@ {
        FeedFormat::Native
    } else if name == "raw"@ {
        FeedFormat::Raw
    } else {
        FeedFormat::Atom
    }
}

impl FeedFormat {
    /// The option-bag spelling.
    pub fn as_str(&self) -> (r: &'static str)
        ensures
            r@ == format_name(*self),
    {
        match self {
            FeedFormat::Atom => "atom",
            FeedFormat::Native => "native",
            FeedFormat::Raw => "raw",
        }
    }

    /// The format an option-bag string names. Anything but `native` and
    /// `raw` is [`FeedFormat::Atom`]: an unknown name is the default
    /// rather than an error.
    pub fn from_name(name: &str) -> (r: Self)
        ensures
            r == format_from_name(name@),
    {
        if text_eq(name, "native") {
            FeedFormat::Native
        } else if text_eq(name, "raw") {
            FeedFormat::Raw
        } else {
            FeedFormat::Atom
        }
    }
}

/// Plugin options. [`Default`] is the default set: the Atom shape,
/// with namespace well-formedness enforced.
#[derive(Debug, Clone, Copy, PartialEq, Eq, Structural)]
pub struct FeedOptions {
    /// The output shape. Default [`FeedFormat::Atom`].
    pub format: FeedFormat,
    /// Enforce Namespaces in XML 1.0: an element or attribute using an
    /// undeclared prefix is an error. Default true.
    pub strict_namespaces: bool,
}

impl Default for FeedOptions {
    fn default() -> (r: Self)
        ensures
            r == (FeedOptions { format: FeedFormat::Atom, strict_namespaces: true }),
    {
        FeedOptions { format: FeedFormat::Atom, strict_namespaces: true }
    }
}

/// The options an option bag holds: `format` is whatever text is there,
/// anything unrecognised being the default, and `strictNamespaces` is
/// true unless it is exactly `false`. An absent key is the default.
pub open spec fn options_from(bag: Json) -> FeedOptions {
    FeedOptions {
        format: match get_field(bag, "format"@) {
            Some(Json::Str(name)) => format_from_name(name),
            _ => FeedFormat::Atom,
        },
        strict_namespaces: get_field(bag, "strictNamespaces"@) != Some(Json::Bool(false)),
    }
}

/// The option bag of the options, with camel-case keys.
pub open spec fn options_bag(o: FeedOptions) -> Json {
    obj(
        seq![
            have_str("format"@, format_name(o.format)),
            have("strictNamespaces"@, Json::Bool(o.strict_namespaces)),
        ],
    )
}

impl FeedOptions {
    /// Read an option bag.
    pub fn from_value(value: &Value) -> (r: Self)
        ensures
            r == options_from(value@),
    {
        let format = match field(value, "format") {
            Some(f) => match f {
                Value::String(name) => FeedFormat::from_name(name.as_str()),
                _ => FeedFormat::Atom,
            },
            None => FeedFormat::Atom,
        };
        let strict_namespaces = match field(value, "strictNamespaces") {
            Some(s) => match s {
                Value::Bool(b) => *b,
                _ => true,
            },
            None => true,
        };
        FeedOptions { format, strict_namespaces }
    }

    /// The option bag, with camel-case keys.
    pub fn to_value(&self) -> (r: Value)
        ensures
            r@ == options_bag(*self),
    {
        let mut o = Obj::new();
        o.put_str("format", self.format.as_str());
        o.put("strictNamespaces", Value::Bool(self.strict_namespaces));
        proof {
            assert(o.plan() =~= seq![
                have_str("format"@, format_name(self.format)),
                have("strictNamespaces"@, Json::Bool(self.strict_namespaces)),
            ]);
        }
        o.done()
    }
}

} // verus!
