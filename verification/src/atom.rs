//! Atom 1.0 and 0.3, read into their own shape.

use vstd::prelude::*;
use crate::value::{opt_model, text_eq, Json, Value};
use crate::text::spec_js_parse_int;
use crate::text::js_parse_int;
use crate::object::{have, have_str, listed, maybe, maybe_str, obj, Obj};
use crate::element::{
    attribute, attribute_of, attribute_truthy, attribute_truthy_of, child_text, child_text_of,
    find_child, find_child_of, find_children, inner_xml, inner_xml_of, or_text, text_of,
    text_of_value, text_or_none, text_or_none_of,
};
use crate::each::{map_parts, map_records, spec_part, spec_record, Part, Record};

verus! {

/// An Atom text construct: its type and its value.
pub open spec fn spec_atom_text(kind: Seq<char>, value: Seq<char>) -> Json {
    obj(seq![have_str("type"@, kind), have_str("value"@, value)])
}

/// A person: name, and uri (or url) and email where they have text.
pub open spec fn spec_parse_person(e: Json) -> Json {
    let uri = match text_or_none(find_child(e, "uri"@)) {
        Some(u) => Some(u),
        None => text_or_none(find_child(e, "url"@)),
    };
    obj(
        seq![
            have_str("name"@, text_of(find_child(e, "name"@))),
            maybe_str("uri"@, uri),
            maybe_str("email"@, text_or_none(find_child(e, "email"@))),
        ],
    )
}

/// A number field read with `parseInt`, there when the text is.
pub open spec fn maybe_int(key: Seq<char>, o: Option<Seq<char>>) -> Option<(Seq<char>, Json)> {
    match o {
        Some(s) => Some((key, Json::Number(spec_js_parse_int(s)))),
        None => None,
    }
}

/// A link: its href always, the other attributes where they are not empty.
pub open spec fn spec_parse_link(e: Json) -> Json {
    obj(
        seq![
            have_str("href"@, or_text(attribute(e, "href"@), Seq::empty())),
            maybe_str("rel"@, attribute_truthy(e, "rel"@)),
            maybe_str("type"@, attribute_truthy(e, "type"@)),
            maybe_str("hreflang"@, attribute_truthy(e, "hreflang"@)),
            maybe_str("title"@, attribute_truthy(e, "title"@)),
            maybe_int("length"@, attribute_truthy(e, "length"@)),
        ],
    )
}

/// A category: the term attribute, else the text; scheme and label
/// wherever the attribute is there, empty or not.
pub open spec fn spec_parse_category(e: Json) -> Json {
    let term = match attribute_truthy(e, "term"@) {
        Some(t) => t,
        None => text_of(Some(e)),
    };
    obj(
        seq![
            have_str("term"@, term),
            maybe_str("scheme"@, attribute(e, "scheme"@)),
            maybe_str("label"@, attribute(e, "label"@)),
        ],
    )
}

/// The type of a text construct: its `type` attribute, else `text`.
pub open spec fn text_kind(e: Json) -> Seq<char> {
    or_text(attribute_truthy(e, "type"@), "text"@)
}

/// The body of an xhtml construct: its `div`, else itself.
pub open spec fn xhtml_body(e: Json) -> Json {
    match find_child(e, "div"@) {
        Some(d) => d,
        None => e,
    }
}

/// A text construct: xhtml keeps the markup of its body, every other
/// type keeps the text.
pub open spec fn spec_parse_text(e: Json) -> Json {
    let kind = text_kind(e);
    if kind == "xhtml"@ {
        spec_atom_text(kind, inner_xml(Some(xhtml_body(e))))
    } else {
        spec_atom_text(kind, text_of(Some(e)))
    }
}

/// A content element: as a text construct, with its `src`.
pub open spec fn spec_parse_content(e: Json) -> Json {
    let kind = text_kind(e);
    obj(
        seq![
            have_str("type"@, kind),
            maybe_str("src"@, attribute_truthy(e, "src"@)),
            have_str(
                "value"@,
                if kind == "xhtml"@ {
                    inner_xml(Some(xhtml_body(e)))
                } else {
                    text_of(Some(e))
                },
            ),
        ],
    )
}

/// A generator: uri and version wherever the attribute is there.
pub open spec fn spec_parse_generator(e: Json) -> Json {
    obj(
        seq![
            maybe_str("uri"@, attribute(e, "uri"@)),
            maybe_str("version"@, attribute(e, "version"@)),
            have_str("value"@, text_of(Some(e))),
        ],
    )
}

/// A text field from a child that may be absent.
pub open spec fn text_child(key: Seq<char>, o: Option<Json>) -> Option<(Seq<char>, Json)> {
    maybe_str(key, child_text(o))
}

/// A text construct field from a child that may be absent.
pub open spec fn construct_child(key: Seq<char>, o: Option<Json>) -> Option<(Seq<char>, Json)> {
    match o {
        Some(c) => Some((key, spec_parse_text(c))),
        None => None,
    }
}

/// The name Atom 0.3 or Atom 1.0 gives an element.
pub open spec fn by_version(atom03: bool, old_name: Seq<char>, new_name: Seq<char>) -> Seq<char> {
    if atom03 {
        old_name
    } else {
        new_name
    }
}

/// An entry, in either version: 0.3 says `modified`, `issued`,
/// `copyright` and `tagline` where 1.0 says `updated`, `published`,
/// `rights` and `summary`.
pub open spec fn spec_parse_atom_entry(e: Json, atom03: bool) -> Json {
    obj(
        seq![
            text_child("id"@, find_child(e, "id"@)),
            construct_child("title"@, find_child(e, "title"@)),
            text_child("updated"@, find_child(e, by_version(atom03, "modified"@, "updated"@))),
            text_child("published"@, find_child(e, by_version(atom03, "issued"@, "published"@))),
            listed("authors"@, find_children(e, "author"@).map_values(|c| spec_parse_person(c))),
            listed(
                "contributors"@,
                find_children(e, "contributor"@).map_values(|c| spec_parse_person(c)),
            ),
            listed(
                "categories"@,
                find_children(e, "category"@).map_values(|c| spec_parse_category(c)),
            ),
            listed("links"@, find_children(e, "link"@).map_values(|c| spec_parse_link(c))),
            maybe(
                "content"@,
                match find_child(e, "content"@) {
                    Some(c) => Some(spec_parse_content(c)),
                    None => None,
                },
            ),
            construct_child("rights"@, find_child(e, by_version(atom03, "copyright"@, "rights"@))),
            construct_child("summary"@, find_child(e, by_version(atom03, "tagline"@, "summary"@))),
        ],
    )
}

/// The fields of an Atom feed up to its links.
pub open spec fn atom_head(root: Json, atom03: bool) -> Seq<Option<(Seq<char>, Json)>> {
    seq![
        have_str("format"@, "atom"@),
        have_str("version"@, by_version(atom03, "0.3"@, "1.0"@)),
        have(
            "entries"@,
            Json::Array(
                find_children(root, "entry"@).map_values(|c| spec_parse_atom_entry(c, atom03)),
            ),
        ),
        text_child("id"@, find_child(root, "id"@)),
        construct_child("title"@, find_child(root, "title"@)),
        text_child("updated"@, find_child(root, by_version(atom03, "modified"@, "updated"@))),
        listed("authors"@, find_children(root, "author"@).map_values(|c| spec_parse_person(c))),
        listed(
            "contributors"@,
            find_children(root, "contributor"@).map_values(|c| spec_parse_person(c)),
        ),
        listed(
            "categories"@,
            find_children(root, "category"@).map_values(|c| spec_parse_category(c)),
        ),
        listed("links"@, find_children(root, "link"@).map_values(|c| spec_parse_link(c))),
    ]
}

/// The remaining fields of an Atom feed.
pub open spec fn atom_tail(root: Json, atom03: bool) -> Seq<Option<(Seq<char>, Json)>> {
    seq![
        maybe(
            "generator"@,
            match find_child(root, "generator"@) {
                Some(c) => Some(spec_parse_generator(c)),
                None => None,
            },
        ),
        text_child("icon"@, find_child(root, "icon"@)),
        text_child("logo"@, find_child(root, "logo"@)),
        construct_child("rights"@, find_child(root, by_version(atom03, "copyright"@, "rights"@))),
        construct_child("subtitle"@, find_child(root, by_version(atom03, "tagline"@, "subtitle"@))),
    ]
}

/// An Atom feed in its own shape.
pub open spec fn spec_parse_atom(root: Json, atom03: bool) -> Json {
    obj(atom_head(root, atom03) + atom_tail(root, atom03))
}

// --- Exec ------------------------------------------------------------------

fn atom_text(kind: &str, value: String) -> (r: Value)
    ensures
        r@ == spec_atom_text(kind@, value@),
{
    let mut o = Obj::new();
    o.put_str("type", kind);
    o.put_text("value", value);
    proof {
        assert(o.plan() =~= seq![have_str("type"@, kind@), have_str("value"@, value@)]);
    }
    o.done()
}

/// A person element.
pub fn parse_person(e: &Value) -> (r: Value)
    ensures
        r@ == spec_parse_person(e@),
{
    let uri = match text_or_none_of(find_child_of(e, "uri")) {
        Some(u) => Some(u),
        None => text_or_none_of(find_child_of(e, "url")),
    };
    let mut o = Obj::new();
    o.put_text("name", text_of_value(find_child_of(e, "name")));
    o.maybe_text("uri", uri);
    o.maybe_text("email", text_or_none_of(find_child_of(e, "email")));
    let ghost want = seq![
        have_str("name"@, text_of(find_child(e@, "name"@))),
        maybe_str("uri"@, crate::object::opt_string(uri)),
        maybe_str("email"@, text_or_none(find_child(e@, "email"@))),
    ];
    proof {
        assert(o.plan() =~= want);
    }
    o.done()
}

/// A link element.
pub fn parse_link(e: &Value) -> (r: Value)
    ensures
        r@ == spec_parse_link(e@),
{
    proof {
        reveal_strlit("");
    }
    let mut o = Obj::new();
    let href = match attribute_of(e, "href") {
        Some(h) => h,
        None => "",
    };
    assert(href@ == or_text(attribute(e@, "href"@), Seq::empty()));
    o.put_str("href", href);
    o.maybe_str("rel", attribute_truthy_of(e, "rel"));
    o.maybe_str("type", attribute_truthy_of(e, "type"));
    o.maybe_str("hreflang", attribute_truthy_of(e, "hreflang"));
    o.maybe_str("title", attribute_truthy_of(e, "title"));
    let length = match attribute_truthy_of(e, "length") {
        Some(l) => Some(Value::Number(js_parse_int(l))),
        None => None,
    };
    o.maybe("length", length);
    proof {
        assert(o.plan() =~= seq![
            have_str("href"@, or_text(attribute(e@, "href"@), Seq::empty())),
            maybe_str("rel"@, attribute_truthy(e@, "rel"@)),
            maybe_str("type"@, attribute_truthy(e@, "type"@)),
            maybe_str("hreflang"@, attribute_truthy(e@, "hreflang"@)),
            maybe_str("title"@, attribute_truthy(e@, "title"@)),
            maybe_int("length"@, attribute_truthy(e@, "length"@)),
        ]);
    }
    o.done()
}

/// A category element.
pub fn parse_category(e: &Value) -> (r: Value)
    ensures
        r@ == spec_parse_category(e@),
{
    let term = match attribute_truthy_of(e, "term") {
        Some(t) => crate::value::text(t),
        None => text_of_value(Some(e)),
    };
    let mut o = Obj::new();
    o.put_text("term", term);
    o.maybe_str("scheme", attribute_of(e, "scheme"));
    o.maybe_str("label", attribute_of(e, "label"));
    proof {
        assert(o.plan() =~= seq![
            have_str("term"@, term@),
            maybe_str("scheme"@, attribute(e@, "scheme"@)),
            maybe_str("label"@, attribute(e@, "label"@)),
        ]);
    }
    o.done()
}

fn kind_of(e: &Value) -> (r: &str)
    ensures
        r@ == text_kind(e@),
{
    match attribute_truthy_of(e, "type") {
        Some(k) => k,
        None => "text",
    }
}

fn body_of(e: &Value) -> (r: &Value)
    ensures
        r@ == xhtml_body(e@),
{
    match find_child_of(e, "div") {
        Some(d) => d,
        None => e,
    }
}

/// A text construct element.
pub fn parse_text(e: &Value) -> (r: Value)
    ensures
        r@ == spec_parse_text(e@),
{
    let kind = kind_of(e);
    if text_eq(kind, "xhtml") {
        atom_text(kind, inner_xml_of(Some(body_of(e))))
    } else {
        atom_text(kind, text_of_value(Some(e)))
    }
}

/// A content element.
pub fn parse_content(e: &Value) -> (r: Value)
    ensures
        r@ == spec_parse_content(e@),
{
    let kind = kind_of(e);
    let mut o = Obj::new();
    o.put_str("type", kind);
    o.maybe_str("src", attribute_truthy_of(e, "src"));
    let value = if text_eq(kind, "xhtml") {
        inner_xml_of(Some(body_of(e)))
    } else {
        text_of_value(Some(e))
    };
    o.put_text("value", value);
    proof {
        assert(o.plan() =~= seq![
            have_str("type"@, text_kind(e@)),
            maybe_str("src"@, attribute_truthy(e@, "src"@)),
            have_str("value"@, value@),
        ]);
    }
    o.done()
}

/// A generator element.
pub fn parse_generator(e: &Value) -> (r: Value)
    ensures
        r@ == spec_parse_generator(e@),
{
    let mut o = Obj::new();
    o.maybe_str("uri", attribute_of(e, "uri"));
    o.maybe_str("version", attribute_of(e, "version"));
    o.put_text("value", text_of_value(Some(e)));
    proof {
        assert(o.plan() =~= seq![
            maybe_str("uri"@, attribute(e@, "uri"@)),
            maybe_str("version"@, attribute(e@, "version"@)),
            have_str("value"@, text_of(Some(e@))),
        ]);
    }
    o.done()
}

fn construct_of(o: Option<&Value>) -> (r: Option<Value>)
    ensures
        crate::object::opt_value(r) == match opt_model(o) {
            Some(c) => Some(spec_parse_text(c)),
            None => None,
        },
{
    match o {
        Some(c) => Some(parse_text(c)),
        None => None,
    }
}

fn versioned(atom03: bool, old_name: &'static str, new_name: &'static str) -> (r: &'static str)
    ensures
        r@ == by_version(atom03, old_name@, new_name@),
{
    if atom03 {
        old_name
    } else {
        new_name
    }
}

/// An entry element, in either version.
pub fn parse_atom_entry(e: &Value, atom03: bool) -> (r: Value)
    ensures
        r@ == spec_parse_atom_entry(e@, atom03),
{
    let mut o = Obj::new();
    o.maybe_text("id", child_text_of(find_child_of(e, "id")));
    o.maybe("title", construct_of(find_child_of(e, "title")));
    o.maybe_text("updated", child_text_of(find_child_of(e, versioned(atom03, "modified", "updated"))));
    o.maybe_text("published", child_text_of(find_child_of(e, versioned(atom03, "issued", "published"))));
    let authors = map_parts(e, "author", Part::Person);
    o.list("authors", authors);
    let contributors = map_parts(e, "contributor", Part::Person);
    o.list("contributors", contributors);
    let categories = map_parts(e, "category", Part::Category);
    o.list("categories", categories);
    let links = map_parts(e, "link", Part::Link);
    o.list("links", links);
    let content = match find_child_of(e, "content") {
        Some(c) => Some(parse_content(c)),
        None => None,
    };
    o.maybe("content", content);
    o.maybe("rights", construct_of(find_child_of(e, versioned(atom03, "copyright", "rights"))));
    o.maybe("summary", construct_of(find_child_of(e, versioned(atom03, "tagline", "summary"))));
    proof {
        let j = e@;
        assert(find_children(j, "author"@).map_values(|c| spec_part(Part::Person, c))
            =~= find_children(j, "author"@).map_values(|c| spec_parse_person(c)));
        assert(find_children(j, "contributor"@).map_values(|c| spec_part(Part::Person, c))
            =~= find_children(j, "contributor"@).map_values(|c| spec_parse_person(c)));
        assert(find_children(j, "category"@).map_values(|c| spec_part(Part::Category, c))
            =~= find_children(j, "category"@).map_values(|c| spec_parse_category(c)));
        assert(find_children(j, "link"@).map_values(|c| spec_part(Part::Link, c))
            =~= find_children(j, "link"@).map_values(|c| spec_parse_link(c)));
        assert(o.plan() =~= seq![
            text_child("id"@, find_child(j, "id"@)),
            construct_child("title"@, find_child(j, "title"@)),
            text_child("updated"@, find_child(j, by_version(atom03, "modified"@, "updated"@))),
            text_child("published"@, find_child(j, by_version(atom03, "issued"@, "published"@))),
            listed("authors"@, find_children(j, "author"@).map_values(|c| spec_parse_person(c))),
            listed(
                "contributors"@,
                find_children(j, "contributor"@).map_values(|c| spec_parse_person(c)),
            ),
            listed(
                "categories"@,
                find_children(j, "category"@).map_values(|c| spec_parse_category(c)),
            ),
            listed("links"@, find_children(j, "link"@).map_values(|c| spec_parse_link(c))),
            maybe(
                "content"@,
                match find_child(j, "content"@) {
                    Some(c) => Some(spec_parse_content(c)),
                    None => None,
                },
            ),
            construct_child("rights"@, find_child(j, by_version(atom03, "copyright"@, "rights"@))),
            construct_child("summary"@, find_child(j, by_version(atom03, "tagline"@, "summary"@))),
        ]);
    }
    o.done()
}

fn atom_head_of(root: &Value, atom03: bool) -> (o: Obj)
    ensures
        o.wf(),
        o.plan() == atom_head(root@, atom03),
{
    let mut o = Obj::new();
    o.put_str("format", "atom");
    o.put_str("version", versioned(atom03, "0.3", "1.0"));
    o.put("entries", Value::Array(map_records(root, "entry", Record::AtomEntry(atom03))));
    o.maybe_text("id", child_text_of(find_child_of(root, "id")));
    o.maybe("title", construct_of(find_child_of(root, "title")));
    o.maybe_text("updated", child_text_of(find_child_of(root, versioned(atom03, "modified", "updated"))));
    o.list("authors", map_parts(root, "author", Part::Person));
    o.list("contributors", map_parts(root, "contributor", Part::Person));
    o.list("categories", map_parts(root, "category", Part::Category));
    o.list("links", map_parts(root, "link", Part::Link));
    proof {
        let j = root@;
        assert(find_children(j, "entry"@).map_values(|c| spec_record(Record::AtomEntry(atom03), c))
            =~= find_children(j, "entry"@).map_values(|c| spec_parse_atom_entry(c, atom03)));
        assert(find_children(j, "author"@).map_values(|c| spec_part(Part::Person, c))
            =~= find_children(j, "author"@).map_values(|c| spec_parse_person(c)));
        assert(find_children(j, "contributor"@).map_values(|c| spec_part(Part::Person, c))
            =~= find_children(j, "contributor"@).map_values(|c| spec_parse_person(c)));
        assert(find_children(j, "category"@).map_values(|c| spec_part(Part::Category, c))
            =~= find_children(j, "category"@).map_values(|c| spec_parse_category(c)));
        assert(find_children(j, "link"@).map_values(|c| spec_part(Part::Link, c))
            =~= find_children(j, "link"@).map_values(|c| spec_parse_link(c)));
        assert(o.plan() =~= atom_head(j, atom03));
    }
    o
}

/// An Atom root element, of Atom 0.3 or 1.0.
pub fn parse_atom(root: &Value, atom03: bool) -> (r: Value)
    ensures
        r@ == spec_parse_atom(root@, atom03),
{
    let mut o = atom_head_of(root, atom03);
    let ghost head = o.plan();
    let generator = match find_child_of(root, "generator") {
        Some(c) => Some(parse_generator(c)),
        None => None,
    };
    o.maybe("generator", generator);
    o.maybe_text("icon", child_text_of(find_child_of(root, "icon")));
    o.maybe_text("logo", child_text_of(find_child_of(root, "logo")));
    o.maybe("rights", construct_of(find_child_of(root, versioned(atom03, "copyright", "rights"))));
    o.maybe("subtitle", construct_of(find_child_of(root, versioned(atom03, "tagline", "subtitle"))));
    proof {
        assert(o.plan() =~= head + atom_tail(root@, atom03));
    }
    o.done()
}

} // verus!
