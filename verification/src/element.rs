//! Reading the element tree that an XML parse produces: an element is an
//! object carrying a `localName` and a `children` array, whose items are
//! texts and nested elements.

use vstd::prelude::*;
use crate::value::{
    field, get_field, lemma_lookup_below, lemma_model_fields, lemma_model_items, lookup,
    lookup_pairs, model, model_fields, model_items, opt_model, text, text_eq, Json, Value,
};
use crate::object::{opt_string, opt_text};
use crate::text::{escape_attr, js_trim, spec_escape_attr, spec_js_trim};

verus! {

/// The element test: an object carrying both a `localName` and a
/// `children`.
pub open spec fn is_element(j: Json) -> bool {
    &&& j is Object
    &&& get_field(j, "localName"@) is Some
    &&& get_field(j, "children"@) is Some
}

/// A string field, or the empty text.
pub open spec fn string_field(j: Json, key: Seq<char>) -> Seq<char> {
    match get_field(j, key) {
        Some(Json::Str(s)) => s,
        _ => Seq::empty(),
    }
}

/// The local name; the qualified `name` where no local name was written.
pub open spec fn local_name(j: Json) -> Seq<char> {
    let local = string_field(j, "localName"@);
    if local.len() == 0 {
        string_field(j, "name"@)
    } else {
        local
    }
}

/// The resolved namespace, or the empty text.
pub open spec fn namespace_of(j: Json) -> Seq<char> {
    string_field(j, "namespace"@)
}

/// An attribute's value, when the attribute is there.
pub open spec fn attribute(j: Json, name: Seq<char>) -> Option<Seq<char>> {
    match get_field(j, "attributes"@) {
        Some(attributes) => match attributes {
            Json::Object(_) => match get_field(attributes, name) {
                Some(Json::Str(s)) => Some(s),
                _ => None,
            },
            _ => None,
        },
        None => None,
    }
}

/// An attribute that is there and not empty.
pub open spec fn attribute_truthy(j: Json, name: Seq<char>) -> Option<Seq<char>> {
    match attribute(j, name) {
        Some(s) => if s.len() > 0 {
            Some(s)
        } else {
            None
        },
        None => None,
    }
}

/// The children, or none.
pub open spec fn children(j: Json) -> Seq<Json> {
    match get_field(j, "children"@) {
        Some(Json::Array(items)) => items,
        _ => Seq::empty(),
    }
}

/// An element with this local name.
pub open spec fn is_named(c: Json, name: Seq<char>) -> bool {
    is_element(c) && local_name(c) == name
}

/// The first item that is an element with this local name.
pub open spec fn first_named(items: Seq<Json>, name: Seq<char>) -> Option<Json>
    decreases items.len(),
{
    if items.len() == 0 {
        None
    } else if is_named(items[0], name) {
        Some(items[0])
    } else {
        first_named(items.drop_first(), name)
    }
}

/// Every item that is an element with this local name, in order.
pub open spec fn all_named(items: Seq<Json>, name: Seq<char>) -> Seq<Json>
    decreases items.len(),
{
    if items.len() == 0 {
        Seq::empty()
    } else if is_named(items.last(), name) {
        all_named(items.drop_last(), name).push(items.last())
    } else {
        all_named(items.drop_last(), name)
    }
}

/// The first child element with this local name.
pub open spec fn find_child(j: Json, name: Seq<char>) -> Option<Json> {
    first_named(children(j), name)
}

/// Every child element with this local name.
pub open spec fn find_children(j: Json, name: Seq<char>) -> Seq<Json> {
    all_named(children(j), name)
}

/// The first child element of either name, the first name first.
pub open spec fn find_child_either(j: Json, first: Seq<char>, second: Seq<char>) -> Option<Json> {
    match find_child(j, first) {
        Some(c) => Some(c),
        None => find_child(j, second),
    }
}

/// The first child with this name of an element that may be absent.
pub open spec fn find_child_in(o: Option<Json>, name: Seq<char>) -> Option<Json> {
    match o {
        Some(j) => find_child(j, name),
        None => None,
    }
}

/// The texts among the items, joined.
pub open spec fn direct_text(items: Seq<Json>) -> Seq<char>
    decreases items.len(),
{
    if items.len() == 0 {
        Seq::empty()
    } else {
        direct_text(items.drop_last()) + match items.last() {
            Json::Str(t) => t,
            _ => Seq::empty(),
        }
    }
}

/// The direct text children of an element, joined and trimmed; nested
/// elements are ignored. Nothing for an absent element.
pub open spec fn text_of(o: Option<Json>) -> Seq<char> {
    match o {
        Some(j) => spec_js_trim(direct_text(children(j))),
        None => Seq::empty(),
    }
}

/// The same, but nothing for an empty text.
pub open spec fn text_or_none(o: Option<Json>) -> Option<Seq<char>> {
    let t = text_of(o);
    if t.len() == 0 {
        None
    } else {
        Some(t)
    }
}

/// The text of a child element that may be absent.
pub open spec fn child_text(o: Option<Json>) -> Option<Seq<char>> {
    match o {
        Some(c) => Some(text_of(Some(c))),
        None => None,
    }
}

/// The text, or a default when there is none.
pub open spec fn or_text(o: Option<Seq<char>>, default: Seq<char>) -> Seq<char> {
    match o {
        Some(s) => s,
        None => default,
    }
}

/// The attributes written out, each as ` key="value"` with the value
/// escaped; a value that is not a text is written empty.
pub open spec fn render_attrs(pairs: Seq<(Seq<char>, Json)>) -> Seq<char>
    decreases pairs.len(),
{
    if pairs.len() == 0 {
        Seq::empty()
    } else {
        let value = match pairs.last().1 {
            Json::Str(t) => t,
            _ => Seq::empty(),
        };
        render_attrs(pairs.drop_last()) + " "@ + pairs.last().0 + "=\""@ + spec_escape_attr(
            value,
        ) + "\""@
    }
}

/// The name an element is written with: its qualified name, else its
/// local name.
pub open spec fn written_name(e: Json) -> Seq<char> {
    let qualified = string_field(e, "name"@);
    if qualified.len() == 0 {
        local_name(e)
    } else {
        qualified
    }
}

/// The attributes of an element, written out.
pub open spec fn written_attrs(e: Json) -> Seq<char> {
    match get_field(e, "attributes"@) {
        Some(Json::Object(pairs)) => render_attrs(pairs),
        _ => Seq::empty(),
    }
}

/// One element written back out as XML text.
pub open spec fn serialize_element(e: Json) -> Seq<char>
    decreases e, 1int,
{
    let inner = inner_of(e);
    let name = written_name(e);
    if inner.len() == 0 {
        "<"@ + name + written_attrs(e) + "/>"@
    } else {
        "<"@ + name + written_attrs(e) + ">"@ + inner + "</"@ + name + ">"@
    }
}

/// An element's children written back out: texts as they are, elements
/// serialized, anything else dropped.
pub open spec fn inner_of(e: Json) -> Seq<char>
    decreases e, 0int,
{
    match e {
        Json::Object(f) => match lookup(f, "children"@) {
            Some(Json::Array(items)) => {
                proof {
                    lemma_lookup_below(f, "children"@);
                    assert(decreases_to!(e => f));
                    assert(decreases_to!(Json::Array(items) => items));
                }
                inner_items(items)
            },
            _ => Seq::empty(),
        },
        _ => Seq::empty(),
    }
}

pub open spec fn inner_items(items: Seq<Json>) -> Seq<char>
    decreases items, 0int,
{
    if items.len() == 0 {
        Seq::empty()
    } else {
        let last = items.last();
        inner_items(items.drop_last()) + match last {
            Json::Str(t) => t,
            _ => if is_element(last) {
                serialize_element(last)
            } else {
                Seq::empty()
            },
        }
    }
}

/// The content of an element that may be absent, written back out.
pub open spec fn inner_xml(o: Option<Json>) -> Seq<char> {
    match o {
        Some(e) => inner_of(e),
        None => Seq::empty(),
    }
}

// --- Exec ------------------------------------------------------------------

/// Whether a value is an element.
pub fn is_element_value(v: &Value) -> (r: bool)
    ensures
        r == is_element(v@),
{
    match v {
        Value::Object(_) => field(v, "localName").is_some() && field(v, "children").is_some(),
        _ => false,
    }
}

/// A string field, or `""`.
pub fn string_field_of<'a>(v: &'a Value, key: &str) -> (r: &'a str)
    ensures
        r@ == string_field(v@, key@),
{
    proof {
        reveal_strlit("");
    }
    match field(v, key) {
        Some(f) => match f {
            Value::String(s) => s.as_str(),
            _ => "",
        },
        None => "",
    }
}

/// The local name, else the qualified name.
pub fn local_name_of(v: &Value) -> (r: &str)
    ensures
        r@ == local_name(v@),
{
    let local = string_field_of(v, "localName");
    if local.is_empty() {
        string_field_of(v, "name")
    } else {
        local
    }
}

/// The resolved namespace, or `""`.
pub fn namespace_of_value(v: &Value) -> (r: &str)
    ensures
        r@ == namespace_of(v@),
{
    string_field_of(v, "namespace")
}

/// An attribute's value, when the attribute is there.
pub fn attribute_of<'a>(v: &'a Value, name: &str) -> (r: Option<&'a str>)
    ensures
        opt_text(r) == attribute(v@, name@),
{
    match field(v, "attributes") {
        Some(attributes) => match attributes {
            Value::Object(_) => match field(attributes, name) {
                Some(a) => match a {
                    Value::String(s) => Some(s.as_str()),
                    _ => None,
                },
                None => None,
            },
            _ => None,
        },
        None => None,
    }
}

/// An attribute that is there and not empty.
pub fn attribute_truthy_of<'a>(v: &'a Value, name: &str) -> (r: Option<&'a str>)
    ensures
        opt_text(r) == attribute_truthy(v@, name@),
{
    match attribute_of(v, name) {
        Some(s) => if s.is_empty() {
            None
        } else {
            Some(s)
        },
        None => None,
    }
}

/// The children array, when there is one.
pub fn children_of(v: &Value) -> (r: Option<&Vec<Value>>)
    ensures
        match r {
            Some(items) => model_items(items@) == children(v@) && decreases_to!(*v => *items),
            None => children(v@) == Seq::<Json>::empty(),
        },
{
    match field(v, "children") {
        Some(c) => match c {
            Value::Array(items) => {
                proof {
                    assert(decreases_to!(*c => *items));
                }
                Some(items)
            },
            _ => None,
        },
        None => None,
    }
}

/// Whether a value is an element with this local name.
pub fn is_named_value(c: &Value, name: &str) -> (r: bool)
    ensures
        r == is_named(c@, name@),
{
    is_element_value(c) && text_eq(local_name_of(c), name)
}

/// The first child element with this local name.
pub fn find_child_of<'a>(v: &'a Value, name: &str) -> (r: Option<&'a Value>)
    ensures
        opt_model(r) == find_child(v@, name@),
{
    match children_of(v) {
        Some(items) => {
            let ghost m = model_items(items@);
            proof {
                lemma_model_items(items@);
                assert(m.skip(0) =~= m);
            }
            let mut i: usize = 0;
            while i < items.len()
                invariant
                    i <= items@.len(),
                    m == model_items(items@),
                    m == children(v@),
                    m.len() == items@.len(),
                    first_named(m, name@) == first_named(m.skip(i as int), name@),
                    forall|k: int| 0 <= k < items@.len() ==> #[trigger] m[k] == model(items@[k]),
                decreases items@.len() - i,
            {
                proof {
                    assert(m.skip(i as int)[0] == m[i as int]);
                    assert(m.skip(i as int).drop_first() =~= m.skip(i + 1));
                }
                if is_named_value(&items[i], name) {
                    proof {
                        assert(m.skip(i as int).len() > 0);
                        assert(is_named(m.skip(i as int)[0], name@));
                    }
                    return Some(&items[i]);
                }
                i = i + 1;
            }
            proof {
                assert(m.skip(i as int).len() == 0);
            }
            None
        },
        None => None,
    }
}

/// The first child element of either name, the first name first.
pub fn find_child_either_of<'a>(v: &'a Value, first: &str, second: &str) -> (r: Option<&'a Value>)
    ensures
        opt_model(r) == find_child_either(v@, first@, second@),
{
    match find_child_of(v, first) {
        Some(c) => Some(c),
        None => find_child_of(v, second),
    }
}

/// The first child with this name of an element that may be absent.
pub fn find_child_in_of<'a>(o: Option<&'a Value>, name: &str) -> (r: Option<&'a Value>)
    ensures
        opt_model(r) == find_child_in(opt_model(o), name@),
{
    match o {
        Some(v) => find_child_of(v, name),
        None => None,
    }
}

/// The direct text children joined, trimmed; `""` for an absent element.
pub fn text_of_value(o: Option<&Value>) -> (r: String)
    ensures
        r@ == text_of(opt_model(o)),
{
    match o {
        None => String::new(),
        Some(e) => {
            let mut out = String::new();
            match children_of(e) {
                Some(items) => {
                    let ghost m = model_items(items@);
                    proof {
                        lemma_model_items(items@);
                    }
                    let mut i: usize = 0;
                    while i < items.len()
                        invariant
                            i <= items@.len(),
                            m == model_items(items@),
                            m.len() == items@.len(),
                            forall|k: int| 0 <= k < items@.len() ==> #[trigger] m[k] == model(items@[k]),
                            out@ == direct_text(m.take(i as int)),
                        decreases items@.len() - i,
                    {
                        proof {
                            assert(m.take(i + 1).drop_last() =~= m.take(i as int));
                            assert(m.take(i + 1).last() == m[i as int]);
                        }
                        match &items[i] {
                            Value::String(t) => out.append(t.as_str()),
                            _ => {
                                proof {
                                    assert(out@ =~= out@ + Seq::<char>::empty());
                                }
                            },
                        }
                        i = i + 1;
                    }
                    proof {
                        assert(m.take(items@.len() as int) =~= m);
                    }
                },
                None => {},
            }
            text(js_trim(out.as_str()))
        },
    }
}

/// The text of a child element that may be absent.
pub fn child_text_of(o: Option<&Value>) -> (r: Option<String>)
    ensures
        opt_string(r) == child_text(opt_model(o)),
{
    match o {
        Some(c) => Some(text_of_value(Some(c))),
        None => None,
    }
}

/// The text, or nothing when it is empty.
pub fn text_or_none_of(o: Option<&Value>) -> (r: Option<String>)
    ensures
        opt_string(r) == text_or_none(opt_model(o)),
{
    let t = text_of_value(o);
    if t.as_str().is_empty() {
        None
    } else {
        Some(t)
    }
}

fn attrs_of(v: &Value) -> (r: String)
    ensures
        r@ == written_attrs(v@),
{
    let mut out = String::new();
    match field(v, "attributes") {
        Some(a) => match a {
            Value::Object(pairs) => {
                let ghost m = model_fields(pairs@);
                proof {
                    lemma_model_fields(pairs@);
                }
                let mut i: usize = 0;
                while i < pairs.len()
                    invariant
                        i <= pairs@.len(),
                        m == model_fields(pairs@),
                        m.len() == pairs@.len(),
                        forall|k: int|
                            0 <= k < pairs@.len() ==> #[trigger] m[k] == (
                                pairs@[k].0@,
                                model(pairs@[k].1),
                            ),
                        out@ == render_attrs(m.take(i as int)),
                    decreases pairs@.len() - i,
                {
                    proof {
                        assert(m.take(i + 1).drop_last() =~= m.take(i as int));
                        assert(m.take(i + 1).last() == m[i as int]);
                        reveal_strlit("");
                    }
                    let value: &str = match &pairs[i].1 {
                        Value::String(t) => t.as_str(),
                        _ => "",
                    };
                    let escaped = escape_attr(value);
                    out.append(" ");
                    out.append(pairs[i].0.as_str());
                    out.append("=\"");
                    out.append(escaped.as_str());
                    out.append("\"");
                    i = i + 1;
                }
                proof {
                    assert(m.take(pairs@.len() as int) =~= m);
                }
            },
            _ => {},
        },
        None => {},
    }
    out
}

/// One element written back out as XML text.
pub fn serialize_element_of(v: &Value) -> (r: String)
    ensures
        r@ == serialize_element(v@),
    decreases v, 1int,
{
    let qualified = string_field_of(v, "name");
    let name = if qualified.is_empty() {
        local_name_of(v)
    } else {
        qualified
    };
    let attributes = attrs_of(v);
    let inner = inner_of_value(v);
    let mut out = text("<");
    out.append(name);
    out.append(attributes.as_str());
    if inner.as_str().is_empty() {
        out.append("/>");
    } else {
        out.append(">");
        out.append(inner.as_str());
        out.append("</");
        out.append(name);
        out.append(">");
    }
    out
}

/// An element's children written back out.
pub fn inner_of_value(v: &Value) -> (r: String)
    ensures
        r@ == inner_of(v@),
    decreases v, 0int,
{
    let mut out = String::new();
    match v {
        Value::Object(fields) => {
            let found = lookup_pairs(fields, "children");
            match found {
                Some(c) => match c {
                    Value::Array(items) => {
                        let ghost m = model_items(items@);
                        proof {
                            lemma_model_items(items@);
                            let k = choose|k: int| 0 <= k < fields@.len() && fields@[k].1 == *c;
                            assert(decreases_to!(*v => *fields));
                            assert(decreases_to!(*fields => fields@));
                            assert(decreases_to!(fields@ => fields@[k]));
                            assert(decreases_to!(fields@[k] => fields@[k].1));
                            assert(decreases_to!(*c => *items));
                        }
                        let mut i: usize = 0;
                        while i < items.len()
                            invariant
                                i <= items@.len(),
                                m == model_items(items@),
                                m.len() == items@.len(),
                                forall|k: int|
                                    0 <= k < items@.len() ==> #[trigger] m[k] == model(items@[k]),
                                out@ == inner_items(m.take(i as int)),
                                decreases_to!(*v => *items),
                            decreases items@.len() - i,
                        {
                            proof {
                                assert(m.take(i + 1).drop_last() =~= m.take(i as int));
                                assert(m.take(i + 1).last() == m[i as int]);
                                assert(decreases_to!(*items => items@));
                                assert(decreases_to!(items@ => items@[i as int]));
                            }
                            let item = &items[i];
                            match item {
                                Value::String(t) => out.append(t.as_str()),
                                _ => {
                                    if is_element_value(item) {
                                        let s = serialize_element_of(item);
                                        out.append(s.as_str());
                                    } else {
                                        proof {
                                            assert(out@ =~= out@ + Seq::<char>::empty());
                                        }
                                    }
                                },
                            }
                            i = i + 1;
                        }
                        proof {
                            assert(m.take(items@.len() as int) =~= m);
                        }
                    },
                    _ => {},
                },
                None => {},
            }
        },
        _ => {},
    }
    out
}

/// The content of an element that may be absent, written back out.
pub fn inner_xml_of(o: Option<&Value>) -> (r: String)
    ensures
        r@ == inner_xml(opt_model(o)),
{
    match o {
        Some(v) => inner_of_value(v),
        None => String::new(),
    }
}

} // verus!
