//! The native RSS shapes mapped onto the Atom shape.

use vstd::prelude::*;
use crate::value::{
    field, get_field, lemma_model_items, lemma_model_items_push, model, model_items,
    text, Json, Value,
};
use crate::object::{have, have_str, listed, maybe, maybe_str, obj, opt_text, opt_value, Obj};
use crate::element::or_text;
use crate::atom::spec_atom_text;
use crate::pattern::{parse_rss_person, spec_rss_person};

verus! {

/// A text field of a built object, when it is there.
pub open spec fn str_field(j: Json, key: Seq<char>) -> Option<Seq<char>> {
    match get_field(j, key) {
        Some(Json::Str(s)) => Some(s),
        _ => None,
    }
}

/// A text field that is there and not empty: what the mapping onto
/// Atom tests before it copies one.
pub open spec fn truthy(j: Json, key: Seq<char>) -> Option<Seq<char>> {
    match str_field(j, key) {
        Some(s) => if s.len() > 0 {
            Some(s)
        } else {
            None
        },
        None => None,
    }
}

/// A list field, or none.
pub open spec fn list(j: Json, key: Seq<char>) -> Seq<Json> {
    match get_field(j, key) {
        Some(Json::Array(items)) => items,
        _ => Seq::empty(),
    }
}

/// The first of two texts that is there.
pub open spec fn first_of(a: Option<Seq<char>>, b: Option<Seq<char>>) -> Option<Seq<char>> {
    match a {
        Some(s) => Some(s),
        None => b,
    }
}

/// An Atom text construct field of type `kind`, there when the text is.
pub open spec fn text_construct(key: Seq<char>, kind: Seq<char>, o: Option<Seq<char>>) -> Option<
    (Seq<char>, Json),
> {
    match o {
        Some(s) => Some((key, spec_atom_text(kind, s))),
        None => None,
    }
}

/// A link of the given relation.
pub open spec fn rel_link(href: Seq<char>, rel: Seq<char>) -> Json {
    obj(seq![have_str("href"@, href), have_str("rel"@, rel)])
}

/// A one-link list field, there when the href is.
pub open spec fn one_link(key: Seq<char>, href: Option<Seq<char>>, rel: Seq<char>) -> Option<
    (Seq<char>, Json),
> {
    match href {
        Some(h) => Some((key, Json::Array(seq![rel_link(h, rel)]))),
        None => None,
    }
}

/// A one-person list field, there when the person field is.
pub open spec fn one_person(key: Seq<char>, person: Option<Seq<char>>) -> Option<(Seq<char>, Json)> {
    match person {
        Some(p) => Some((key, Json::Array(seq![spec_rss_person(p)]))),
        None => None,
    }
}

/// The image url of a built feed, where it has one.
pub open spec fn image_url(j: Json) -> Option<Seq<char>> {
    match get_field(j, "image"@) {
        Some(image) => truthy(image, "url"@),
        None => None,
    }
}

/// A native category as an Atom category: the RSS domain becomes the
/// Atom scheme.
pub open spec fn spec_category_to_atom(c: Json) -> Json {
    obj(
        seq![
            have_str("term"@, or_text(str_field(c, "value"@), Seq::empty())),
            maybe_str("scheme"@, str_field(c, "domain"@)),
        ],
    )
}

/// A one-element sequence, or none.
pub open spec fn opt_seq(o: Option<Json>) -> Seq<Json> {
    match o {
        Some(j) => seq![j],
        None => Seq::empty(),
    }
}

/// The enclosure of an item as an Atom link, when it has a url.
pub open spec fn enclosure_link(item: Json) -> Option<Json> {
    match get_field(item, "enclosure"@) {
        Some(enclosure) => match truthy(enclosure, "url"@) {
            Some(url) => Some(
                obj(
                    seq![
                        have_str("href"@, url),
                        have_str("rel"@, "enclosure"@),
                        maybe_str("type"@, truthy(enclosure, "type"@)),
                        maybe("length"@, get_field(enclosure, "length"@)),
                    ],
                ),
            ),
            None => None,
        },
        None => None,
    }
}

/// The comments page of an item as an Atom link.
pub open spec fn replies_link(item: Json) -> Option<Json> {
    match truthy(item, "comments"@) {
        Some(c) => Some(
            obj(
                seq![
                    have_str("href"@, c),
                    have_str("rel"@, "replies"@),
                    have_str("type"@, "text/html"@),
                ],
            ),
        ),
        None => None,
    }
}

/// The links of an item: its link, its enclosure, its comments page.
pub open spec fn item_links(item: Json) -> Seq<Json> {
    opt_seq(
        match truthy(item, "link"@) {
            Some(l) => Some(rel_link(l, "alternate"@)),
            None => None,
        },
    ) + opt_seq(enclosure_link(item)) + opt_seq(replies_link(item))
}

/// The id of an item: its guid's value where it has a guid, else its
/// link.
pub open spec fn item_id(item: Json) -> Option<Seq<char>> {
    match get_field(item, "guid"@) {
        Some(guid) => Some(or_text(str_field(guid, "value"@), Seq::empty())),
        None => truthy(item, "link"@),
    }
}

/// The source of an item as an Atom feed.
pub open spec fn spec_source_feed(source: Json) -> Json {
    obj(
        seq![
            have_str("format"@, "atom"@),
            have_str("version"@, "1.0"@),
            text_construct("title"@, "text"@, truthy(source, "value"@)),
            one_link("links"@, truthy(source, "url"@), "self"@),
        ],
    )
}

/// An RSS item as an Atom entry.
pub open spec fn spec_rss2_item_to_atom_entry(item: Json) -> Json {
    obj(
        seq![
            text_construct("title"@, "text"@, truthy(item, "title"@)),
            text_construct("summary"@, "html"@, truthy(item, "description"@)),
            maybe_str("published"@, truthy(item, "pubDate"@)),
            maybe_str("updated"@, truthy(item, "pubDate"@)),
            maybe_str("id"@, item_id(item)),
            listed("links"@, item_links(item)),
            one_person("authors"@, truthy(item, "author"@)),
            listed("categories"@, list(item, "categories"@).map_values(|c| spec_category_to_atom(c))),
            maybe(
                "source"@,
                match get_field(item, "source"@) {
                    Some(s) => Some(spec_source_feed(s)),
                    None => None,
                },
            ),
        ],
    )
}

/// A native RSS feed as an Atom feed. The channel link stands in for the
/// id; `lastBuildDate`, else `pubDate`, is the update time; the
/// managing editor, else the web master, is the author.
pub open spec fn spec_rss2_to_atom(rss: Json) -> Json {
    obj(rss2_to_atom_plan(rss))
}

/// The fields of that Atom feed, in order.
pub open spec fn rss2_to_atom_plan(rss: Json) -> Seq<Option<(Seq<char>, Json)>> {
    seq![
            have_str("format"@, "atom"@),
            have_str("version"@, "1.0"@),
            have(
                "entries"@,
                Json::Array(list(rss, "items"@).map_values(|i| spec_rss2_item_to_atom_entry(i))),
            ),
            text_construct("title"@, "text"@, truthy(rss, "title"@)),
            text_construct("subtitle"@, "text"@, truthy(rss, "description"@)),
            text_construct("rights"@, "text"@, truthy(rss, "copyright"@)),
            maybe_str("id"@, truthy(rss, "link"@)),
            maybe_str("updated"@, first_of(truthy(rss, "lastBuildDate"@), truthy(rss, "pubDate"@))),
            maybe(
                "generator"@,
                match truthy(rss, "generator"@) {
                    Some(g) => Some(obj(seq![have_str("value"@, g)])),
                    None => None,
                },
            ),
            maybe_str("logo"@, image_url(rss)),
            one_link("links"@, truthy(rss, "link"@), "alternate"@),
            listed("categories"@, list(rss, "categories"@).map_values(|c| spec_category_to_atom(c))),
            one_person(
                "authors"@,
                first_of(truthy(rss, "managingEditor"@), truthy(rss, "webMaster"@)),
            ),
    ]
}

/// An RDF item as an Atom entry; its id is its `about`, else its link,
/// else empty.
pub open spec fn spec_rss1_item_to_atom_entry(item: Json) -> Json {
    obj(
        seq![
            text_construct("title"@, "text"@, truthy(item, "title"@)),
            text_construct("summary"@, "text"@, truthy(item, "description"@)),
            have_str(
                "id"@,
                or_text(first_of(truthy(item, "about"@), str_field(item, "link"@)), Seq::empty()),
            ),
            one_link("links"@, truthy(item, "link"@), "alternate"@),
        ],
    )
}

/// A native RDF feed as an Atom feed.
pub open spec fn spec_rss1_to_atom(rss: Json) -> Json {
    obj(rss1_to_atom_plan(rss))
}

/// The fields of that Atom feed, in order.
pub open spec fn rss1_to_atom_plan(rss: Json) -> Seq<Option<(Seq<char>, Json)>> {
    seq![
            have_str("format"@, "atom"@),
            have_str("version"@, "1.0"@),
            have(
                "entries"@,
                Json::Array(list(rss, "items"@).map_values(|i| spec_rss1_item_to_atom_entry(i))),
            ),
            text_construct("title"@, "text"@, truthy(rss, "title"@)),
            text_construct("subtitle"@, "text"@, truthy(rss, "description"@)),
            maybe_str("id"@, first_of(truthy(rss, "about"@), truthy(rss, "link"@))),
            one_link("links"@, truthy(rss, "link"@), "alternate"@),
            maybe_str("logo"@, image_url(rss)),
    ]
}

// --- Exec ------------------------------------------------------------------

fn str_field_of<'a>(v: &'a Value, key: &str) -> (r: Option<&'a str>)
    ensures
        opt_text(r) == str_field(v@, key@),
{
    match field(v, key) {
        Some(f) => match f {
            Value::String(s) => Some(s.as_str()),
            _ => None,
        },
        None => None,
    }
}

fn truthy_of<'a>(v: &'a Value, key: &str) -> (r: Option<&'a str>)
    ensures
        opt_text(r) == truthy(v@, key@),
{
    match str_field_of(v, key) {
        Some(s) => if s.is_empty() {
            None
        } else {
            Some(s)
        },
        None => None,
    }
}

fn first_of_texts<'a>(a: Option<&'a str>, b: Option<&'a str>) -> (r: Option<&'a str>)
    ensures
        opt_text(r) == first_of(opt_text(a), opt_text(b)),
{
    match a {
        Some(s) => Some(s),
        None => b,
    }
}

fn atom_text_of(kind: &str, value: &str) -> (r: Value)
    ensures
        r@ == spec_atom_text(kind@, value@),
{
    let mut o = Obj::new();
    o.put_str("type", kind);
    o.put_str("value", value);
    proof {
        assert(o.plan() =~= seq![have_str("type"@, kind@), have_str("value"@, value@)]);
    }
    o.done()
}

fn construct_of(kind: &str, o: Option<&str>) -> (r: Option<Value>)
    ensures
        opt_value(r) == match opt_text(o) {
            Some(s) => Some(spec_atom_text(kind@, s)),
            None => None,
        },
{
    match o {
        Some(s) => Some(atom_text_of(kind, s)),
        None => None,
    }
}

fn rel_link_of(href: &str, rel: &str) -> (r: Value)
    ensures
        r@ == rel_link(href@, rel@),
{
    let mut o = Obj::new();
    o.put_str("href", href);
    o.put_str("rel", rel);
    proof {
        assert(o.plan() =~= seq![have_str("href"@, href@), have_str("rel"@, rel@)]);
    }
    o.done()
}

fn one_link_of(href: Option<&str>, rel: &str) -> (r: Option<Value>)
    ensures
        maybe("links"@, opt_value(r)) == one_link("links"@, opt_text(href), rel@),
{
    match href {
        Some(h) => {
            let mut links: Vec<Value> = Vec::new();
            let l = rel_link_of(h, rel);
            links.push(l);
            proof {
                lemma_model_items(links@);
                assert(model_items(links@) =~= seq![rel_link(h@, rel@)]);
            }
            Some(Value::Array(links))
        },
        None => None,
    }
}

fn one_person_of(person: Option<&str>) -> (r: Option<Value>)
    ensures
        maybe("authors"@, opt_value(r)) == one_person("authors"@, opt_text(person)),
{
    match person {
        Some(p) => {
            let mut people: Vec<Value> = Vec::new();
            let a = parse_rss_person(p);
            people.push(a);
            proof {
                lemma_model_items(people@);
                assert(model_items(people@) =~= seq![spec_rss_person(p@)]);
            }
            Some(Value::Array(people))
        },
        None => None,
    }
}

fn image_url_of(v: &Value) -> (r: Option<&str>)
    ensures
        opt_text(r) == image_url(v@),
{
    match field(v, "image") {
        Some(image) => truthy_of(image, "url"),
        None => None,
    }
}

/// A native category as an Atom category.
pub fn category_to_atom(c: &Value) -> (r: Value)
    ensures
        r@ == spec_category_to_atom(c@),
{
    proof {
        reveal_strlit("");
    }
    let term: &str = match str_field_of(c, "value") {
        Some(t) => t,
        None => "",
    };
    assert(term@ == or_text(str_field(c@, "value"@), Seq::empty()));
    let mut o = Obj::new();
    o.put_str("term", term);
    o.maybe_str("scheme", str_field_of(c, "domain"));
    proof {
        assert(o.plan() =~= seq![
            have_str("term"@, or_text(str_field(c@, "value"@), Seq::empty())),
            maybe_str("scheme"@, str_field(c@, "domain"@)),
        ]);
    }
    o.done()
}

/// The way a list item of a native feed is mapped.
pub enum Mapping {
    /// An RSS item, to an Atom entry.
    RssEntry,
    /// An RDF item, to an Atom entry.
    RdfEntry,
}

pub open spec fn spec_mapping(kind: Mapping, item: Json) -> Json {
    match kind {
        Mapping::RssEntry => spec_rss2_item_to_atom_entry(item),
        Mapping::RdfEntry => spec_rss1_item_to_atom_entry(item),
    }
}

fn list_of<'a>(v: &'a Value, key: &str) -> (r: Option<&'a Vec<Value>>)
    ensures
        match r {
            Some(items) => model_items(items@) == list(v@, key@),
            None => list(v@, key@) == Seq::<Json>::empty(),
        },
{
    match field(v, key) {
        Some(f) => match f {
            Value::Array(items) => Some(items),
            _ => None,
        },
        None => None,
    }
}

fn map_one(kind: &Mapping, item: &Value) -> (r: Value)
    ensures
        r@ == spec_mapping(*kind, item@),
{
    match kind {
        Mapping::RssEntry => rss2_item_to_atom_entry(item),
        Mapping::RdfEntry => rss1_item_to_atom_entry(item),
    }
}

/// Every item of a list field of a native object, mapped.
fn map_list(v: &Value, key: &str, kind: Mapping) -> (r: Vec<Value>)
    ensures
        model_items(r@) == list(v@, key@).map_values(|c| spec_mapping(kind, c)),
{
    let mut out: Vec<Value> = Vec::new();
    match list_of(v, key) {
        Some(items) => {
            let ghost m = model_items(items@);
            proof {
                lemma_model_items(items@);
                lemma_model_items(out@);
                assert(m.take(0).map_values(|c| spec_mapping(kind, c)) =~= Seq::<Json>::empty());
            }
            let mut i: usize = 0;
            while i < items.len()
                invariant
                    i <= items@.len(),
                    m == model_items(items@),
                    m.len() == items@.len(),
                    forall|k: int| 0 <= k < items@.len() ==> #[trigger] m[k] == model(items@[k]),
                    model_items(out@) == m.take(i as int).map_values(|c| spec_mapping(kind, c)),
                decreases items@.len() - i,
            {
                let x = map_one(&kind, &items[i]);
                proof {
                    lemma_model_items_push(out@, x);
                    assert(m.take(i + 1).map_values(|c| spec_mapping(kind, c)) =~= m.take(
                        i as int,
                    ).map_values(|c| spec_mapping(kind, c)).push(spec_mapping(kind, m[i as int])));
                }
                out.push(x);
                i = i + 1;
            }
            proof {
                assert(m.take(items@.len() as int) =~= m);
            }
        },
        None => {
            proof {
                lemma_model_items(out@);
                assert(list(v@, key@).map_values(|c| spec_mapping(kind, c)) =~= Seq::<Json>::empty());
            }
        },
    }
    proof {
        lemma_model_items(out@);
    }
    out
}

/// Every category of a list field of a native object, as Atom categories.
fn map_categories(v: &Value, key: &str) -> (r: Vec<Value>)
    ensures
        model_items(r@) == list(v@, key@).map_values(|c| spec_category_to_atom(c)),
{
    let mut out: Vec<Value> = Vec::new();
    match list_of(v, key) {
        Some(items) => {
            let ghost m = model_items(items@);
            proof {
                lemma_model_items(items@);
                lemma_model_items(out@);
                assert(m.take(0).map_values(|c| spec_category_to_atom(c)) =~= Seq::<Json>::empty());
            }
            let mut i: usize = 0;
            while i < items.len()
                invariant
                    i <= items@.len(),
                    m == model_items(items@),
                    m.len() == items@.len(),
                    forall|k: int| 0 <= k < items@.len() ==> #[trigger] m[k] == model(items@[k]),
                    model_items(out@) == m.take(i as int).map_values(|c| spec_category_to_atom(c)),
                decreases items@.len() - i,
            {
                let x = category_to_atom(&items[i]);
                proof {
                    lemma_model_items_push(out@, x);
                    assert(m.take(i + 1).map_values(|c| spec_category_to_atom(c)) =~= m.take(
                        i as int,
                    ).map_values(|c| spec_category_to_atom(c)).push(spec_category_to_atom(m[i as int])));
                }
                out.push(x);
                i = i + 1;
            }
            proof {
                assert(m.take(items@.len() as int) =~= m);
            }
        },
        None => {
            proof {
                lemma_model_items(out@);
                assert(list(v@, key@).map_values(|c| spec_category_to_atom(c)) =~= Seq::<Json>::empty());
            }
        },
    }
    proof {
        lemma_model_items(out@);
    }
    out
}

fn enclosure_link_of(item: &Value) -> (r: Option<Value>)
    ensures
        opt_value(r) == enclosure_link(item@),
{
    match field(item, "enclosure") {
        Some(enclosure) => match truthy_of(enclosure, "url") {
            Some(url) => {
                let mut o = Obj::new();
                o.put_str("href", url);
                o.put_str("rel", "enclosure");
                o.maybe_str("type", truthy_of(enclosure, "type"));
                // A length of zero is carried across, as anything that is
                // there is.
                let length = match field(enclosure, "length") {
                    Some(l) => Some(l.clone()),
                    None => None,
                };
                o.maybe("length", length);
                proof {
                    assert(o.plan() =~= seq![
                        have_str("href"@, url@),
                        have_str("rel"@, "enclosure"@),
                        maybe_str("type"@, truthy(enclosure@, "type"@)),
                        maybe("length"@, get_field(enclosure@, "length"@)),
                    ]);
                }
                Some(o.done())
            },
            None => None,
        },
        None => None,
    }
}

fn replies_link_of(item: &Value) -> (r: Option<Value>)
    ensures
        opt_value(r) == replies_link(item@),
{
    match truthy_of(item, "comments") {
        Some(c) => {
            let mut o = Obj::new();
            o.put_str("href", c);
            o.put_str("rel", "replies");
            o.put_str("type", "text/html");
            proof {
                assert(o.plan() =~= seq![
                    have_str("href"@, c@),
                    have_str("rel"@, "replies"@),
                    have_str("type"@, "text/html"@),
                ]);
            }
            Some(o.done())
        },
        None => None,
    }
}

fn push_opt(out: &mut Vec<Value>, o: Option<Value>)
    ensures
        model_items(final(out)@) == model_items(old(out)@) + opt_seq(opt_value(o)),
{
    match o {
        Some(v) => {
            proof {
                lemma_model_items_push(out@, v);
            }
            out.push(v);
        },
        None => {
            assert(model_items(out@) =~= model_items(out@) + Seq::<Json>::empty());
        },
    }
}

fn item_links_of(item: &Value) -> (r: Vec<Value>)
    ensures
        model_items(r@) == item_links(item@),
{
    let mut links: Vec<Value> = Vec::new();
    let alternate = match truthy_of(item, "link") {
        Some(l) => Some(rel_link_of(l, "alternate")),
        None => None,
    };
    proof {
        lemma_model_items(links@);
        assert(model_items(links@) =~= Seq::<Json>::empty());
    }
    push_opt(&mut links, alternate);
    push_opt(&mut links, enclosure_link_of(item));
    push_opt(&mut links, replies_link_of(item));
    proof {
        assert(model_items(links@) =~= item_links(item@));
    }
    links
}

fn source_feed_of(source: &Value) -> (r: Value)
    ensures
        r@ == spec_source_feed(source@),
{
    let mut o = Obj::new();
    o.put_str("format", "atom");
    o.put_str("version", "1.0");
    o.maybe("title", construct_of("text", truthy_of(source, "value")));
    o.maybe("links", one_link_of(truthy_of(source, "url"), "self"));
    proof {
        assert(o.plan() =~= seq![
            have_str("format"@, "atom"@),
            have_str("version"@, "1.0"@),
            text_construct("title"@, "text"@, truthy(source@, "value"@)),
            one_link("links"@, truthy(source@, "url"@), "self"@),
        ]);
    }
    o.done()
}

fn item_id_of(item: &Value) -> (r: Option<&str>)
    ensures
        opt_text(r) == item_id(item@),
{
    proof {
        reveal_strlit("");
    }
    // The guid is the natural id; otherwise the link stands in.
    match field(item, "guid") {
        Some(guid) => match str_field_of(guid, "value") {
            Some(v) => Some(v),
            None => Some(""),
        },
        None => truthy_of(item, "link"),
    }
}

/// An RSS item of the native shape as an Atom entry.
pub fn rss2_item_to_atom_entry(item: &Value) -> (r: Value)
    ensures
        r@ == spec_rss2_item_to_atom_entry(item@),
{
    let mut o = Obj::new();
    o.maybe("title", construct_of("text", truthy_of(item, "title")));
    o.maybe("summary", construct_of("html", truthy_of(item, "description")));
    o.maybe_str("published", truthy_of(item, "pubDate"));
    o.maybe_str("updated", truthy_of(item, "pubDate"));
    o.maybe_str("id", item_id_of(item));
    o.list("links", item_links_of(item));
    o.maybe("authors", one_person_of(truthy_of(item, "author")));
    o.list("categories", map_categories(item, "categories"));
    let source = match field(item, "source") {
        Some(s) => Some(source_feed_of(s)),
        None => None,
    };
    o.maybe("source", source);
    proof {
        let j = item@;
        assert(o.plan() =~= seq![
            text_construct("title"@, "text"@, truthy(j, "title"@)),
            text_construct("summary"@, "html"@, truthy(j, "description"@)),
            maybe_str("published"@, truthy(j, "pubDate"@)),
            maybe_str("updated"@, truthy(j, "pubDate"@)),
            maybe_str("id"@, item_id(j)),
            listed("links"@, item_links(j)),
            one_person("authors"@, truthy(j, "author"@)),
            listed("categories"@, list(j, "categories"@).map_values(|c| spec_category_to_atom(c))),
            maybe(
                "source"@,
                match get_field(j, "source"@) {
                    Some(s) => Some(spec_source_feed(s)),
                    None => None,
                },
            ),
        ]);
    }
    o.done()
}

/// A native RSS feed as an Atom feed.
pub fn rss2_to_atom(rss: &Value) -> (r: Value)
    ensures
        r@ == spec_rss2_to_atom(rss@),
{
    let mut o = Obj::new();
    o.put_str("format", "atom");
    o.put_str("version", "1.0");
    o.put("entries", Value::Array(map_list(rss, "items", Mapping::RssEntry)));
    o.maybe("title", construct_of("text", truthy_of(rss, "title")));
    o.maybe("subtitle", construct_of("text", truthy_of(rss, "description")));
    o.maybe("rights", construct_of("text", truthy_of(rss, "copyright")));
    // Atom requires an id and RSS has no direct equivalent, so the
    // channel link stands in: a best-effort mapping, not an identity.
    o.maybe_str("id", truthy_of(rss, "link"));
    o.maybe_str("updated", first_of_texts(truthy_of(rss, "lastBuildDate"), truthy_of(rss, "pubDate")));
    let generator = match truthy_of(rss, "generator") {
        Some(g) => {
            let mut gen = Obj::new();
            gen.put_str("value", g);
            proof {
                assert(gen.plan() =~= seq![have_str("value"@, g@)]);
            }
            Some(gen.done())
        },
        None => None,
    };
    o.maybe("generator", generator);
    o.maybe_str("logo", image_url_of(rss));
    o.maybe("links", one_link_of(truthy_of(rss, "link"), "alternate"));
    o.list("categories", map_categories(rss, "categories"));
    o.maybe("authors", one_person_of(first_of_texts(truthy_of(rss, "managingEditor"), truthy_of(rss, "webMaster"))));
    proof {
        let j = rss@;
        assert(list(j, "items"@).map_values(|c| spec_mapping(Mapping::RssEntry, c))
            =~= list(j, "items"@).map_values(|i| spec_rss2_item_to_atom_entry(i)));
        assert(o.plan() =~= seq![
            have_str("format"@, "atom"@),
            have_str("version"@, "1.0"@),
            have(
                "entries"@,
                Json::Array(list(j, "items"@).map_values(|i| spec_rss2_item_to_atom_entry(i))),
            ),
            text_construct("title"@, "text"@, truthy(j, "title"@)),
            text_construct("subtitle"@, "text"@, truthy(j, "description"@)),
            text_construct("rights"@, "text"@, truthy(j, "copyright"@)),
            maybe_str("id"@, truthy(j, "link"@)),
            maybe_str("updated"@, first_of(truthy(j, "lastBuildDate"@), truthy(j, "pubDate"@))),
            maybe(
                "generator"@,
                match truthy(j, "generator"@) {
                    Some(g) => Some(obj(seq![have_str("value"@, g)])),
                    None => None,
                },
            ),
            maybe_str("logo"@, image_url(j)),
            one_link("links"@, truthy(j, "link"@), "alternate"@),
            listed("categories"@, list(j, "categories"@).map_values(|c| spec_category_to_atom(c))),
            one_person(
                "authors"@,
                first_of(truthy(j, "managingEditor"@), truthy(j, "webMaster"@)),
            ),
        ]);
    }
    o.done()
}

fn rdf_item_id(item: &Value) -> (r: &str)
    ensures
        r@ == or_text(first_of(truthy(item@, "about"@), str_field(item@, "link"@)), Seq::empty()),
{
    proof {
        reveal_strlit("");
    }
    match first_of_texts(truthy_of(item, "about"), str_field_of(item, "link")) {
        Some(s) => s,
        None => "",
    }
}

/// An RDF item of the native shape as an Atom entry.
pub fn rss1_item_to_atom_entry(item: &Value) -> (r: Value)
    ensures
        r@ == spec_rss1_item_to_atom_entry(item@),
{
    let mut o = Obj::new();
    o.maybe("title", construct_of("text", truthy_of(item, "title")));
    o.maybe("summary", construct_of("text", truthy_of(item, "description")));
    // Assigned whatever the item holds, so an item with neither an about
    // nor a link still carries an empty id.
    o.put_str("id", rdf_item_id(item));
    o.maybe("links", one_link_of(truthy_of(item, "link"), "alternate"));
    proof {
        let j = item@;
        assert(o.plan() =~= seq![
            text_construct("title"@, "text"@, truthy(j, "title"@)),
            text_construct("summary"@, "text"@, truthy(j, "description"@)),
            have_str(
                "id"@,
                or_text(first_of(truthy(j, "about"@), str_field(j, "link"@)), Seq::empty()),
            ),
            one_link("links"@, truthy(j, "link"@), "alternate"@),
        ]);
    }
    o.done()
}

/// A native RDF feed as an Atom feed.
pub fn rss1_to_atom(rss: &Value) -> (r: Value)
    ensures
        r@ == spec_rss1_to_atom(rss@),
{
    let mut o = Obj::new();
    o.put_str("format", "atom");
    o.put_str("version", "1.0");
    o.put("entries", Value::Array(map_list(rss, "items", Mapping::RdfEntry)));
    o.maybe("title", construct_of("text", truthy_of(rss, "title")));
    o.maybe("subtitle", construct_of("text", truthy_of(rss, "description")));
    o.maybe_str("id", first_of_texts(truthy_of(rss, "about"), truthy_of(rss, "link")));
    o.maybe("links", one_link_of(truthy_of(rss, "link"), "alternate"));
    o.maybe_str("logo", image_url_of(rss));
    proof {
        let j = rss@;
        assert(list(j, "items"@).map_values(|c| spec_mapping(Mapping::RdfEntry, c))
            =~= list(j, "items"@).map_values(|i| spec_rss1_item_to_atom_entry(i)));
        assert(o.plan() =~= seq![
            have_str("format"@, "atom"@),
            have_str("version"@, "1.0"@),
            have(
                "entries"@,
                Json::Array(list(j, "items"@).map_values(|i| spec_rss1_item_to_atom_entry(i))),
            ),
            text_construct("title"@, "text"@, truthy(j, "title"@)),
            text_construct("subtitle"@, "text"@, truthy(j, "description"@)),
            maybe_str("id"@, first_of(truthy(j, "about"@), truthy(j, "link"@))),
            one_link("links"@, truthy(j, "link"@), "alternate"@),
            maybe_str("logo"@, image_url(j)),
        ]);
    }
    o.done()
}

} // verus!
