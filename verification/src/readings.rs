//! What each reader writes, field by field, in terms of the element it
//! reads or the value it maps.

use vstd::prelude::*;
use crate::value::{get_field, lookup, Json};
use crate::object::present;
use crate::element::{attribute, attribute_truthy, find_child, find_children, inner_xml, text_of};
use crate::laws::{avoids, lemma_avoids_lookup, lemma_lookup_at};
use crate::rss::{
    rss1_plan, spec_enclosure, spec_guid, spec_parse_rss1, spec_parse_rss1_image, spec_parse_rss1_item,
    spec_source,
    rss2_head, rss2_tail, spec_parse_rss1_text_input, spec_parse_rss2, spec_parse_rss2_category,
    spec_parse_rss2_cloud, spec_parse_rss2_image, spec_parse_rss2_item, spec_parse_rss2_text_input,
};
use crate::text::spec_js_parse_int;
use crate::detect::{spec_detect, FeedDialect, FeedVersion};
use crate::element::{all_named, children, first_named, inner_of, is_element, is_named, local_name, namespace_of};
use crate::text::spec_js_trim;
use crate::options::{format_from_name, format_name, options_bag, FeedFormat, FeedOptions};
use crate::detect::{detection_json, dialect_name, version_name, Detection};
use crate::pattern::{group, spec_person_from_match};
use crate::convert::spec_convert;
use crate::atom::spec_atom_text;
use crate::pattern::spec_rss_person;
use crate::to_atom::{
    rss1_to_atom_plan, rss2_to_atom_plan, spec_category_to_atom, spec_rss1_item_to_atom_entry,
    spec_rss1_to_atom, spec_rss2_item_to_atom_entry, spec_rss2_to_atom, spec_source_feed,
    first_of, image_url, item_links, list, one_link, one_person, str_field, text_construct, truthy,
};
use crate::atom::{
    atom_head, atom_tail,
    by_version, construct_child, text_child,
    spec_parse_atom, spec_parse_atom_entry, spec_parse_category, spec_parse_content,
    spec_parse_generator, spec_parse_link, spec_parse_person, spec_parse_text,
};
use crate::object::{have, have_str, listed, maybe, maybe_str, obj};

verus! {

/// A field of a plan that writes `key`.
pub open spec fn writes(f: Option<(Seq<char>, Json)>, key: Seq<char>) -> bool {
    match f {
        Some(p) => p.0 == key,
        None => false,
    }
}

/// What a plan's object holds under `key`, when only its field `i` may
/// write that key.
pub(crate) proof fn lemma_read_at(plan: Seq<Option<(Seq<char>, Json)>>, i: int, key: Seq<char>)
    requires
        0 <= i < plan.len(),
        forall|j: int| 0 <= j < plan.len() && j != i ==> !writes(#[trigger] plan[j], key),
    ensures
        lookup(present(plan), key) == match plan[i] {
            Some(p) => if p.0 == key {
                Some(p.1)
            } else {
                None
            },
            None => None,
        },
{
    match plan[i] {
        Some(p) => {
            if p.0 == key {
                assert(avoids(plan.skip(i + 1), key)) by {
                    assert forall|j: int| 0 <= j < plan.skip(i + 1).len() implies match #[trigger] plan.skip(i + 1)[j] {
                        Some(q) => q.0 != key,
                        None => true,
                    } by {
                        assert(plan.skip(i + 1)[j] == plan[j + i + 1]);
                        assert(!writes(plan[j + i + 1], key));
                    }
                }
                lemma_lookup_at(plan, i, key, p.1);
            } else {
                assert(avoids(plan, key)) by {
                    assert forall|j: int| 0 <= j < plan.len() implies match #[trigger] plan[j] {
                        Some(q) => q.0 != key,
                        None => true,
                    } by {
                        if j != i {
                            assert(!writes(plan[j], key));
                        }
                    }
                }
                lemma_avoids_lookup(plan, key);
            }
        },
        None => {
            assert(avoids(plan, key)) by {
                assert forall|j: int| 0 <= j < plan.len() implies match #[trigger] plan[j] {
                    Some(q) => q.0 != key,
                    None => true,
                } by {
                    if j != i {
                        assert(!writes(plan[j], key));
                    }
                }
            }
            lemma_avoids_lookup(plan, key);
        },
    }
}

/// The length and first letters of every key the readers write, which
/// tell any two of them apart.
pub(crate) proof fn lemma_keys()
    ensures
        "format"@.len() == 6, "format"@[0] == 'f', "format"@[1] == 'o', "format"@[2] == 'r',
        "version"@.len() == 7, "version"@[0] == 'v', "version"@[1] == 'e', "version"@[2] == 'r',
        "entries"@.len() == 7, "entries"@[0] == 'e', "entries"@[1] == 'n', "entries"@[2] == 't',
        "title"@.len() == 5, "title"@[0] == 't', "title"@[1] == 'i', "title"@[2] == 't',
        "subtitle"@.len() == 8, "subtitle"@[0] == 's', "subtitle"@[1] == 'u', "subtitle"@[2] == 'b',
        "id"@.len() == 2, "id"@[0] == 'i', "id"@[1] == 'd',
        "links"@.len() == 5, "links"@[0] == 'l', "links"@[1] == 'i', "links"@[2] == 'n',
        "logo"@.len() == 4, "logo"@[0] == 'l', "logo"@[1] == 'o', "logo"@[2] == 'g',
        "about"@.len() == 5, "about"@[0] == 'a', "about"@[1] == 'b', "about"@[2] == 'o',
        "description"@.len() == 11, "description"@[0] == 'd', "description"@[1] == 'e', "description"@[2] == 's',
        "name"@.len() == 4, "name"@[0] == 'n', "name"@[1] == 'a', "name"@[2] == 'm',
        "link"@.len() == 4, "link"@[0] == 'l', "link"@[1] == 'i', "link"@[2] == 'n',
        "url"@.len() == 3, "url"@[0] == 'u', "url"@[1] == 'r', "url"@[2] == 'l',
        "summary"@.len() == 7, "summary"@[0] == 's', "summary"@[1] == 'u', "summary"@[2] == 'm',
        "published"@.len() == 9, "published"@[0] == 'p', "published"@[1] == 'u', "published"@[2] == 'b',
        "updated"@.len() == 7, "updated"@[0] == 'u', "updated"@[1] == 'p', "updated"@[2] == 'd',
        "authors"@.len() == 7, "authors"@[0] == 'a', "authors"@[1] == 'u', "authors"@[2] == 't',
        "contributors"@.len() == 12, "contributors"@[0] == 'c', "contributors"@[1] == 'o', "contributors"@[2] == 'n',
        "categories"@.len() == 10, "categories"@[0] == 'c', "categories"@[1] == 'a', "categories"@[2] == 't',
        "content"@.len() == 7, "content"@[0] == 'c', "content"@[1] == 'o', "content"@[2] == 'n',
        "rights"@.len() == 6, "rights"@[0] == 'r', "rights"@[1] == 'i', "rights"@[2] == 'g',
        "generator"@.len() == 9, "generator"@[0] == 'g', "generator"@[1] == 'e', "generator"@[2] == 'n',
        "icon"@.len() == 4, "icon"@[0] == 'i', "icon"@[1] == 'c', "icon"@[2] == 'o',
        "language"@.len() == 8, "language"@[0] == 'l', "language"@[1] == 'a', "language"@[2] == 'n',
        "copyright"@.len() == 9, "copyright"@[0] == 'c', "copyright"@[1] == 'o', "copyright"@[2] == 'p',
        "managingEditor"@.len() == 14, "managingEditor"@[0] == 'm', "managingEditor"@[1] == 'a', "managingEditor"@[2] == 'n',
        "webMaster"@.len() == 9, "webMaster"@[0] == 'w', "webMaster"@[1] == 'e', "webMaster"@[2] == 'b',
        "pubDate"@.len() == 7, "pubDate"@[0] == 'p', "pubDate"@[1] == 'u', "pubDate"@[2] == 'b',
        "lastBuildDate"@.len() == 13, "lastBuildDate"@[0] == 'l', "lastBuildDate"@[1] == 'a', "lastBuildDate"@[2] == 's',
        "docs"@.len() == 4, "docs"@[0] == 'd', "docs"@[1] == 'o', "docs"@[2] == 'c',
        "cloud"@.len() == 5, "cloud"@[0] == 'c', "cloud"@[1] == 'l', "cloud"@[2] == 'o',
        "ttl"@.len() == 3, "ttl"@[0] == 't', "ttl"@[1] == 't', "ttl"@[2] == 'l',
        "image"@.len() == 5, "image"@[0] == 'i', "image"@[1] == 'm', "image"@[2] == 'a',
        "textInput"@.len() == 9, "textInput"@[0] == 't', "textInput"@[1] == 'e', "textInput"@[2] == 'x',
        "skipHours"@.len() == 9, "skipHours"@[0] == 's', "skipHours"@[1] == 'k', "skipHours"@[2] == 'i',
        "skipDays"@.len() == 8, "skipDays"@[0] == 's', "skipDays"@[1] == 'k', "skipDays"@[2] == 'i',
        "items"@.len() == 5, "items"@[0] == 'i', "items"@[1] == 't', "items"@[2] == 'e',
        "type"@.len() == 4, "type"@[0] == 't', "type"@[1] == 'y', "type"@[2] == 'p',
        "value"@.len() == 5, "value"@[0] == 'v', "value"@[1] == 'a', "value"@[2] == 'l',
        "term"@.len() == 4, "term"@[0] == 't', "term"@[1] == 'e', "term"@[2] == 'r',
        "scheme"@.len() == 6, "scheme"@[0] == 's', "scheme"@[1] == 'c', "scheme"@[2] == 'h',
        "label"@.len() == 5, "label"@[0] == 'l', "label"@[1] == 'a', "label"@[2] == 'b',
        "href"@.len() == 4, "href"@[0] == 'h', "href"@[1] == 'r', "href"@[2] == 'e',
        "rel"@.len() == 3, "rel"@[0] == 'r', "rel"@[1] == 'e', "rel"@[2] == 'l',
        "hreflang"@.len() == 8, "hreflang"@[0] == 'h', "hreflang"@[1] == 'r', "hreflang"@[2] == 'e',
        "length"@.len() == 6, "length"@[0] == 'l', "length"@[1] == 'e', "length"@[2] == 'n',
        "uri"@.len() == 3, "uri"@[0] == 'u', "uri"@[1] == 'r', "uri"@[2] == 'i',
        "email"@.len() == 5, "email"@[0] == 'e', "email"@[1] == 'm', "email"@[2] == 'a',
        "src"@.len() == 3, "src"@[0] == 's', "src"@[1] == 'r', "src"@[2] == 'c',
        "width"@.len() == 5, "width"@[0] == 'w', "width"@[1] == 'i', "width"@[2] == 'd',
        "height"@.len() == 6, "height"@[0] == 'h', "height"@[1] == 'e', "height"@[2] == 'i',
        "domain"@.len() == 6, "domain"@[0] == 'd', "domain"@[1] == 'o', "domain"@[2] == 'm',
        "port"@.len() == 4, "port"@[0] == 'p', "port"@[1] == 'o', "port"@[2] == 'r',
        "path"@.len() == 4, "path"@[0] == 'p', "path"@[1] == 'a', "path"@[2] == 't',
        "registerProcedure"@.len() == 17, "registerProcedure"@[0] == 'r', "registerProcedure"@[1] == 'e', "registerProcedure"@[2] == 'g',
        "protocol"@.len() == 8, "protocol"@[0] == 'p', "protocol"@[1] == 'r', "protocol"@[2] == 'o',
        "author"@.len() == 6, "author"@[0] == 'a', "author"@[1] == 'u', "author"@[2] == 't',
        "comments"@.len() == 8, "comments"@[0] == 'c', "comments"@[1] == 'o', "comments"@[2] == 'm',
        "enclosure"@.len() == 9, "enclosure"@[0] == 'e', "enclosure"@[1] == 'n', "enclosure"@[2] == 'c',
        "guid"@.len() == 4, "guid"@[0] == 'g', "guid"@[1] == 'u', "guid"@[2] == 'i',
        "source"@.len() == 6, "source"@[0] == 's', "source"@[1] == 'o', "source"@[2] == 'u',
        "isPermaLink"@.len() == 11, "isPermaLink"@[0] == 'i', "isPermaLink"@[1] == 's', "isPermaLink"@[2] == 'P',
{
    reveal_strlit("format");
    reveal_strlit("version");
    reveal_strlit("entries");
    reveal_strlit("title");
    reveal_strlit("subtitle");
    reveal_strlit("id");
    reveal_strlit("links");
    reveal_strlit("logo");
    reveal_strlit("about");
    reveal_strlit("description");
    reveal_strlit("name");
    reveal_strlit("link");
    reveal_strlit("url");
    reveal_strlit("summary");
    reveal_strlit("published");
    reveal_strlit("updated");
    reveal_strlit("authors");
    reveal_strlit("contributors");
    reveal_strlit("categories");
    reveal_strlit("content");
    reveal_strlit("rights");
    reveal_strlit("generator");
    reveal_strlit("icon");
    reveal_strlit("language");
    reveal_strlit("copyright");
    reveal_strlit("managingEditor");
    reveal_strlit("webMaster");
    reveal_strlit("pubDate");
    reveal_strlit("lastBuildDate");
    reveal_strlit("docs");
    reveal_strlit("cloud");
    reveal_strlit("ttl");
    reveal_strlit("image");
    reveal_strlit("textInput");
    reveal_strlit("skipHours");
    reveal_strlit("skipDays");
    reveal_strlit("items");
    reveal_strlit("type");
    reveal_strlit("value");
    reveal_strlit("term");
    reveal_strlit("scheme");
    reveal_strlit("label");
    reveal_strlit("href");
    reveal_strlit("rel");
    reveal_strlit("hreflang");
    reveal_strlit("length");
    reveal_strlit("uri");
    reveal_strlit("email");
    reveal_strlit("src");
    reveal_strlit("width");
    reveal_strlit("height");
    reveal_strlit("domain");
    reveal_strlit("port");
    reveal_strlit("path");
    reveal_strlit("registerProcedure");
    reveal_strlit("protocol");
    reveal_strlit("author");
    reveal_strlit("comments");
    reveal_strlit("enclosure");
    reveal_strlit("guid");
    reveal_strlit("source");
    reveal_strlit("isPermaLink");
}

/// The text of an element's child, as a field value.
pub open spec fn child_text_value(e: Json, name: Seq<char>) -> Option<Json> {
    Some(Json::Str(text_of(find_child(e, name))))
}

/// An RDF text input carries its `rdf:about` as `about` where it has
/// one, and the trimmed text of its `title`, `description`, `name` and
/// `link` children under those names, each from its own child (the
/// empty text where the child is absent).
pub proof fn law_rdf_text_input_fields(e: Json)
    ensures
        ({
            let out = spec_parse_rss1_text_input(e);
            &&& get_field(out, "about"@) == match attribute(e, "rdf:about"@) {
                Some(a) => Some(Json::Str(a)),
                None => None,
            }
            &&& get_field(out, "title"@) == child_text_value(e, "title"@)
            &&& get_field(out, "description"@) == child_text_value(e, "description"@)
            &&& get_field(out, "name"@) == child_text_value(e, "name"@)
            &&& get_field(out, "link"@) == child_text_value(e, "link"@)
        }),
{
    let plan = seq![
        maybe_str("about"@, attribute(e, "rdf:about"@)),
        have_str("title"@, text_of(find_child(e, "title"@))),
        have_str("description"@, text_of(find_child(e, "description"@))),
        have_str("name"@, text_of(find_child(e, "name"@))),
        have_str("link"@, text_of(find_child(e, "link"@))),
    ];
    assert(spec_parse_rss1_text_input(e) == obj(plan));
    lemma_keys();
    lemma_read_at(plan, 0, "about"@);
    lemma_read_at(plan, 1, "title"@);
    lemma_read_at(plan, 2, "description"@);
    lemma_read_at(plan, 3, "name"@);
    lemma_read_at(plan, 4, "link"@);
}

/// `t` is the Atom text construct of the element `s`: its `type` is the
/// element's non-empty `type` attribute, else `text`; its `value` is the
/// markup inside the element (inside its `div`, where it has one) for
/// `xhtml`, and the element's trimmed text for every other type.
pub open spec fn is_construct_of(t: Json, s: Json) -> bool {
    let kind = match attribute_truthy(s, "type"@) {
        Some(k) => k,
        None => "text"@,
    };
    let body = match find_child(s, "div"@) {
        Some(d) => d,
        None => s,
    };
    &&& get_field(t, "type"@) == Some(Json::Str(kind))
    &&& get_field(t, "value"@) == Some(
        Json::Str(
            if kind == "xhtml"@ {
                inner_xml(Some(body))
            } else {
                text_of(Some(s))
            },
        ),
    )
}

/// The field `key` of `out` is the text construct of the child, and is
/// absent when the child is.
pub open spec fn construct_field(out: Json, key: Seq<char>, child: Option<Json>) -> bool {
    match child {
        Some(s) => get_field(out, key) matches Some(t) && is_construct_of(t, s),
        None => get_field(out, key) is None,
    }
}

/// The field `key` of `out` is the trimmed text of the child, and is
/// absent when the child is.
pub open spec fn text_field(out: Json, key: Seq<char>, child: Option<Json>) -> bool {
    get_field(out, key) == match child {
        Some(c) => Some(Json::Str(text_of(Some(c)))),
        None => None,
    }
}

/// The field `key` of `out` is the list of the items, and is absent when
/// there are none.
pub open spec fn list_field(out: Json, key: Seq<char>, items: Seq<Json>) -> bool {
    get_field(out, key) == if items.len() > 0 {
        Some(Json::Array(items))
    } else {
        None
    }
}

/// Every text construct is read as [`is_construct_of`] says.
pub proof fn law_text_construct(s: Json)
    ensures
        is_construct_of(spec_parse_text(s), s),
{
    let kind = match attribute_truthy(s, "type"@) {
        Some(k) => k,
        None => "text"@,
    };
    let body = match find_child(s, "div"@) {
        Some(d) => d,
        None => s,
    };
    let value = if kind == "xhtml"@ {
        inner_xml(Some(body))
    } else {
        text_of(Some(s))
    };
    let plan = seq![have_str("type"@, kind), have_str("value"@, value)];
    assert(spec_parse_text(s) == obj(plan));
    lemma_keys();
    lemma_read_at(plan, 0, "type"@);
    lemma_read_at(plan, 1, "value"@);
}

proof fn lemma_construct_field(out: Json, key: Seq<char>, child: Option<Json>)
    requires
        get_field(out, key) == match child {
            Some(s) => Some(spec_parse_text(s)),
            None => None,
        },
    ensures
        construct_field(out, key, child),
{
    if let Some(s) = child {
        law_text_construct(s);
    }
}

/// An Atom entry, field by field. Its `id` is the trimmed text of its `id`
/// child; its `title`, `rights` and `summary` are the text constructs of
/// those children (`copyright` and `tagline` in Atom 0.3); `updated` and
/// `published` are the texts of those children (`modified` and `issued`
/// in 0.3); people, categories and links are listed in document order and
/// present only when there is at least one; `content` is read from the
/// `content` child. Each field is absent when its child is.
pub proof fn law_atom_entry_fields(e: Json, atom03: bool)
    ensures
        ({
            let out = spec_parse_atom_entry(e, atom03);
            let updated = if atom03 { "modified"@ } else { "updated"@ };
            let published = if atom03 { "issued"@ } else { "published"@ };
            let rights = if atom03 { "copyright"@ } else { "rights"@ };
            let summary = if atom03 { "tagline"@ } else { "summary"@ };
            &&& text_field(out, "id"@, find_child(e, "id"@))
            &&& construct_field(out, "title"@, find_child(e, "title"@))
            &&& text_field(out, "updated"@, find_child(e, updated))
            &&& text_field(out, "published"@, find_child(e, published))
            &&& list_field(out, "authors"@, find_children(e, "author"@).map_values(|c| spec_parse_person(c)))
            &&& list_field(
                out,
                "contributors"@,
                find_children(e, "contributor"@).map_values(|c| spec_parse_person(c)),
            )
            &&& list_field(
                out,
                "categories"@,
                find_children(e, "category"@).map_values(|c| spec_parse_category(c)),
            )
            &&& list_field(out, "links"@, find_children(e, "link"@).map_values(|c| spec_parse_link(c)))
            &&& get_field(out, "content"@) == match find_child(e, "content"@) {
                Some(c) => Some(spec_parse_content(c)),
                None => None,
            }
            &&& construct_field(out, "rights"@, find_child(e, rights))
            &&& construct_field(out, "summary"@, find_child(e, summary))
        }),
{
    let updated = if atom03 { "modified"@ } else { "updated"@ };
    let published = if atom03 { "issued"@ } else { "published"@ };
    let rights = if atom03 { "copyright"@ } else { "rights"@ };
    let summary = if atom03 { "tagline"@ } else { "summary"@ };
    let plan = seq![
        text_child("id"@, find_child(e, "id"@)),
        construct_child("title"@, find_child(e, "title"@)),
        text_child("updated"@, find_child(e, by_version(atom03, "modified"@, "updated"@))),
        text_child("published"@, find_child(e, by_version(atom03, "issued"@, "published"@))),
        listed("authors"@, find_children(e, "author"@).map_values(|c| spec_parse_person(c))),
        listed(
            "contributors"@,
            find_children(e, "contributor"@).map_values(|c| spec_parse_person(c)),
        ),
        listed(
            "categories"@,
            find_children(e, "category"@).map_values(|c| spec_parse_category(c)),
        ),
        listed("links"@, find_children(e, "link"@).map_values(|c| spec_parse_link(c))),
        maybe(
            "content"@,
            match find_child(e, "content"@) {
                Some(c) => Some(spec_parse_content(c)),
                None => None,
            },
        ),
        construct_child("rights"@, find_child(e, by_version(atom03, "copyright"@, "rights"@))),
        construct_child("summary"@, find_child(e, by_version(atom03, "tagline"@, "summary"@))),
    ];
    assert(spec_parse_atom_entry(e, atom03) == obj(plan));
    let out = obj(plan);
    lemma_keys();
    lemma_read_at(plan, 0, "id"@);
    lemma_read_at(plan, 1, "title"@);
    lemma_read_at(plan, 2, "updated"@);
    lemma_read_at(plan, 3, "published"@);
    lemma_read_at(plan, 4, "authors"@);
    lemma_read_at(plan, 5, "contributors"@);
    lemma_read_at(plan, 6, "categories"@);
    lemma_read_at(plan, 7, "links"@);
    lemma_read_at(plan, 8, "content"@);
    lemma_read_at(plan, 9, "rights"@);
    lemma_read_at(plan, 10, "summary"@);
    lemma_construct_field(out, "title"@, find_child(e, "title"@));
    lemma_construct_field(out, "rights"@, find_child(e, rights));
    lemma_construct_field(out, "summary"@, find_child(e, summary));
}

/// The element an RSS feed's fields are read from: the root's `channel`
/// child, else the root itself.
pub open spec fn channel_of(root: Json) -> Json {
    match find_child(root, "channel"@) {
        Some(c) => c,
        None => root,
    }
}

/// The field `key` of `out` is what `f` reads from the child, and is
/// absent when the child is.
pub open spec fn read_field(out: Json, key: Seq<char>, child: Option<Json>, f: spec_fn(Json) -> Json) -> bool {
    get_field(out, key) == match child {
        Some(c) => Some(f(c)),
        None => None,
    }
}

/// An RSS channel in its native shape, field by field: `title`, `link`
/// and `description` are always there, the trimmed text of those children
/// (empty where a child is absent); `language`, `copyright`,
/// `managingEditor`, `webMaster`, `pubDate`, `lastBuildDate`, `generator`
/// and `docs` are the trimmed text of the child of that name and are
/// absent with it; `items` lists every `item` child in order; `ttl` is the
/// `parseInt` of its child's text; `skipHours` and `skipDays` list their
/// hours (read with `parseInt`) and days (as text) in order; the others
/// are read from their own child.
pub proof fn law_rss_channel_fields(root: Json, version: FeedVersion)
    ensures
        ({
            let c = channel_of(root);
            let out = spec_parse_rss2(root, version);
            &&& get_field(out, "title"@) == Some(Json::Str(text_of(find_child(c, "title"@))))
            &&& get_field(out, "link"@) == Some(Json::Str(text_of(find_child(c, "link"@))))
            &&& get_field(out, "description"@) == Some(
                Json::Str(text_of(find_child(c, "description"@))),
            )
            &&& get_field(out, "items"@) == Some(
                Json::Array(find_children(c, "item"@).map_values(|i| spec_parse_rss2_item(i))),
            )
            &&& text_field(out, "language"@, find_child(c, "language"@))
            &&& text_field(out, "copyright"@, find_child(c, "copyright"@))
            &&& text_field(out, "managingEditor"@, find_child(c, "managingEditor"@))
            &&& text_field(out, "webMaster"@, find_child(c, "webMaster"@))
            &&& text_field(out, "pubDate"@, find_child(c, "pubDate"@))
            &&& text_field(out, "lastBuildDate"@, find_child(c, "lastBuildDate"@))
            &&& list_field(
                out,
                "categories"@,
                find_children(c, "category"@).map_values(|x| spec_parse_rss2_category(x)),
            )
            &&& text_field(out, "generator"@, find_child(c, "generator"@))
            &&& text_field(out, "docs"@, find_child(c, "docs"@))
            &&& read_field(out, "cloud"@, find_child(c, "cloud"@), |x| spec_parse_rss2_cloud(x))
            &&& get_field(out, "ttl"@) == match find_child(c, "ttl"@) {
                Some(t) => Some(Json::Number(spec_js_parse_int(text_of(Some(t))))),
                None => None,
            }
            &&& read_field(out, "image"@, find_child(c, "image"@), |x| spec_parse_rss2_image(x))
            &&& read_field(
                out,
                "textInput"@,
                match find_child(c, "textInput"@) {
                    Some(t) => Some(t),
                    None => find_child(c, "textinput"@),
                },
                |x| spec_parse_rss2_text_input(x),
            )
            &&& match find_child(c, "skipHours"@) {
                Some(h) => get_field(out, "skipHours"@) matches Some(Json::Array(hours)) && hours.len()
                    == find_children(h, "hour"@).len() && forall|k: int|
                    0 <= k < hours.len() ==> #[trigger] hours[k] == Json::Number(
                        spec_js_parse_int(text_of(Some(find_children(h, "hour"@)[k]))),
                    ),
                None => get_field(out, "skipHours"@) is None,
            }
            &&& match find_child(c, "skipDays"@) {
                Some(d) => get_field(out, "skipDays"@) matches Some(Json::Array(days)) && days.len()
                    == find_children(d, "day"@).len() && forall|k: int|
                    0 <= k < days.len() ==> #[trigger] days[k] == Json::Str(
                        text_of(Some(find_children(d, "day"@)[k])),
                    ),
                None => get_field(out, "skipDays"@) is None,
            }
        }),
{
    let c = channel_of(root);
    let plan = rss2_head(c, version) + rss2_tail(c);
    assert(spec_parse_rss2(root, version) == obj(plan));
    lemma_rss_channel_reads_0(c, version);
    lemma_rss_channel_reads_1(c, version);
    lemma_rss_channel_reads_2(c, version);
    lemma_rss_channel_reads_3(c, version);
}

#[verifier::spinoff_prover]
#[verifier::rlimit(40)]
proof fn lemma_rss_channel_reads_0(c: Json, version: FeedVersion)
    ensures
        lookup(present(rss2_head(c, version) + rss2_tail(c)), "title"@) == match (rss2_head(c, version) + rss2_tail(c))[2] {
            Some(p) => Some(p.1),
            None => None,
        },
        lookup(present(rss2_head(c, version) + rss2_tail(c)), "link"@) == match (rss2_head(c, version) + rss2_tail(c))[3] {
            Some(p) => Some(p.1),
            None => None,
        },
        lookup(present(rss2_head(c, version) + rss2_tail(c)), "description"@) == match (rss2_head(c, version) + rss2_tail(c))[4] {
            Some(p) => Some(p.1),
            None => None,
        },
        lookup(present(rss2_head(c, version) + rss2_tail(c)), "items"@) == match (rss2_head(c, version) + rss2_tail(c))[5] {
            Some(p) => Some(p.1),
            None => None,
        },
        lookup(present(rss2_head(c, version) + rss2_tail(c)), "language"@) == match (rss2_head(c, version) + rss2_tail(c))[6] {
            Some(p) => Some(p.1),
            None => None,
        },
{
    let plan = rss2_head(c, version) + rss2_tail(c);
    lemma_keys();
    lemma_read_at(plan, 2, "title"@);
    lemma_read_at(plan, 3, "link"@);
    lemma_read_at(plan, 4, "description"@);
    lemma_read_at(plan, 5, "items"@);
    lemma_read_at(plan, 6, "language"@);
}

#[verifier::spinoff_prover]
#[verifier::rlimit(40)]
proof fn lemma_rss_channel_reads_1(c: Json, version: FeedVersion)
    ensures
        lookup(present(rss2_head(c, version) + rss2_tail(c)), "copyright"@) == match (rss2_head(c, version) + rss2_tail(c))[7] {
            Some(p) => Some(p.1),
            None => None,
        },
        lookup(present(rss2_head(c, version) + rss2_tail(c)), "managingEditor"@) == match (rss2_head(c, version) + rss2_tail(c))[8] {
            Some(p) => Some(p.1),
            None => None,
        },
        lookup(present(rss2_head(c, version) + rss2_tail(c)), "webMaster"@) == match (rss2_head(c, version) + rss2_tail(c))[9] {
            Some(p) => Some(p.1),
            None => None,
        },
        lookup(present(rss2_head(c, version) + rss2_tail(c)), "pubDate"@) == match (rss2_head(c, version) + rss2_tail(c))[10] {
            Some(p) => Some(p.1),
            None => None,
        },
        lookup(present(rss2_head(c, version) + rss2_tail(c)), "lastBuildDate"@) == match (rss2_head(c, version) + rss2_tail(c))[11] {
            Some(p) => Some(p.1),
            None => None,
        },
{
    let plan = rss2_head(c, version) + rss2_tail(c);
    lemma_keys();
    lemma_read_at(plan, 7, "copyright"@);
    lemma_read_at(plan, 8, "managingEditor"@);
    lemma_read_at(plan, 9, "webMaster"@);
    lemma_read_at(plan, 10, "pubDate"@);
    lemma_read_at(plan, 11, "lastBuildDate"@);
}

#[verifier::spinoff_prover]
#[verifier::rlimit(40)]
proof fn lemma_rss_channel_reads_2(c: Json, version: FeedVersion)
    ensures
        lookup(present(rss2_head(c, version) + rss2_tail(c)), "categories"@) == match (rss2_head(c, version) + rss2_tail(c))[12] {
            Some(p) => Some(p.1),
            None => None,
        },
        lookup(present(rss2_head(c, version) + rss2_tail(c)), "generator"@) == match (rss2_head(c, version) + rss2_tail(c))[13] {
            Some(p) => Some(p.1),
            None => None,
        },
        lookup(present(rss2_head(c, version) + rss2_tail(c)), "docs"@) == match (rss2_head(c, version) + rss2_tail(c))[14] {
            Some(p) => Some(p.1),
            None => None,
        },
        lookup(present(rss2_head(c, version) + rss2_tail(c)), "cloud"@) == match (rss2_head(c, version) + rss2_tail(c))[15] {
            Some(p) => Some(p.1),
            None => None,
        },
        lookup(present(rss2_head(c, version) + rss2_tail(c)), "ttl"@) == match (rss2_head(c, version) + rss2_tail(c))[16] {
            Some(p) => Some(p.1),
            None => None,
        },
{
    let plan = rss2_head(c, version) + rss2_tail(c);
    lemma_keys();
    lemma_read_at(plan, 12, "categories"@);
    lemma_read_at(plan, 13, "generator"@);
    lemma_read_at(plan, 14, "docs"@);
    lemma_read_at(plan, 15, "cloud"@);
    lemma_read_at(plan, 16, "ttl"@);
}

#[verifier::spinoff_prover]
#[verifier::rlimit(40)]
proof fn lemma_rss_channel_reads_3(c: Json, version: FeedVersion)
    ensures
        lookup(present(rss2_head(c, version) + rss2_tail(c)), "image"@) == match (rss2_head(c, version) + rss2_tail(c))[17] {
            Some(p) => Some(p.1),
            None => None,
        },
        lookup(present(rss2_head(c, version) + rss2_tail(c)), "textInput"@) == match (rss2_head(c, version) + rss2_tail(c))[18] {
            Some(p) => Some(p.1),
            None => None,
        },
        lookup(present(rss2_head(c, version) + rss2_tail(c)), "skipHours"@) == match (rss2_head(c, version) + rss2_tail(c))[19] {
            Some(p) => Some(p.1),
            None => None,
        },
        lookup(present(rss2_head(c, version) + rss2_tail(c)), "skipDays"@) == match (rss2_head(c, version) + rss2_tail(c))[20] {
            Some(p) => Some(p.1),
            None => None,
        },
{
    let plan = rss2_head(c, version) + rss2_tail(c);
    lemma_keys();
    lemma_read_at(plan, 17, "image"@);
    lemma_read_at(plan, 18, "textInput"@);
    lemma_read_at(plan, 19, "skipHours"@);
    lemma_read_at(plan, 20, "skipDays"@);
}

/// A text field of a mapped value that is there and not empty.
pub open spec fn filled(j: Json, key: Seq<char>) -> Option<Seq<char>> {
    match get_field(j, key) {
        Some(Json::Str(t)) => if t.len() > 0 {
            Some(t)
        } else {
            None
        },
        _ => None,
    }
}

/// The text, as a field value.
pub open spec fn as_str(o: Option<Seq<char>>) -> Option<Json> {
    match o {
        Some(t) => Some(Json::Str(t)),
        None => None,
    }
}

/// The first of two texts that is there.
pub open spec fn either(a: Option<Seq<char>>, b: Option<Seq<char>>) -> Option<Seq<char>> {
    if a is Some {
        a
    } else {
        b
    }
}

/// A text construct of this type over the text, where there is one.
pub open spec fn construct_text(kind: Seq<char>, o: Option<Seq<char>>) -> Option<Json> {
    match o {
        Some(t) => Some(spec_atom_text(kind, t)),
        None => None,
    }
}

/// A list of one link to `href` with relation `rel`, where there is one.
pub open spec fn link_list(href: Option<Seq<char>>, rel: Seq<char>) -> Option<Json> {
    match href {
        Some(h) => Some(Json::Array(seq![obj(seq![have_str("href"@, h), have_str("rel"@, rel)])])),
        None => None,
    }
}

/// A list of one person read from an RSS person field, where there is one.
pub open spec fn person_list(o: Option<Seq<char>>) -> Option<Json> {
    match o {
        Some(t) => Some(Json::Array(seq![spec_rss_person(t)])),
        None => None,
    }
}

/// The items of a list field.
pub open spec fn items_of(j: Json, key: Seq<char>) -> Seq<Json> {
    match get_field(j, key) {
        Some(Json::Array(items)) => items,
        _ => Seq::empty(),
    }
}

/// A native RSS item as an Atom entry, field by field: the non-empty
/// `title` is a text construct and the non-empty `description` an html
/// construct `summary`; a non-empty `pubDate` is both `published` and
/// `updated`; the `id` is the guid's value where the item has a guid (the
/// empty text where the guid has none), else its non-empty link, else
/// absent; a non-empty `author` is the one author. A field whose source is
/// missing or empty is absent.
pub proof fn law_rss_item_to_atom_entry(item: Json)
    ensures
        ({
            let out = spec_rss2_item_to_atom_entry(item);
            &&& get_field(out, "title"@) == construct_text("text"@, filled(item, "title"@))
            &&& get_field(out, "summary"@) == construct_text("html"@, filled(item, "description"@))
            &&& get_field(out, "published"@) == as_str(filled(item, "pubDate"@))
            &&& get_field(out, "updated"@) == as_str(filled(item, "pubDate"@))
            &&& get_field(out, "id"@) == match get_field(item, "guid"@) {
                Some(g) => Some(
                    Json::Str(
                        match get_field(g, "value"@) {
                            Some(Json::Str(v)) => v,
                            _ => Seq::empty(),
                        },
                    ),
                ),
                None => as_str(filled(item, "link"@)),
            }
            &&& get_field(out, "authors"@) == person_list(filled(item, "author"@))
        }),
{
    let plan = seq![
            text_construct("title"@, "text"@, truthy(item, "title"@)),
            text_construct("summary"@, "html"@, truthy(item, "description"@)),
            maybe_str("published"@, truthy(item, "pubDate"@)),
            maybe_str("updated"@, truthy(item, "pubDate"@)),
            maybe_str("id"@, crate::to_atom::item_id(item)),
            listed("links"@, item_links(item)),
            one_person("authors"@, truthy(item, "author"@)),
            listed("categories"@, list(item, "categories"@).map_values(|c| spec_category_to_atom(c))),
            maybe(
                "source"@,
                match get_field(item, "source"@) {
                    Some(s) => Some(spec_source_feed(s)),
                    None => None,
                },
            ),
    ];
    assert(spec_rss2_item_to_atom_entry(item) == obj(plan));
    lemma_keys();
    lemma_read_at(plan, 0, "title"@);
    lemma_read_at(plan, 1, "summary"@);
    lemma_read_at(plan, 2, "published"@);
    lemma_read_at(plan, 3, "updated"@);
    lemma_read_at(plan, 4, "id"@);
    lemma_read_at(plan, 6, "authors"@);
}

/// A native RDF item as an Atom entry: the non-empty `title` and
/// `description` are text constructs `title` and `summary`; the `id` is
/// always there: the non-empty `about`, else the `link` text (empty or
/// not), else the empty text; a non-empty link is the one alternate link.
pub proof fn law_rdf_item_to_atom_entry(item: Json)
    ensures
        ({
            let out = spec_rss1_item_to_atom_entry(item);
            &&& get_field(out, "title"@) == construct_text("text"@, filled(item, "title"@))
            &&& get_field(out, "summary"@) == construct_text("text"@, filled(item, "description"@))
            &&& get_field(out, "id"@) == Some(
                Json::Str(
                    match filled(item, "about"@) {
                        Some(a) => a,
                        None => match get_field(item, "link"@) {
                            Some(Json::Str(l)) => l,
                            _ => Seq::empty(),
                        },
                    },
                ),
            )
            &&& get_field(out, "links"@) == link_list(filled(item, "link"@), "alternate"@)
        }),
{
    let plan = seq![
            text_construct("title"@, "text"@, truthy(item, "title"@)),
            text_construct("summary"@, "text"@, truthy(item, "description"@)),
            have_str(
                "id"@,
                crate::element::or_text(first_of(truthy(item, "about"@), str_field(item, "link"@)), Seq::empty()),
            ),
            one_link("links"@, truthy(item, "link"@), "alternate"@),
    ];
    assert(spec_rss1_item_to_atom_entry(item) == obj(plan));
    lemma_keys();
    lemma_read_at(plan, 0, "title"@);
    lemma_read_at(plan, 1, "summary"@);
    lemma_read_at(plan, 2, "id"@);
    lemma_read_at(plan, 3, "links"@);
}

/// A native RDF feed as an Atom feed: the non-empty `title` and
/// `description` are text constructs `title` and `subtitle`; the `id` is
/// the non-empty `about`, else the non-empty `link`, else absent; a
/// non-empty link is the one alternate link; the image's non-empty url is
/// the `logo`; each item becomes an entry, in order.
pub proof fn law_rdf_to_atom_feed(rss: Json)
    ensures
        ({
            let out = spec_rss1_to_atom(rss);
            &&& get_field(out, "entries"@) == Some(
                Json::Array(items_of(rss, "items"@).map_values(|i| spec_rss1_item_to_atom_entry(i))),
            )
            &&& get_field(out, "title"@) == construct_text("text"@, filled(rss, "title"@))
            &&& get_field(out, "subtitle"@) == construct_text("text"@, filled(rss, "description"@))
            &&& get_field(out, "id"@) == as_str(either(filled(rss, "about"@), filled(rss, "link"@)))
            &&& get_field(out, "links"@) == link_list(filled(rss, "link"@), "alternate"@)
            &&& get_field(out, "logo"@) == as_str(
                match get_field(rss, "image"@) {
                    Some(image) => filled(image, "url"@),
                    None => None,
                },
            )
        }),
{
    let plan = rss1_to_atom_plan(rss);
    assert(spec_rss1_to_atom(rss) == obj(plan));
    lemma_keys();
    lemma_read_at(plan, 2, "entries"@);
    lemma_read_at(plan, 3, "title"@);
    lemma_read_at(plan, 4, "subtitle"@);
    lemma_read_at(plan, 5, "id"@);
    lemma_read_at(plan, 6, "links"@);
    lemma_read_at(plan, 7, "logo"@);
}

/// A native RSS feed as an Atom feed: the non-empty `title`, `description`
/// and `copyright` are text constructs `title`, `subtitle` and `rights`;
/// the non-empty `link` is the `id` and the one alternate link;
/// `updated` is the non-empty `lastBuildDate`, else the non-empty
/// `pubDate`; a non-empty `generator` is the generator's value; the
/// image's non-empty url is the `logo`; the non-empty `managingEditor`,
/// else the non-empty `webMaster`, is the one author; each item becomes an
/// entry, in order.
pub proof fn law_rss_to_atom_feed(rss: Json)
    ensures
        ({
            let out = spec_rss2_to_atom(rss);
            &&& get_field(out, "entries"@) == Some(
                Json::Array(items_of(rss, "items"@).map_values(|i| spec_rss2_item_to_atom_entry(i))),
            )
            &&& get_field(out, "title"@) == construct_text("text"@, filled(rss, "title"@))
            &&& get_field(out, "subtitle"@) == construct_text("text"@, filled(rss, "description"@))
            &&& get_field(out, "rights"@) == construct_text("text"@, filled(rss, "copyright"@))
            &&& get_field(out, "id"@) == as_str(filled(rss, "link"@))
            &&& get_field(out, "updated"@) == as_str(
                either(filled(rss, "lastBuildDate"@), filled(rss, "pubDate"@)),
            )
            &&& get_field(out, "generator"@) == match filled(rss, "generator"@) {
                Some(g) => Some(obj(seq![have_str("value"@, g)])),
                None => None,
            }
            &&& get_field(out, "logo"@) == as_str(
                match get_field(rss, "image"@) {
                    Some(image) => filled(image, "url"@),
                    None => None,
                },
            )
            &&& get_field(out, "links"@) == link_list(filled(rss, "link"@), "alternate"@)
            &&& get_field(out, "authors"@) == person_list(
                either(filled(rss, "managingEditor"@), filled(rss, "webMaster"@)),
            )
        }),
{
    lemma_rss_to_atom_reads_0(rss);
    lemma_rss_to_atom_reads_1(rss);
}

#[verifier::spinoff_prover]
proof fn lemma_rss_to_atom_reads_0(rss: Json)
    ensures
        ({
            let out = spec_rss2_to_atom(rss);
            &&& get_field(out, "entries"@) == Some(
                Json::Array(items_of(rss, "items"@).map_values(|i| spec_rss2_item_to_atom_entry(i))),
            )
            &&& get_field(out, "title"@) == construct_text("text"@, filled(rss, "title"@))
            &&& get_field(out, "subtitle"@) == construct_text("text"@, filled(rss, "description"@))
            &&& get_field(out, "rights"@) == construct_text("text"@, filled(rss, "copyright"@))
            &&& get_field(out, "id"@) == as_str(filled(rss, "link"@))
        }),
{
    let plan = rss2_to_atom_plan(rss);
    assert(spec_rss2_to_atom(rss) == obj(plan));
    lemma_keys();
    lemma_read_at(plan, 2, "entries"@);
    lemma_read_at(plan, 3, "title"@);
    lemma_read_at(plan, 4, "subtitle"@);
    lemma_read_at(plan, 5, "rights"@);
    lemma_read_at(plan, 6, "id"@);
}

#[verifier::spinoff_prover]
proof fn lemma_rss_to_atom_reads_1(rss: Json)
    ensures
        ({
            let out = spec_rss2_to_atom(rss);
            &&& get_field(out, "updated"@) == as_str(
                either(filled(rss, "lastBuildDate"@), filled(rss, "pubDate"@)),
            )
            &&& get_field(out, "generator"@) == match filled(rss, "generator"@) {
                Some(g) => Some(obj(seq![have_str("value"@, g)])),
                None => None,
            }
            &&& get_field(out, "logo"@) == as_str(
                match get_field(rss, "image"@) {
                    Some(image) => filled(image, "url"@),
                    None => None,
                },
            )
            &&& get_field(out, "links"@) == link_list(filled(rss, "link"@), "alternate"@)
            &&& get_field(out, "authors"@) == person_list(
                either(filled(rss, "managingEditor"@), filled(rss, "webMaster"@)),
            )
        }),
{
    let plan = rss2_to_atom_plan(rss);
    assert(spec_rss2_to_atom(rss) == obj(plan));
    lemma_keys();
    lemma_read_at(plan, 7, "updated"@);
    lemma_read_at(plan, 8, "generator"@);
    lemma_read_at(plan, 9, "logo"@);
    lemma_read_at(plan, 10, "links"@);
    lemma_read_at(plan, 12, "authors"@);
}

/// The trimmed text of an element that may be absent, where it is not
/// empty.
pub open spec fn nonempty_text(o: Option<Json>) -> Option<Seq<char>> {
    if text_of(o).len() > 0 {
        Some(text_of(o))
    } else {
        None
    }
}

/// An attribute that is there and not empty.
pub open spec fn attr_filled(e: Json, name: Seq<char>) -> Option<Seq<char>> {
    match attribute(e, name) {
        Some(a) => if a.len() > 0 {
            Some(a)
        } else {
            None
        },
        None => None,
    }
}

/// An Atom feed in its own shape, field by field: `format` is `atom` and
/// `version` `0.3` or `1.0`; every `entry` child becomes an entry, in
/// order; `id`, `updated` (`modified` in 0.3), `icon` and `logo` are the
/// trimmed texts of those children; `title`, `rights` (`copyright` in
/// 0.3) and `subtitle` (`tagline` in 0.3) are their text constructs;
/// people, categories and links are listed in order and present only when
/// there is at least one; `generator` is read from its child. Each field
/// read from a child is absent when the child is.
pub proof fn law_atom_feed_fields(root: Json, atom03: bool)
    ensures
        ({
            let out = spec_parse_atom(root, atom03);
            let updated = if atom03 { "modified"@ } else { "updated"@ };
            let rights = if atom03 { "copyright"@ } else { "rights"@ };
            let subtitle = if atom03 { "tagline"@ } else { "subtitle"@ };
            &&& get_field(out, "format"@) == Some(Json::Str("atom"@))
            &&& get_field(out, "version"@) == Some(Json::Str(if atom03 { "0.3"@ } else { "1.0"@ }))
            &&& get_field(out, "entries"@) == Some(
                Json::Array(find_children(root, "entry"@).map_values(|c| spec_parse_atom_entry(c, atom03))),
            )
            &&& text_field(out, "id"@, find_child(root, "id"@))
            &&& construct_field(out, "title"@, find_child(root, "title"@))
            &&& text_field(out, "updated"@, find_child(root, updated))
            &&& list_field(out, "authors"@, find_children(root, "author"@).map_values(|c| spec_parse_person(c)))
            &&& list_field(
                out,
                "contributors"@,
                find_children(root, "contributor"@).map_values(|c| spec_parse_person(c)),
            )
            &&& list_field(
                out,
                "categories"@,
                find_children(root, "category"@).map_values(|c| spec_parse_category(c)),
            )
            &&& list_field(out, "links"@, find_children(root, "link"@).map_values(|c| spec_parse_link(c)))
            &&& read_field(out, "generator"@, find_child(root, "generator"@), |c| spec_parse_generator(c))
            &&& text_field(out, "icon"@, find_child(root, "icon"@))
            &&& text_field(out, "logo"@, find_child(root, "logo"@))
            &&& construct_field(out, "rights"@, find_child(root, rights))
            &&& construct_field(out, "subtitle"@, find_child(root, subtitle))
        }),
{
    lemma_atom_feed_reads_0(root, atom03);
    lemma_atom_feed_reads_1(root, atom03);
    let out = spec_parse_atom(root, atom03);
    let rights = if atom03 { "copyright"@ } else { "rights"@ };
    let subtitle = if atom03 { "tagline"@ } else { "subtitle"@ };
    lemma_construct_field(out, "title"@, find_child(root, "title"@));
    lemma_construct_field(out, "rights"@, find_child(root, rights));
    lemma_construct_field(out, "subtitle"@, find_child(root, subtitle));
}

#[verifier::spinoff_prover]
proof fn lemma_atom_feed_reads_0(root: Json, atom03: bool)
    ensures
        ({
            let plan = atom_head(root, atom03) + atom_tail(root, atom03);
            let out = spec_parse_atom(root, atom03);
            &&& get_field(out, "format"@) == Some(Json::Str("atom"@))
            &&& get_field(out, "version"@) == Some(Json::Str(if atom03 { "0.3"@ } else { "1.0"@ }))
            &&& get_field(out, "entries"@) == Some(
                Json::Array(find_children(root, "entry"@).map_values(|c| spec_parse_atom_entry(c, atom03))),
            )
            &&& text_field(out, "id"@, find_child(root, "id"@))
            &&& get_field(out, "title"@) == match find_child(root, "title"@) {
                Some(c) => Some(spec_parse_text(c)),
                None => None,
            }
            &&& text_field(out, "updated"@, find_child(root, if atom03 { "modified"@ } else { "updated"@ }))
            &&& list_field(out, "authors"@, find_children(root, "author"@).map_values(|c| spec_parse_person(c)))
            &&& list_field(
                out,
                "contributors"@,
                find_children(root, "contributor"@).map_values(|c| spec_parse_person(c)),
            )
        }),
{
    let plan = atom_head(root, atom03) + atom_tail(root, atom03);
    assert(spec_parse_atom(root, atom03) == obj(plan));
    lemma_keys();
    lemma_read_at(plan, 0, "format"@);
    lemma_read_at(plan, 1, "version"@);
    lemma_read_at(plan, 2, "entries"@);
    lemma_read_at(plan, 3, "id"@);
    lemma_read_at(plan, 4, "title"@);
    lemma_read_at(plan, 5, "updated"@);
    lemma_read_at(plan, 6, "authors"@);
    lemma_read_at(plan, 7, "contributors"@);
}

#[verifier::spinoff_prover]
proof fn lemma_atom_feed_reads_1(root: Json, atom03: bool)
    ensures
        ({
            let out = spec_parse_atom(root, atom03);
            &&& list_field(
                out,
                "categories"@,
                find_children(root, "category"@).map_values(|c| spec_parse_category(c)),
            )
            &&& list_field(out, "links"@, find_children(root, "link"@).map_values(|c| spec_parse_link(c)))
            &&& read_field(out, "generator"@, find_child(root, "generator"@), |c| spec_parse_generator(c))
            &&& text_field(out, "icon"@, find_child(root, "icon"@))
            &&& text_field(out, "logo"@, find_child(root, "logo"@))
            &&& get_field(out, "rights"@) == match find_child(root, if atom03 { "copyright"@ } else { "rights"@ }) {
                Some(c) => Some(spec_parse_text(c)),
                None => None,
            }
            &&& get_field(out, "subtitle"@) == match find_child(root, if atom03 { "tagline"@ } else { "subtitle"@ }) {
                Some(c) => Some(spec_parse_text(c)),
                None => None,
            }
        }),
{
    let plan = atom_head(root, atom03) + atom_tail(root, atom03);
    assert(spec_parse_atom(root, atom03) == obj(plan));
    lemma_keys();
    lemma_read_at(plan, 8, "categories"@);
    lemma_read_at(plan, 9, "links"@);
    lemma_read_at(plan, 10, "generator"@);
    lemma_read_at(plan, 11, "icon"@);
    lemma_read_at(plan, 12, "logo"@);
    lemma_read_at(plan, 13, "rights"@);
    lemma_read_at(plan, 14, "subtitle"@);
}

/// An Atom person: `name` is the trimmed text of its `name` child (empty
/// where absent); `uri` is the non-empty text of its `uri` child, else of
/// its `url` child; `email` the non-empty text of its `email` child.
pub proof fn law_atom_person_fields(e: Json)
    ensures
        ({
            let out = spec_parse_person(e);
            &&& get_field(out, "name"@) == Some(Json::Str(text_of(find_child(e, "name"@))))
            &&& get_field(out, "uri"@) == as_str(
                either(nonempty_text(find_child(e, "uri"@)), nonempty_text(find_child(e, "url"@))),
            )
            &&& get_field(out, "email"@) == as_str(nonempty_text(find_child(e, "email"@)))
        }),
{
    let uri = match crate::element::text_or_none(find_child(e, "uri"@)) {
        Some(u) => Some(u),
        None => crate::element::text_or_none(find_child(e, "url"@)),
    };
    let plan = seq![
            have_str("name"@, text_of(find_child(e, "name"@))),
            maybe_str("uri"@, uri),
            maybe_str("email"@, crate::element::text_or_none(find_child(e, "email"@))),
    ];
    assert(spec_parse_person(e) == obj(plan));
    lemma_keys();
    lemma_read_at(plan, 0, "name"@);
    lemma_read_at(plan, 1, "uri"@);
    lemma_read_at(plan, 2, "email"@);
}

/// An Atom link: `href` is its `href` attribute (empty where absent);
/// `rel`, `type`, `hreflang` and `title` are those attributes where they
/// are not empty; `length` is the `parseInt` of a non-empty `length`.
pub proof fn law_atom_link_fields(e: Json)
    ensures
        ({
            let out = spec_parse_link(e);
            &&& get_field(out, "href"@) == Some(
                Json::Str(
                    match attribute(e, "href"@) {
                        Some(h) => h,
                        None => Seq::empty(),
                    },
                ),
            )
            &&& get_field(out, "rel"@) == as_str(attr_filled(e, "rel"@))
            &&& get_field(out, "type"@) == as_str(attr_filled(e, "type"@))
            &&& get_field(out, "hreflang"@) == as_str(attr_filled(e, "hreflang"@))
            &&& get_field(out, "title"@) == as_str(attr_filled(e, "title"@))
            &&& get_field(out, "length"@) == match attr_filled(e, "length"@) {
                Some(l) => Some(Json::Number(spec_js_parse_int(l))),
                None => None,
            }
        }),
{
    let plan = seq![
            have_str("href"@, crate::element::or_text(attribute(e, "href"@), Seq::empty())),
            maybe_str("rel"@, attribute_truthy(e, "rel"@)),
            maybe_str("type"@, attribute_truthy(e, "type"@)),
            maybe_str("hreflang"@, attribute_truthy(e, "hreflang"@)),
            maybe_str("title"@, attribute_truthy(e, "title"@)),
            crate::atom::maybe_int("length"@, attribute_truthy(e, "length"@)),
    ];
    assert(spec_parse_link(e) == obj(plan));
    lemma_keys();
    lemma_read_at(plan, 0, "href"@);
    lemma_read_at(plan, 1, "rel"@);
    lemma_read_at(plan, 2, "type"@);
    lemma_read_at(plan, 3, "hreflang"@);
    lemma_read_at(plan, 4, "title"@);
    lemma_read_at(plan, 5, "length"@);
}

/// An Atom category: `term` is its non-empty `term` attribute, else its
/// trimmed text; `scheme` and `label` are those attributes wherever they
/// are there, empty or not.
pub proof fn law_atom_category_fields(e: Json)
    ensures
        ({
            let out = spec_parse_category(e);
            &&& get_field(out, "term"@) == Some(
                Json::Str(
                    match attr_filled(e, "term"@) {
                        Some(t) => t,
                        None => text_of(Some(e)),
                    },
                ),
            )
            &&& get_field(out, "scheme"@) == as_str(attribute(e, "scheme"@))
            &&& get_field(out, "label"@) == as_str(attribute(e, "label"@))
        }),
{
    let term = match attribute_truthy(e, "term"@) {
        Some(t) => t,
        None => text_of(Some(e)),
    };
    let plan = seq![
            have_str("term"@, term),
            maybe_str("scheme"@, attribute(e, "scheme"@)),
            maybe_str("label"@, attribute(e, "label"@)),
    ];
    assert(spec_parse_category(e) == obj(plan));
    lemma_keys();
    lemma_read_at(plan, 0, "term"@);
    lemma_read_at(plan, 1, "scheme"@);
    lemma_read_at(plan, 2, "label"@);
}

/// Atom content: read as a text construct, with its non-empty `src`
/// attribute as `src`.
pub proof fn law_atom_content_fields(e: Json)
    ensures
        ({
            let out = spec_parse_content(e);
            &&& is_construct_of(out, e)
            &&& get_field(out, "src"@) == as_str(attr_filled(e, "src"@))
        }),
{
    let kind = crate::atom::text_kind(e);
    let plan = seq![
            have_str("type"@, kind),
            maybe_str("src"@, attribute_truthy(e, "src"@)),
            have_str(
                "value"@,
                if kind == "xhtml"@ {
                    inner_xml(Some(crate::atom::xhtml_body(e)))
                } else {
                    text_of(Some(e))
                },
            ),
    ];
    assert(spec_parse_content(e) == obj(plan));
    lemma_keys();
    lemma_read_at(plan, 0, "type"@);
    lemma_read_at(plan, 1, "src"@);
    lemma_read_at(plan, 2, "value"@);
}

/// An Atom generator: `uri` and `version` are those attributes wherever
/// they are there; `value` is its trimmed text.
pub proof fn law_atom_generator_fields(e: Json)
    ensures
        ({
            let out = spec_parse_generator(e);
            &&& get_field(out, "uri"@) == as_str(attribute(e, "uri"@))
            &&& get_field(out, "version"@) == as_str(attribute(e, "version"@))
            &&& get_field(out, "value"@) == Some(Json::Str(text_of(Some(e))))
        }),
{
    let plan = seq![
            maybe_str("uri"@, attribute(e, "uri"@)),
            maybe_str("version"@, attribute(e, "version"@)),
            have_str("value"@, text_of(Some(e))),
    ];
    assert(spec_parse_generator(e) == obj(plan));
    lemma_keys();
    lemma_read_at(plan, 0, "uri"@);
    lemma_read_at(plan, 1, "version"@);
    lemma_read_at(plan, 2, "value"@);
}

/// An RSS item in its native shape: `title`, `link`, `description`,
/// `author`, `comments` and `pubDate` are the trimmed texts of those
/// children and absent with them; its categories are listed in order and
/// present only when there is one; `enclosure`, `guid` and `source` are
/// read from their own child.
pub proof fn law_rss_item_fields(e: Json)
    ensures
        ({
            let out = spec_parse_rss2_item(e);
            &&& text_field(out, "title"@, find_child(e, "title"@))
            &&& text_field(out, "link"@, find_child(e, "link"@))
            &&& text_field(out, "description"@, find_child(e, "description"@))
            &&& text_field(out, "author"@, find_child(e, "author"@))
            &&& list_field(
                out,
                "categories"@,
                find_children(e, "category"@).map_values(|c| spec_parse_rss2_category(c)),
            )
            &&& text_field(out, "comments"@, find_child(e, "comments"@))
            &&& read_field(out, "enclosure"@, find_child(e, "enclosure"@), |c| spec_enclosure(c))
            &&& read_field(out, "guid"@, find_child(e, "guid"@), |c| spec_guid(c))
            &&& text_field(out, "pubDate"@, find_child(e, "pubDate"@))
            &&& read_field(out, "source"@, find_child(e, "source"@), |c| spec_source(c))
        }),
{
    let plan = seq![
            text_child("title"@, find_child(e, "title"@)),
            text_child("link"@, find_child(e, "link"@)),
            text_child("description"@, find_child(e, "description"@)),
            text_child("author"@, find_child(e, "author"@)),
            listed(
                "categories"@,
                find_children(e, "category"@).map_values(|c| spec_parse_rss2_category(c)),
            ),
            text_child("comments"@, find_child(e, "comments"@)),
            crate::rss::child_as("enclosure"@, find_child(e, "enclosure"@), |c| spec_enclosure(c)),
            crate::rss::child_as("guid"@, find_child(e, "guid"@), |c| spec_guid(c)),
            text_child("pubDate"@, find_child(e, "pubDate"@)),
            crate::rss::child_as("source"@, find_child(e, "source"@), |c| spec_source(c)),
    ];
    assert(spec_parse_rss2_item(e) == obj(plan));
    lemma_keys();
    lemma_read_at(plan, 0, "title"@);
    lemma_read_at(plan, 1, "link"@);
    lemma_read_at(plan, 2, "description"@);
    lemma_read_at(plan, 3, "author"@);
    lemma_read_at(plan, 4, "categories"@);
    lemma_read_at(plan, 5, "comments"@);
    lemma_read_at(plan, 6, "enclosure"@);
    lemma_read_at(plan, 7, "guid"@);
    lemma_read_at(plan, 8, "pubDate"@);
    lemma_read_at(plan, 9, "source"@);
}

/// An RSS enclosure: `url` is its `url` attribute (empty where absent);
/// `length` the `parseInt` of a non-empty `length`; `type` a non-empty
/// `type`.
pub proof fn law_rss_enclosure_fields(e: Json)
    ensures
        ({
            let out = spec_enclosure(e);
            &&& get_field(out, "url"@) == Some(
                Json::Str(
                    match attribute(e, "url"@) {
                        Some(u) => u,
                        None => Seq::empty(),
                    },
                ),
            )
            &&& get_field(out, "length"@) == match attr_filled(e, "length"@) {
                Some(l) => Some(Json::Number(spec_js_parse_int(l))),
                None => None,
            }
            &&& get_field(out, "type"@) == as_str(attr_filled(e, "type"@))
        }),
{
    let plan = seq![
            have_str("url"@, crate::element::or_text(attribute(e, "url"@), Seq::empty())),
            crate::atom::maybe_int("length"@, attribute_truthy(e, "length"@)),
            maybe_str("type"@, attribute_truthy(e, "type"@)),
    ];
    assert(spec_enclosure(e) == obj(plan));
    lemma_keys();
    lemma_read_at(plan, 0, "url"@);
    lemma_read_at(plan, 1, "length"@);
    lemma_read_at(plan, 2, "type"@);
}

/// An RSS guid: `value` is its trimmed text; where the `isPermaLink`
/// attribute is there, `isPermaLink` is true unless the attribute is
/// exactly `false`, and it is absent otherwise.
pub proof fn law_rss_guid_fields(e: Json)
    ensures
        ({
            let out = spec_guid(e);
            &&& get_field(out, "value"@) == Some(Json::Str(text_of(Some(e))))
            &&& get_field(out, "isPermaLink"@) == match attribute(e, "isPermaLink"@) {
                Some(p) => Some(Json::Bool(p != "false"@)),
                None => None,
            }
        }),
{
    let plan = seq![
            have_str("value"@, text_of(Some(e))),
            maybe(
                "isPermaLink"@,
                match attribute(e, "isPermaLink"@) {
                    Some(p) => Some(Json::Bool(p != "false"@)),
                    None => None,
                },
            ),
    ];
    assert(spec_guid(e) == obj(plan));
    lemma_keys();
    lemma_read_at(plan, 0, "value"@);
    lemma_read_at(plan, 1, "isPermaLink"@);
}

/// An RSS source: `url` is its `url` attribute wherever it is there;
/// `value` its trimmed text.
pub proof fn law_rss_source_fields(e: Json)
    ensures
        ({
            let out = spec_source(e);
            &&& get_field(out, "url"@) == as_str(attribute(e, "url"@))
            &&& get_field(out, "value"@) == Some(Json::Str(text_of(Some(e))))
        }),
{
    let plan = seq![maybe_str("url"@, attribute(e, "url"@)), have_str("value"@, text_of(Some(e)))];
    assert(spec_source(e) == obj(plan));
    lemma_keys();
    lemma_read_at(plan, 0, "url"@);
    lemma_read_at(plan, 1, "value"@);
}

/// An RSS category: `domain` is its `domain` attribute wherever it is
/// there, empty or not; `value` its trimmed text.
pub proof fn law_rss_category_fields(e: Json)
    ensures
        ({
            let out = spec_parse_rss2_category(e);
            &&& get_field(out, "domain"@) == as_str(attribute(e, "domain"@))
            &&& get_field(out, "value"@) == Some(Json::Str(text_of(Some(e))))
        }),
{
    let plan = seq![maybe_str("domain"@, attribute(e, "domain"@)), have_str("value"@, text_of(Some(e)))];
    assert(spec_parse_rss2_category(e) == obj(plan));
    lemma_keys();
    lemma_read_at(plan, 0, "domain"@);
    lemma_read_at(plan, 1, "value"@);
}

/// An RSS image: `url`, `title` and `link` are the trimmed texts of those
/// children (empty where absent); `width` and `height` the `parseInt` of
/// their children's non-empty text; `description` its child's non-empty
/// text.
pub proof fn law_rss_image_fields(e: Json)
    ensures
        ({
            let out = spec_parse_rss2_image(e);
            &&& get_field(out, "url"@) == child_text_value(e, "url"@)
            &&& get_field(out, "title"@) == child_text_value(e, "title"@)
            &&& get_field(out, "link"@) == child_text_value(e, "link"@)
            &&& get_field(out, "width"@) == match nonempty_text(find_child(e, "width"@)) {
                Some(w) => Some(Json::Number(spec_js_parse_int(w))),
                None => None,
            }
            &&& get_field(out, "height"@) == match nonempty_text(find_child(e, "height"@)) {
                Some(h) => Some(Json::Number(spec_js_parse_int(h))),
                None => None,
            }
            &&& get_field(out, "description"@) == as_str(nonempty_text(find_child(e, "description"@)))
        }),
{
    let plan = seq![
            have_str("url"@, text_of(find_child(e, "url"@))),
            have_str("title"@, text_of(find_child(e, "title"@))),
            have_str("link"@, text_of(find_child(e, "link"@))),
            crate::atom::maybe_int("width"@, crate::element::text_or_none(find_child(e, "width"@))),
            crate::atom::maybe_int("height"@, crate::element::text_or_none(find_child(e, "height"@))),
            maybe_str("description"@, crate::element::text_or_none(find_child(e, "description"@))),
    ];
    assert(spec_parse_rss2_image(e) == obj(plan));
    lemma_keys();
    lemma_read_at(plan, 0, "url"@);
    lemma_read_at(plan, 1, "title"@);
    lemma_read_at(plan, 2, "link"@);
    lemma_read_at(plan, 3, "width"@);
    lemma_read_at(plan, 4, "height"@);
    lemma_read_at(plan, 5, "description"@);
}

/// An RSS cloud: `domain`, `path`, `registerProcedure` and `protocol` are
/// those attributes (empty where absent); `port` is the `parseInt` of a
/// non-empty `port` attribute, else of `0`.
pub proof fn law_rss_cloud_fields(e: Json)
    ensures
        ({
            let out = spec_parse_rss2_cloud(e);
            let attr = |n: Seq<char>| match attribute(e, n) {
                Some(a) => a,
                None => Seq::<char>::empty(),
            };
            &&& get_field(out, "domain"@) == Some(Json::Str(attr("domain"@)))
            &&& get_field(out, "port"@) == Some(
                Json::Number(
                    spec_js_parse_int(
                        match attr_filled(e, "port"@) {
                            Some(p) => p,
                            None => "0"@,
                        },
                    ),
                ),
            )
            &&& get_field(out, "path"@) == Some(Json::Str(attr("path"@)))
            &&& get_field(out, "registerProcedure"@) == Some(Json::Str(attr("registerProcedure"@)))
            &&& get_field(out, "protocol"@) == Some(Json::Str(attr("protocol"@)))
        }),
{
    let plan = seq![
            have_str("domain"@, crate::element::or_text(attribute(e, "domain"@), Seq::empty())),
            have(
                "port"@,
                Json::Number(spec_js_parse_int(crate::element::or_text(attribute_truthy(e, "port"@), "0"@))),
            ),
            have_str("path"@, crate::element::or_text(attribute(e, "path"@), Seq::empty())),
            have_str("registerProcedure"@, crate::element::or_text(attribute(e, "registerProcedure"@), Seq::empty())),
            have_str("protocol"@, crate::element::or_text(attribute(e, "protocol"@), Seq::empty())),
    ];
    assert(spec_parse_rss2_cloud(e) == obj(plan));
    lemma_keys();
    lemma_read_at(plan, 0, "domain"@);
    lemma_read_at(plan, 1, "port"@);
    lemma_read_at(plan, 2, "path"@);
    lemma_read_at(plan, 3, "registerProcedure"@);
    lemma_read_at(plan, 4, "protocol"@);
}

/// An RSS text input: `title`, `description`, `name` and `link` are the
/// trimmed texts of those children, each from its own child.
pub proof fn law_rss_text_input_fields(e: Json)
    ensures
        ({
            let out = spec_parse_rss2_text_input(e);
            &&& get_field(out, "title"@) == child_text_value(e, "title"@)
            &&& get_field(out, "description"@) == child_text_value(e, "description"@)
            &&& get_field(out, "name"@) == child_text_value(e, "name"@)
            &&& get_field(out, "link"@) == child_text_value(e, "link"@)
        }),
{
    let plan = seq![
            have_str("title"@, text_of(find_child(e, "title"@))),
            have_str("description"@, text_of(find_child(e, "description"@))),
            have_str("name"@, text_of(find_child(e, "name"@))),
            have_str("link"@, text_of(find_child(e, "link"@))),
    ];
    assert(spec_parse_rss2_text_input(e) == obj(plan));
    lemma_keys();
    lemma_read_at(plan, 0, "title"@);
    lemma_read_at(plan, 1, "description"@);
    lemma_read_at(plan, 2, "name"@);
    lemma_read_at(plan, 3, "link"@);
}

/// An RDF image: `about` is its `rdf:about` wherever it is there; `title`,
/// `link` and `url` the trimmed texts of those children.
pub proof fn law_rdf_image_fields(e: Json)
    ensures
        ({
            let out = spec_parse_rss1_image(e);
            &&& get_field(out, "about"@) == as_str(attribute(e, "rdf:about"@))
            &&& get_field(out, "title"@) == child_text_value(e, "title"@)
            &&& get_field(out, "link"@) == child_text_value(e, "link"@)
            &&& get_field(out, "url"@) == child_text_value(e, "url"@)
        }),
{
    let plan = seq![
            maybe_str("about"@, attribute(e, "rdf:about"@)),
            have_str("title"@, text_of(find_child(e, "title"@))),
            have_str("link"@, text_of(find_child(e, "link"@))),
            have_str("url"@, text_of(find_child(e, "url"@))),
    ];
    assert(spec_parse_rss1_image(e) == obj(plan));
    lemma_keys();
    lemma_read_at(plan, 0, "about"@);
    lemma_read_at(plan, 1, "title"@);
    lemma_read_at(plan, 2, "link"@);
    lemma_read_at(plan, 3, "url"@);
}

/// An RDF item in its native shape: `title` and `link` are always there,
/// the trimmed texts of those children; `about` is a non-empty
/// `rdf:about`; `description` the text of its child, absent with it.
pub proof fn law_rdf_item_fields(e: Json)
    ensures
        ({
            let out = spec_parse_rss1_item(e);
            &&& get_field(out, "title"@) == child_text_value(e, "title"@)
            &&& get_field(out, "link"@) == child_text_value(e, "link"@)
            &&& get_field(out, "about"@) == as_str(attr_filled(e, "rdf:about"@))
            &&& text_field(out, "description"@, find_child(e, "description"@))
        }),
{
    let plan = seq![
            have_str("title"@, text_of(find_child(e, "title"@))),
            have_str("link"@, text_of(find_child(e, "link"@))),
            maybe_str("about"@, attribute_truthy(e, "rdf:about"@)),
            text_child("description"@, find_child(e, "description"@)),
    ];
    assert(spec_parse_rss1_item(e) == obj(plan));
    lemma_keys();
    lemma_read_at(plan, 0, "title"@);
    lemma_read_at(plan, 1, "link"@);
    lemma_read_at(plan, 2, "about"@);
    lemma_read_at(plan, 3, "description"@);
}

/// An RDF feed in its own shape: `format` is `rdf` and `version` `0.90`
/// for RSS 0.90, else `1.0`; `title` and `link` are the trimmed texts of
/// the channel's children (empty where the channel or child is absent);
/// every `item` child of the root becomes an item, in order; `about` is
/// the channel's non-empty `rdf:about`; `description` the channel's
/// description text, absent with it; `image` and `textInput` are read
/// from the root's own children.
pub proof fn law_rdf_feed_fields(root: Json, version: FeedVersion)
    ensures
        ({
            let out = spec_parse_rss1(root, version);
            let channel = find_child(root, "channel"@);
            let of_channel = |n: Seq<char>| match channel {
                Some(c) => find_child(c, n),
                None => None,
            };
            &&& get_field(out, "format"@) == Some(Json::Str("rdf"@))
            &&& get_field(out, "version"@) == Some(
                Json::Str(if version == FeedVersion::Rss090 { "0.90"@ } else { "1.0"@ }),
            )
            &&& get_field(out, "title"@) == Some(Json::Str(text_of(of_channel("title"@))))
            &&& get_field(out, "link"@) == Some(Json::Str(text_of(of_channel("link"@))))
            &&& get_field(out, "items"@) == Some(
                Json::Array(find_children(root, "item"@).map_values(|c| spec_parse_rss1_item(c))),
            )
            &&& get_field(out, "about"@) == as_str(
                match channel {
                    Some(c) => attr_filled(c, "rdf:about"@),
                    None => None,
                },
            )
            &&& text_field(out, "description"@, of_channel("description"@))
            &&& read_field(out, "image"@, find_child(root, "image"@), |c| spec_parse_rss1_image(c))
            &&& read_field(
                out,
                "textInput"@,
                match find_child(root, "textinput"@) {
                    Some(t) => Some(t),
                    None => find_child(root, "textInput"@),
                },
                |c| spec_parse_rss1_text_input(c),
            )
        }),
{
    let plan = rss1_plan(root, version);
    assert(spec_parse_rss1(root, version) == obj(plan));
    assert(find_children(root, "item"@).map_values(|c| crate::each::spec_part(crate::each::Part::RdfItem, c))
        =~= find_children(root, "item"@).map_values(|c| spec_parse_rss1_item(c)));
    lemma_keys();
    lemma_read_at(plan, 0, "format"@);
    lemma_read_at(plan, 1, "version"@);
    lemma_read_at(plan, 2, "title"@);
    lemma_read_at(plan, 3, "link"@);
    lemma_read_at(plan, 4, "items"@);
    lemma_read_at(plan, 5, "about"@);
    lemma_read_at(plan, 6, "description"@);
    lemma_read_at(plan, 7, "image"@);
    lemma_read_at(plan, 8, "textInput"@);
}

/// A native category as an Atom category: its `value` text (empty where
/// it has none) is the `term`, and its `domain` text, wherever there is
/// one, the `scheme`.
pub proof fn law_category_to_atom_fields(c: Json)
    ensures
        ({
            let out = spec_category_to_atom(c);
            &&& get_field(out, "term"@) == Some(
                Json::Str(
                    match get_field(c, "value"@) {
                        Some(Json::Str(v)) => v,
                        _ => Seq::empty(),
                    },
                ),
            )
            &&& get_field(out, "scheme"@) == match get_field(c, "domain"@) {
                Some(Json::Str(d)) => Some(Json::Str(d)),
                _ => None,
            }
        }),
{
    let plan = seq![
            have_str("term"@, crate::element::or_text(str_field(c, "value"@), Seq::empty())),
            maybe_str("scheme"@, str_field(c, "domain"@)),
    ];
    assert(spec_category_to_atom(c) == obj(plan));
    lemma_keys();
    lemma_read_at(plan, 0, "term"@);
    lemma_read_at(plan, 1, "scheme"@);
}

/// The alternate link of an item with a non-empty link.
pub open spec fn alternate_of(item: Json) -> Seq<Json> {
    match filled(item, "link"@) {
        Some(l) => seq![obj(seq![have_str("href"@, l), have_str("rel"@, "alternate"@)])],
        None => Seq::empty(),
    }
}

/// The enclosure link of an item whose enclosure has a non-empty url: its
/// href, relation `enclosure`, the non-empty type and the length wherever
/// the enclosure has one.
pub open spec fn enclosure_of(item: Json) -> Seq<Json> {
    match get_field(item, "enclosure"@) {
        Some(en) => match filled(en, "url"@) {
            Some(u) => seq![
                obj(
                    seq![
                        have_str("href"@, u),
                        have_str("rel"@, "enclosure"@),
                        maybe_str("type"@, filled(en, "type"@)),
                        maybe("length"@, get_field(en, "length"@)),
                    ],
                ),
            ],
            None => Seq::empty(),
        },
        None => Seq::empty(),
    }
}

/// The replies link of an item with non-empty comments.
pub open spec fn replies_of(item: Json) -> Seq<Json> {
    match filled(item, "comments"@) {
        Some(c) => seq![
            obj(seq![have_str("href"@, c), have_str("rel"@, "replies"@), have_str("type"@, "text/html"@)]),
        ],
        None => Seq::empty(),
    }
}

/// The links, categories and source of an Atom entry mapped from an RSS
/// item: the alternate link, the enclosure link and the replies link, in
/// that order, each where the item has what it is made of, and the field
/// absent when there is none; every category mapped, in order; the
/// source as a small Atom feed wherever the item has one.
pub proof fn law_rss_item_to_atom_links(item: Json)
    ensures
        ({
            let out = spec_rss2_item_to_atom_entry(item);
            let links = alternate_of(item) + enclosure_of(item) + replies_of(item);
            &&& list_field(out, "links"@, links)
            &&& list_field(
                out,
                "categories"@,
                items_of(item, "categories"@).map_values(|c| spec_category_to_atom(c)),
            )
            &&& read_field(out, "source"@, get_field(item, "source"@), |s| spec_source_feed(s))
        }),
{
    let plan = seq![
            text_construct("title"@, "text"@, truthy(item, "title"@)),
            text_construct("summary"@, "html"@, truthy(item, "description"@)),
            maybe_str("published"@, truthy(item, "pubDate"@)),
            maybe_str("updated"@, truthy(item, "pubDate"@)),
            maybe_str("id"@, crate::to_atom::item_id(item)),
            listed("links"@, item_links(item)),
            one_person("authors"@, truthy(item, "author"@)),
            listed("categories"@, list(item, "categories"@).map_values(|c| spec_category_to_atom(c))),
            maybe(
                "source"@,
                match get_field(item, "source"@) {
                    Some(s) => Some(spec_source_feed(s)),
                    None => None,
                },
            ),
    ];
    assert(spec_rss2_item_to_atom_entry(item) == obj(plan));
    assert(item_links(item) =~= alternate_of(item) + enclosure_of(item) + replies_of(item));
    lemma_keys();
    lemma_read_at(plan, 5, "links"@);
    lemma_read_at(plan, 7, "categories"@);
    lemma_read_at(plan, 8, "source"@);
}

/// The source of an RSS item as an Atom feed: `format` `atom`, `version`
/// `1.0`, its non-empty value as a text construct `title`, and its
/// non-empty url as the one `self` link.
pub proof fn law_source_feed_fields(src: Json)
    ensures
        ({
            let out = spec_source_feed(src);
            &&& get_field(out, "format"@) == Some(Json::Str("atom"@))
            &&& get_field(out, "version"@) == Some(Json::Str("1.0"@))
            &&& get_field(out, "title"@) == construct_text("text"@, filled(src, "value"@))
            &&& get_field(out, "links"@) == link_list(filled(src, "url"@), "self"@)
        }),
{
    let plan = seq![
            have_str("format"@, "atom"@),
            have_str("version"@, "1.0"@),
            text_construct("title"@, "text"@, truthy(src, "value"@)),
            one_link("links"@, truthy(src, "url"@), "self"@),
    ];
    assert(spec_source_feed(src) == obj(plan));
    lemma_keys();
    lemma_read_at(plan, 0, "format"@);
    lemma_read_at(plan, 1, "version"@);
    lemma_read_at(plan, 2, "title"@);
    lemma_read_at(plan, 3, "links"@);
}

/// The dialect table. A value that is not an element is unknown. A root
/// named `feed` is Atom: 0.3 exactly when its namespace is the Atom 0.3
/// one, else 1.0. A root named `rss` is RSS, by its `version` attribute:
/// 2.0, 2.0.1 and 2.0.2 are 2.0; 0.92, 0.93 and 0.94 are 0.92; 0.91 is
/// the Userland 0.91; anything else, or none, is 2.0. A root named `RDF`
/// is RDF: 0.90 exactly when its first `channel` child has the RSS 0.90
/// namespace, else 1.0. Any other root is unknown.
pub proof fn law_detect_table(root: Json)
    ensures
        ({
            let d = spec_detect(root);
            let name = local_name(root);
            let unknown = d.dialect == FeedDialect::Unknown && d.version == FeedVersion::Unknown;
            let declared = match attribute(root, "version"@) {
                Some(v) => v,
                None => Seq::empty(),
            };
            &&& !is_element(root) ==> unknown
            &&& is_element(root) && name == "feed"@ ==> d.dialect == FeedDialect::Atom && d.version == if namespace_of(root) == "http://purl.org/atom/ns#"@ {
                FeedVersion::Atom03
            } else {
                FeedVersion::Atom10
            }
            &&& is_element(root) && name == "rss"@ ==> d.dialect == FeedDialect::Rss && d.version == if declared == "0.92"@ || declared == "0.93"@ || declared == "0.94"@ {
                FeedVersion::Rss092
            } else if declared == "0.91"@ {
                FeedVersion::Rss091u
            } else {
                FeedVersion::Rss20
            }
            &&& is_element(root) && name == "RDF"@ ==> d.dialect == FeedDialect::Rdf && d.version == if find_child(root, "channel"@) matches Some(c) && namespace_of(c)
                == "http://my.netscape.com/rdf/simple/0.9/"@ {
                FeedVersion::Rss090
            } else {
                FeedVersion::Rss10
            }
            &&& is_element(root) && name != "feed"@ && name != "rss"@ && name != "RDF"@ ==> unknown
        }),
{
    reveal_strlit("2.0");
    reveal_strlit("2.0.1");
    reveal_strlit("2.0.2");
    reveal_strlit("0.92");
    reveal_strlit("0.93");
    reveal_strlit("0.94");
    reveal_strlit("0.91");
    reveal_strlit("feed");
    reveal_strlit("rss");
    reveal_strlit("RDF");
    assert("feed"@.len() == 4 && "rss"@.len() == 3 && "RDF"@.len() == 3);
    assert("rss"@[0] == 'r' && "RDF"@[0] == 'R');
    assert("2.0"@.len() == 3);
    assert("2.0.1"@.len() == 5);
    assert("2.0.2"@.len() == 5);
    assert("0.92"@.len() == 4 && "0.93"@.len() == 4 && "0.94"@.len() == 4 && "0.91"@.len() == 4);
    assert("0.92"@[3] == '2' && "0.93"@[3] == '3' && "0.94"@[3] == '4' && "0.91"@[3] == '1');
}

/// Format names: `atom`, `native` and `raw` name the three formats and
/// read back as them; every other name reads as the default, Atom.
pub proof fn law_format_names(name: Seq<char>)
    ensures
        format_name(FeedFormat::Atom) == "atom"@,
        format_name(FeedFormat::Native) == "native"@,
        format_name(FeedFormat::Raw) == "raw"@,
        format_from_name(name) == if name == "native"@ {
            FeedFormat::Native
        } else if name == "raw"@ {
            FeedFormat::Raw
        } else {
            FeedFormat::Atom
        },
{
}

/// The refusals: in the Atom and native formats, a value that is not an
/// element is refused with `feed: input did not parse to an XML element`,
/// and an element whose root is not a feed with `feed: unrecognized root
/// element "NAME"; expected one of feed, rss, RDF`, NAME its local name.
pub proof fn law_refusal_messages(root: Json, format: FeedFormat)
    requires
        format != FeedFormat::Raw,
    ensures
        !is_element(root) ==> spec_convert(root, format) == Err::<Json, Seq<char>>(
            "feed: input did not parse to an XML element"@,
        ),
        is_element(root) && spec_detect(root).dialect == FeedDialect::Unknown ==> spec_convert(
            root,
            format,
        ) == Err::<Json, Seq<char>>(
            "feed: unrecognized root element \""@ + local_name(root)
                + "\"; expected one of feed, rss, RDF"@,
        ),
{
}

/// An element with this local name.
pub open spec fn named(c: Json, name: Seq<char>) -> bool {
    is_element(c) && local_name(c) == name
}

proof fn lemma_first_named(items: Seq<Json>, name: Seq<char>)
    ensures
        match first_named(items, name) {
            Some(c) => exists|i: int|
                0 <= i < items.len() && items[i] == c && named(c, name) && forall|j: int|
                    0 <= j < i ==> !named(#[trigger] items[j], name),
            None => forall|j: int| 0 <= j < items.len() ==> !named(#[trigger] items[j], name),
        },
    decreases items.len(),
{
    if items.len() > 0 {
        let rest = items.drop_first();
        lemma_first_named(rest, name);
        if !is_named(items[0], name) {
            match first_named(rest, name) {
                Some(c) => {
                    let i = choose|i: int|
                        0 <= i < rest.len() && rest[i] == c && named(c, name) && forall|j: int|
                            0 <= j < i ==> !named(#[trigger] rest[j], name);
                    assert(items[i + 1] == c);
                    assert forall|j: int| 0 <= j < i + 1 implies !named(#[trigger] items[j], name) by {
                        if j > 0 {
                            assert(items[j] == rest[j - 1]);
                        }
                    }
                },
                None => {
                    assert forall|j: int| 0 <= j < items.len() implies !named(#[trigger] items[j], name) by {
                        if j > 0 {
                            assert(items[j] == rest[j - 1]);
                        }
                    }
                },
            }
        } else {
            assert(items[0] == items[0] && named(items[0], name));
            assert(forall|j: int| 0 <= j < 0 ==> !named(#[trigger] items[j], name));
        }
    }
}

/// The child element of a name is the first child that is an element
/// with that local name; there is none exactly when no child is one.
pub proof fn law_find_child_is_the_first(e: Json, name: Seq<char>)
    ensures
        match find_child(e, name) {
            Some(c) => exists|i: int|
                0 <= i < children(e).len() && children(e)[i] == c && named(c, name) && forall|j: int|
                    0 <= j < i ==> !named(#[trigger] children(e)[j], name),
            None => forall|j: int| 0 <= j < children(e).len() ==> !named(#[trigger] children(e)[j], name),
        },
{
    lemma_first_named(children(e), name);
}

proof fn lemma_all_named(items: Seq<Json>, name: Seq<char>)
    ensures
        forall|k: int|
            0 <= k < all_named(items, name).len() ==> named(#[trigger] all_named(items, name)[k], name)
                && items.contains(all_named(items, name)[k]),
        forall|j: int| 0 <= j < items.len() && named(#[trigger] items[j], name) ==> all_named(items, name).contains(items[j]),
        all_named(items, name).len() <= items.len(),
    decreases items.len(),
{
    if items.len() > 0 {
        let rest = items.drop_last();
        lemma_all_named(rest, name);
        let r = all_named(rest, name);
        assert forall|k: int| 0 <= k < rest.len() implies #[trigger] items[k] == rest[k] by {}
        if is_named(items.last(), name) {
            assert(all_named(items, name) == r.push(items.last()));
            assert forall|k: int| 0 <= k < r.push(items.last()).len() implies named(#[trigger] r.push(items.last())[k], name)
                && items.contains(r.push(items.last())[k]) by {
                if k < r.len() {
                    assert(r.push(items.last())[k] == r[k]);
                    let j = choose|j: int| 0 <= j < rest.len() && rest[j] == r[k];
                    assert(items[j] == r[k]);
                } else {
                    assert(items[items.len() - 1] == items.last());
                }
            }
            assert forall|j: int| 0 <= j < items.len() && named(#[trigger] items[j], name) implies r.push(items.last()).contains(items[j]) by {
                if j < items.len() - 1 {
                    assert(rest[j] == items[j]);
                    let k = choose|k: int| 0 <= k < r.len() && r[k] == rest[j];
                    assert(r.push(items.last())[k] == r[k]);
                } else {
                    assert(r.push(items.last())[r.len() as int] == items.last());
                }
            }
        } else {
            assert(all_named(items, name) == r);
            assert forall|k: int| 0 <= k < r.len() implies named(#[trigger] r[k], name) && items.contains(r[k]) by {
                let j = choose|j: int| 0 <= j < rest.len() && rest[j] == r[k];
                assert(items[j] == r[k]);
            }
            assert forall|j: int| 0 <= j < items.len() && named(#[trigger] items[j], name) implies r.contains(items[j]) by {
                if j < items.len() - 1 {
                    assert(rest[j] == items[j]);
                } else {
                    assert(items[j] == items.last());
                }
            }
        }
    }
}

/// The child elements of a name are exactly the children that are
/// elements with that local name: each of them is one, and every such
/// child is among them; the first of them is the child of that name.
pub proof fn law_find_children_are_the_named_children(e: Json, name: Seq<char>)
    ensures
        forall|k: int|
            0 <= k < find_children(e, name).len() ==> named(#[trigger] find_children(e, name)[k], name)
                && children(e).contains(find_children(e, name)[k]),
        forall|j: int|
            0 <= j < children(e).len() && named(#[trigger] children(e)[j], name) ==> find_children(e, name).contains(children(e)[j]),
{
    lemma_all_named(children(e), name);
}

/// The text of an element: the empty text for an absent one; for an
/// element whose children are two texts around anything else, the two
/// texts joined and trimmed; nested elements add nothing.
pub proof fn law_text_of_joins_the_direct_texts(e: Json, a: Seq<char>, x: Json, b: Seq<char>)
    requires
        children(e) == seq![Json::Str(a), x, Json::Str(b)],
        !(x is Str),
    ensures
        text_of(None) == Seq::<char>::empty(),
        text_of(Some(e)) == spec_js_trim(a + b),
{
    let items = seq![Json::Str(a), x, Json::Str(b)];
    assert(items.drop_last() =~= seq![Json::Str(a), x]);
    assert(items.drop_last().drop_last() =~= seq![Json::Str(a)]);
    assert(items.drop_last().drop_last().drop_last() =~= Seq::<Json>::empty());
    assert(crate::element::direct_text(Seq::<Json>::empty()) == Seq::<char>::empty());
    assert(seq![Json::Str(a)].last() == Json::Str(a));
    assert(seq![Json::Str(a)].drop_last() =~= Seq::<Json>::empty());
    assert(crate::element::direct_text(seq![Json::Str(a)]) =~= a);
    assert(seq![Json::Str(a), x].last() == x);
    assert(items.last() == Json::Str(b));
    assert(crate::element::direct_text(seq![Json::Str(a), x]) =~= a);
    assert(crate::element::direct_text(items) =~= a + b);
}

/// The markup inside an element keeps its texts as they are, untrimmed,
/// and writes a nested element with no attributes and no content as
/// `<name/>`, by its qualified name.
pub proof fn law_inner_xml_keeps_texts_and_elements(e: Json, a: Seq<char>, x: Json, n: Seq<char>)
    requires
        e is Object,
        get_field(e, "children"@) == Some(Json::Array(seq![Json::Str(a), x])),
        is_element(x),
        get_field(x, "children"@) == Some(Json::Array(Seq::<Json>::empty())),
        get_field(x, "attributes"@) is None,
        get_field(x, "name"@) == Some(Json::Str(n)),
        n.len() > 0,
    ensures
        inner_xml(Some(e)) == a + "<"@ + n + "/>"@,
{
    let items = seq![Json::Str(a), x];
    assert(items.drop_last() =~= seq![Json::Str(a)]);
    assert(seq![Json::Str(a)].drop_last() =~= Seq::<Json>::empty());
    assert(crate::element::inner_items(Seq::<Json>::empty()) == Seq::<char>::empty());
    assert(seq![Json::Str(a)].last() == Json::Str(a));
    assert(crate::element::inner_items(seq![Json::Str(a)]) =~= a);
    assert(items.last() == x);
    assert(x is Object);
    assert(inner_of(x) == Seq::<char>::empty()) by {
        assert(crate::element::inner_items(Seq::<Json>::empty()) == Seq::<char>::empty());
    }
    assert(crate::element::written_attrs(x) == Seq::<char>::empty());
    assert(crate::element::serialize_element(x) =~= "<"@ + n + "/>"@);
    assert(crate::element::inner_items(items) =~= a + crate::element::serialize_element(x));
}

/// The native shape is the detected dialect's own reading: an Atom root
/// is read as Atom of its version, an RSS root as RSS, an RDF root as
/// RDF.
pub proof fn law_native_reads_the_detected_dialect(root: Json)
    requires
        spec_convert(root, FeedFormat::Native) is Ok,
    ensures
        ({
            let d = spec_detect(root);
            spec_convert(root, FeedFormat::Native)->Ok_0 == match d.dialect {
                FeedDialect::Atom => spec_parse_atom(root, d.version == FeedVersion::Atom03),
                FeedDialect::Rss => spec_parse_rss2(root, d.version),
                _ => spec_parse_rss1(root, d.version),
            }
        }),
        spec_detect(root).dialect != FeedDialect::Unknown,
{
}

/// The Atom shape is the native shape mapped: an Atom feed as it is, an
/// RSS feed by the RSS mapping, an RDF feed by the RDF mapping; both
/// formats refuse the same trees.
pub proof fn law_atom_output_maps_the_native_output(root: Json)
    ensures
        spec_convert(root, FeedFormat::Atom) is Ok <==> spec_convert(root, FeedFormat::Native) is Ok,
        spec_convert(root, FeedFormat::Native) is Ok ==> ({
            let native = spec_convert(root, FeedFormat::Native)->Ok_0;
            spec_convert(root, FeedFormat::Atom)->Ok_0 == match spec_detect(root).dialect {
                FeedDialect::Atom => native,
                FeedDialect::Rss => spec_rss2_to_atom(native),
                _ => spec_rss1_to_atom(native),
            }
        }),
{
}

/// The spellings of a detection report, and its `{ dialect, version }`
/// object.
pub proof fn law_detection_spellings(d: Detection)
    ensures
        dialect_name(FeedDialect::Atom) == "atom"@,
        dialect_name(FeedDialect::Rss) == "rss"@,
        dialect_name(FeedDialect::Rdf) == "rdf"@,
        dialect_name(FeedDialect::Unknown) == "unknown"@,
        version_name(FeedVersion::Atom10) == "atom10"@,
        version_name(FeedVersion::Atom03) == "atom03"@,
        version_name(FeedVersion::Rss20) == "rss20"@,
        version_name(FeedVersion::Rss092) == "rss092"@,
        version_name(FeedVersion::Rss091u) == "rss091u"@,
        version_name(FeedVersion::Rss091n) == "rss091n"@,
        version_name(FeedVersion::Rss10) == "rss10"@,
        version_name(FeedVersion::Rss090) == "rss090"@,
        version_name(FeedVersion::Unknown) == "unknown"@,
        get_field(detection_json(d), "dialect"@) == Some(Json::Str(dialect_name(d.dialect))),
        get_field(detection_json(d), "version"@) == Some(Json::Str(version_name(d.version))),
{
    let plan = seq![
        have_str("dialect"@, dialect_name(d.dialect)),
        have_str("version"@, version_name(d.version)),
    ];
    assert(detection_json(d) == obj(plan));
    reveal_strlit("dialect");
    reveal_strlit("version");
    assert("dialect"@.len() == 7 && "version"@.len() == 7);
    assert("dialect"@[0] == 'd' && "version"@[0] == 'v');
    lemma_read_at(plan, 0, "dialect"@);
    lemma_read_at(plan, 1, "version"@);
}

/// The option bag of a set of options: `format` is the format's name and
/// `strictNamespaces` the flag.
pub proof fn law_option_bag_fields(o: FeedOptions)
    ensures
        get_field(options_bag(o), "format"@) == Some(Json::Str(format_name(o.format))),
        get_field(options_bag(o), "strictNamespaces"@) == Some(Json::Bool(o.strict_namespaces)),
{
    let plan = seq![
        have_str("format"@, format_name(o.format)),
        have("strictNamespaces"@, Json::Bool(o.strict_namespaces)),
    ];
    assert(options_bag(o) == obj(plan));
    reveal_strlit("format");
    reveal_strlit("strictNamespaces");
    assert("format"@.len() == 6 && "strictNamespaces"@.len() == 16);
    lemma_read_at(plan, 0, "format"@);
    lemma_read_at(plan, 1, "strictNamespaces"@);
}

/// An RSS person from what the author pattern matched in it: with a match,
/// the `email` is the address group (group 1) and the `name` the name
/// group (group 2), else the address; with no match the whole text,
/// trimmed, is the `name` and there is no `email`.
pub proof fn law_person_from_match_fields(text: Seq<char>, found: Option<Seq<Option<Seq<char>>>>)
    ensures
        ({
            let out = spec_person_from_match(text, found);
            match found {
                Some(groups) => {
                    let email = match group(groups, 1) {
                        Some(e) => e,
                        None => Seq::empty(),
                    };
                    &&& get_field(out, "email"@) == Some(Json::Str(email))
                    &&& get_field(out, "name"@) == Some(
                        Json::Str(
                            match group(groups, 2) {
                                Some(n) => n,
                                None => email,
                            },
                        ),
                    )
                },
                None => {
                    &&& get_field(out, "name"@) == Some(Json::Str(spec_js_trim(text)))
                    &&& get_field(out, "email"@) is None
                },
            }
        }),
{
    lemma_keys();
    match found {
        Some(groups) => {
            let email = crate::element::or_text(group(groups, 1), Seq::empty());
            let plan = seq![
                have_str("name"@, crate::element::or_text(group(groups, 2), email)),
                have_str("email"@, email),
            ];
            assert(spec_person_from_match(text, found) == obj(plan));
            lemma_read_at(plan, 0, "name"@);
            lemma_read_at(plan, 1, "email"@);
        },
        None => {
            let plan = seq![have_str("name"@, spec_js_trim(text))];
            assert(spec_person_from_match(text, found) == obj(plan));
            lemma_read_at(plan, 0, "name"@);
            lemma_read_at(plan, 0, "email"@);
        },
    }
}

} // verus!
