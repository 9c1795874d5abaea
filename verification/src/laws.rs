//! What holds of the library as a whole.

use vstd::prelude::*;
use crate::value::Json;
use crate::text::{
    digit_prefix, escape_char, is_js_space, spec_escape_attr, spec_js_parse_int, spec_js_trim, trim_end,
    trim_start,
};
use crate::detect::{dialect_name, spec_detect, Detection, FeedDialect, FeedVersion};
use crate::options::{format_from_name, format_name, options_bag, options_from, FeedFormat, FeedOptions};
use crate::convert::{close_ok, spec_convert, CloseAction};
use crate::object::present;
use crate::value::lookup;
use crate::element::is_element;
use crate::atom::{atom_head, atom_tail, by_version, spec_parse_atom, spec_parse_atom_entry};
use crate::element::find_children;
use crate::value::get_field;
use crate::rss::{
    declared_rss, rss1_plan, rss2_head, rss2_tail, rss_channel, spec_parse_rss1, spec_parse_rss2,
};
use crate::to_atom::{
    list, rss1_to_atom_plan, rss2_to_atom_plan, spec_rss1_item_to_atom_entry, spec_rss1_to_atom,
    spec_rss2_item_to_atom_entry, spec_rss2_to_atom,
};

verus! {

proof fn lemma_trim_start_shape(s: Seq<char>)
    ensures
        trim_start(s).len() <= s.len(),
        trim_start(s) == s.skip(s.len() - trim_start(s).len()),
        forall|k: int| 0 <= k < s.len() - trim_start(s).len() ==> is_js_space(#[trigger] s[k]),
        trim_start(s).len() > 0 ==> !is_js_space(trim_start(s)[0]),
    decreases s.len(),
{
    if s.len() > 0 && is_js_space(s[0]) {
        lemma_trim_start_shape(s.drop_first());
        let t = trim_start(s.drop_first());
        assert(s.drop_first().skip(s.drop_first().len() - t.len()) =~= s.skip(s.len() - t.len()));
        assert forall|k: int| 0 <= k < s.len() - t.len() implies is_js_space(#[trigger] s[k]) by {
            if k > 0 {
                assert(s[k] == s.drop_first()[k - 1]);
            }
        }
    } else {
        assert(s.skip(0) =~= s);
    }
}

proof fn lemma_trim_end_shape(s: Seq<char>)
    ensures
        trim_end(s).len() <= s.len(),
        trim_end(s) == s.take(trim_end(s).len() as int),
        forall|k: int| trim_end(s).len() <= k < s.len() ==> is_js_space(#[trigger] s[k]),
        trim_end(s).len() > 0 ==> !is_js_space(trim_end(s).last()),
    decreases s.len(),
{
    if s.len() > 0 && is_js_space(s.last()) {
        lemma_trim_end_shape(s.drop_last());
        let t = trim_end(s.drop_last());
        assert(s.drop_last().take(t.len() as int) =~= s.take(t.len() as int));
        assert forall|k: int| t.len() <= k < s.len() implies is_js_space(#[trigger] s[k]) by {
            if k < s.len() - 1 {
                assert(s[k] == s.drop_last()[k]);
            }
        }
    } else {
        assert(s.take(s.len() as int) =~= s);
    }
}

/// `js_trim` removes the JavaScript white space at both ends of a text
/// and nothing else: what it keeps is one stretch of the text, everything
/// before and after that stretch is white space, and the stretch neither
/// starts nor ends with white space.
pub proof fn law_js_trim_strips_only_end_space(s: Seq<char>)
    ensures
        ({
            let t = spec_js_trim(s);
            let a = s.len() - trim_start(s).len();
            &&& 0 <= a && a + t.len() <= s.len()
            &&& t == s.subrange(a, a + t.len())
            &&& forall|k: int| 0 <= k < a ==> is_js_space(#[trigger] s[k])
            &&& forall|k: int| a + t.len() <= k < s.len() ==> is_js_space(#[trigger] s[k])
            &&& t.len() > 0 ==> !is_js_space(t[0]) && !is_js_space(t.last())
        }),
{
    let u = trim_start(s);
    let t = trim_end(u);
    let a = s.len() - u.len();
    lemma_trim_start_shape(s);
    lemma_trim_end_shape(u);
    assert(t =~= s.subrange(a, a + t.len()));
    assert forall|k: int| a + t.len() <= k < s.len() implies is_js_space(#[trigger] s[k]) by {
        assert(s[k] == u[k - a]);
    }
    if t.len() > 0 {
        assert(t[0] == u[0]);
    }
}

/// Trimming a trimmed text changes nothing.
pub proof fn law_js_trim_idempotent(s: Seq<char>)
    ensures
        spec_js_trim(spec_js_trim(s)) == spec_js_trim(s),
{
    let t = spec_js_trim(s);
    law_js_trim_strips_only_end_space(s);
    assert(trim_start(t) == t);
    assert(trim_end(t) == t);
}

/// A format's option-bag name names that format.
pub proof fn law_format_name_round_trip(f: FeedFormat)
    ensures
        format_from_name(format_name(f)) == f,
{
    reveal_strlit("atom");
    reveal_strlit("native");
    reveal_strlit("raw");
    assert("atom"@.len() == 4);
    assert("native"@.len() == 6);
    assert("raw"@.len() == 3);
    assert("atom"@ != "native"@);
    assert("atom"@ != "raw"@);
    assert("raw"@ != "native"@);
}

/// The option bag of a set of options reads back as those options.
pub proof fn law_option_bag_round_trip(o: FeedOptions)
    ensures
        options_from(options_bag(o)) == o,
{
    reveal_strlit("format");
    reveal_strlit("strictNamespaces");
    law_format_name_round_trip(o.format);
    let bag = options_bag(o);
    let fields = seq![
        ("format"@, Json::Str(format_name(o.format))),
        ("strictNamespaces"@, Json::Bool(o.strict_namespaces)),
    ];
    assert(crate::object::present(
        seq![
            crate::object::have_str("format"@, format_name(o.format)),
            crate::object::have("strictNamespaces"@, Json::Bool(o.strict_namespaces)),
        ],
    ) =~= fields) by {
        reveal_with_fuel(crate::object::present, 3);
        let p = seq![
            crate::object::have_str("format"@, format_name(o.format)),
            crate::object::have("strictNamespaces"@, Json::Bool(o.strict_namespaces)),
        ];
        assert(p.drop_last() =~= seq![crate::object::have_str("format"@, format_name(o.format))]);
        assert(p.drop_last().drop_last() =~= Seq::<Option<(Seq<char>, Json)>>::empty());
    }
    assert(fields.drop_last() =~= seq![("format"@, Json::Str(format_name(o.format)))]);
    assert(fields.drop_last().drop_last() =~= Seq::<(Seq<char>, Json)>::empty());
    assert("format"@.len() == 6);
    assert("strictNamespaces"@.len() == 16);
    assert("format"@ != "strictNamespaces"@);
    assert(bag == Json::Object(fields));
    assert(crate::value::lookup(fields, "strictNamespaces"@) == Some(Json::Bool(o.strict_namespaces)));
    assert(crate::value::lookup(fields.drop_last(), "format"@) == Some(Json::Str(format_name(o.format))));
    assert(crate::value::lookup(fields, "format"@) == Some(Json::Str(format_name(o.format))));
}

/// An empty option bag, or any value that holds neither key, reads as
/// the default options.
pub proof fn law_empty_bag_is_default()
    ensures
        options_from(Json::Object(Seq::empty())) == (FeedOptions {
            format: FeedFormat::Atom,
            strict_namespaces: true,
        }),
        options_from(Json::Null) == (FeedOptions { format: FeedFormat::Atom, strict_namespaces: true }),
{
}

/// Raw output is the element tree, whatever the tree is.
pub proof fn law_raw_is_the_tree(root: Json)
    ensures
        spec_convert(root, FeedFormat::Raw) == Ok::<Json, Seq<char>>(root),
{
}

/// In the Atom and native formats a tree is refused exactly when
/// detection does not recognise it.
pub proof fn law_refused_exactly_when_unknown(root: Json, format: FeedFormat)
    requires
        format != FeedFormat::Raw,
    ensures
        spec_convert(root, format) is Err <==> spec_detect(root).dialect == FeedDialect::Unknown,
{
}

/// Detection reports a version of the family it reports, and never the
/// Netscape 0.91 variant, which differs from the Userland one only by
/// its DOCTYPE.
pub proof fn law_detection_is_a_row_of_the_table(root: Json)
    ensures
        ({
            let d = spec_detect(root);
            &&& d.version != FeedVersion::Rss091n
            &&& d.dialect == FeedDialect::Atom ==> (d.version == FeedVersion::Atom10 || d.version
                == FeedVersion::Atom03)
            &&& d.dialect == FeedDialect::Rss ==> (d.version == FeedVersion::Rss20 || d.version
                == FeedVersion::Rss092 || d.version == FeedVersion::Rss091u)
            &&& d.dialect == FeedDialect::Rdf ==> (d.version == FeedVersion::Rss10 || d.version
                == FeedVersion::Rss090)
            &&& d.dialect == FeedDialect::Unknown <==> d.version == FeedVersion::Unknown
        }),
{
}

/// No field of the plan has this key.
pub open spec fn avoids(plan: Seq<Option<(Seq<char>, Json)>>, key: Seq<char>) -> bool {
    forall|i: int|
        0 <= i < plan.len() ==> match #[trigger] plan[i] {
            Some(p) => p.0 != key,
            None => true,
        }
}

pub(crate) proof fn lemma_avoids_lookup(plan: Seq<Option<(Seq<char>, Json)>>, key: Seq<char>)
    requires
        avoids(plan, key),
    ensures
        lookup(present(plan), key) is None,
    decreases plan.len(),
{
    if plan.len() > 0 {
        let rest = plan.drop_last();
        assert(avoids(rest, key)) by {
            assert forall|i: int| 0 <= i < rest.len() implies match #[trigger] rest[i] {
                Some(p) => p.0 != key,
                None => true,
            } by {
                assert(rest[i] == plan[i]);
            }
        }
        lemma_avoids_lookup(rest, key);
        match plan.last() {
            Some(p) => {
                assert(plan[plan.len() - 1] == plan.last());
                assert(present(plan) == present(rest).push(p));
                assert(present(plan).drop_last() =~= present(rest));
            },
            None => {},
        }
    }
}

/// None of the keys the conversion writes is `localName`.
proof fn lemma_written_keys()
    ensures
        "about"@ != "localName"@,
        "authors"@ != "localName"@,
        "categories"@ != "localName"@,
        "cloud"@ != "localName"@,
        "contributors"@ != "localName"@,
        "copyright"@ != "localName"@,
        "description"@ != "localName"@,
        "docs"@ != "localName"@,
        "entries"@ != "localName"@,
        "format"@ != "localName"@,
        "generator"@ != "localName"@,
        "icon"@ != "localName"@,
        "id"@ != "localName"@,
        "image"@ != "localName"@,
        "items"@ != "localName"@,
        "language"@ != "localName"@,
        "lastBuildDate"@ != "localName"@,
        "link"@ != "localName"@,
        "links"@ != "localName"@,
        "logo"@ != "localName"@,
        "managingEditor"@ != "localName"@,
        "pubDate"@ != "localName"@,
        "rights"@ != "localName"@,
        "skipDays"@ != "localName"@,
        "skipHours"@ != "localName"@,
        "subtitle"@ != "localName"@,
        "textInput"@ != "localName"@,
        "title"@ != "localName"@,
        "ttl"@ != "localName"@,
        "updated"@ != "localName"@,
        "version"@ != "localName"@,
        "webMaster"@ != "localName"@,
{
    reveal_strlit("localName");
    reveal_strlit("about");
    reveal_strlit("authors");
    reveal_strlit("categories");
    reveal_strlit("cloud");
    reveal_strlit("contributors");
    reveal_strlit("copyright");
    reveal_strlit("description");
    reveal_strlit("docs");
    reveal_strlit("entries");
    reveal_strlit("format");
    reveal_strlit("generator");
    reveal_strlit("icon");
    reveal_strlit("id");
    reveal_strlit("image");
    reveal_strlit("items");
    reveal_strlit("language");
    reveal_strlit("lastBuildDate");
    reveal_strlit("link");
    reveal_strlit("links");
    reveal_strlit("logo");
    reveal_strlit("managingEditor");
    reveal_strlit("pubDate");
    reveal_strlit("rights");
    reveal_strlit("skipDays");
    reveal_strlit("skipHours");
    reveal_strlit("subtitle");
    reveal_strlit("textInput");
    reveal_strlit("title");
    reveal_strlit("ttl");
    reveal_strlit("updated");
    reveal_strlit("version");
    reveal_strlit("webMaster");
    assert("localName"@.len() == 9);
    assert("localName"@[0] == 'l');
    assert("about"@.len() == 5);
    assert("authors"@.len() == 7);
    assert("categories"@.len() == 10);
    assert("cloud"@.len() == 5);
    assert("contributors"@.len() == 12);
    assert("copyright"@.len() == 9);
    assert("copyright"@[0] == 'c');
    assert("description"@.len() == 11);
    assert("docs"@.len() == 4);
    assert("entries"@.len() == 7);
    assert("format"@.len() == 6);
    assert("generator"@.len() == 9);
    assert("generator"@[0] == 'g');
    assert("icon"@.len() == 4);
    assert("id"@.len() == 2);
    assert("image"@.len() == 5);
    assert("items"@.len() == 5);
    assert("language"@.len() == 8);
    assert("lastBuildDate"@.len() == 13);
    assert("link"@.len() == 4);
    assert("links"@.len() == 5);
    assert("logo"@.len() == 4);
    assert("managingEditor"@.len() == 14);
    assert("pubDate"@.len() == 7);
    assert("rights"@.len() == 6);
    assert("skipDays"@.len() == 8);
    assert("skipHours"@.len() == 9);
    assert("skipHours"@[0] == 's');
    assert("subtitle"@.len() == 8);
    assert("textInput"@.len() == 9);
    assert("textInput"@[0] == 't');
    assert("title"@.len() == 5);
    assert("ttl"@.len() == 3);
    assert("updated"@.len() == 7);
    assert("version"@.len() == 7);
    assert("webMaster"@.len() == 9);
    assert("webMaster"@[0] == 'w');
}

proof fn lemma_concat_avoids(a: Seq<Option<(Seq<char>, Json)>>, b: Seq<Option<(Seq<char>, Json)>>, key: Seq<char>)
    requires
        avoids(a, key),
        avoids(b, key),
    ensures
        avoids(a + b, key),
{
    let plan = a + b;
    assert forall|i: int| 0 <= i < plan.len() implies match #[trigger] plan[i] {
        Some(p) => p.0 != key,
        None => true,
    } by {
        if i < a.len() {
            assert(plan[i] == a[i]);
        } else {
            assert(plan[i] == b[i - a.len()]);
        }
    }
}

proof fn lemma_atom_plan_avoids(root: Json, atom03: bool)
    ensures
        avoids(atom_head(root, atom03) + atom_tail(root, atom03), "localName"@),
{
    lemma_written_keys();
    let k = "localName"@;
    assert(avoids(atom_head(root, atom03), k));
    assert(avoids(atom_tail(root, atom03), k));
    lemma_concat_avoids(atom_head(root, atom03), atom_tail(root, atom03), k);
}

proof fn lemma_rss2_plan_avoids(channel: Json, version: FeedVersion)
    ensures
        avoids(rss2_head(channel, version) + rss2_tail(channel), "localName"@),
{
    lemma_written_keys();
    let k = "localName"@;
    assert(avoids(rss2_head(channel, version), k));
    assert(avoids(rss2_tail(channel), k));
    lemma_concat_avoids(rss2_head(channel, version), rss2_tail(channel), k);
}

proof fn lemma_rss1_plan_avoids(root: Json, version: FeedVersion)
    ensures
        avoids(rss1_plan(root, version), "localName"@),
{
    lemma_written_keys();
}

proof fn lemma_rss2_to_atom_plan_avoids(native: Json)
    ensures
        avoids(rss2_to_atom_plan(native), "localName"@),
{
    lemma_written_keys();
}

proof fn lemma_rss1_to_atom_plan_avoids(native: Json)
    ensures
        avoids(rss1_to_atom_plan(native), "localName"@),
{
    lemma_written_keys();
}

/// Every feed the conversion writes, in either non-raw shape, is an object
/// without a `localName`.
proof fn lemma_converted_not_element(root: Json, format: FeedFormat)
    requires
        format != FeedFormat::Raw,
        spec_convert(root, format) is Ok,
    ensures
        !is_element(spec_convert(root, format)->Ok_0),
{
    let k = "localName"@;
    let d = spec_detect(root);
    match d.dialect {
        FeedDialect::Atom => {
            let atom03 = d.version == FeedVersion::Atom03;
            lemma_atom_plan_avoids(root, atom03);
            lemma_avoids_lookup(atom_head(root, atom03) + atom_tail(root, atom03), k);
        },
        FeedDialect::Rss => {
            if format == FeedFormat::Native {
                let channel = rss_channel(root);
                lemma_rss2_plan_avoids(channel, d.version);
                lemma_avoids_lookup(rss2_head(channel, d.version) + rss2_tail(channel), k);
            } else {
                let native = spec_parse_rss2(root, d.version);
                lemma_rss2_to_atom_plan_avoids(native);
                lemma_avoids_lookup(rss2_to_atom_plan(native), k);
            }
        },
        _ => {
            if format == FeedFormat::Native {
                lemma_rss1_plan_avoids(root, d.version);
                lemma_avoids_lookup(rss1_plan(root, d.version), k);
            } else {
                let native = spec_parse_rss1(root, d.version);
                lemma_rss1_to_atom_plan_avoids(native);
                lemma_avoids_lookup(rss1_to_atom_plan(native), k);
            }
        },
    }
}

/// A conversion happens once: what a non-raw conversion writes is no
/// longer an element, so when the XML rule's close fires again over it
/// (as it does for trailing white space) the node is kept as it is.
pub proof fn law_conversion_happens_once(root: Json, format: FeedFormat, parsed_here: bool)
    requires
        format != FeedFormat::Raw,
        spec_convert(root, format) is Ok,
    ensures
        !is_element(spec_convert(root, format)->Ok_0),
        close_ok(parsed_here, spec_convert(root, format)->Ok_0, format, CloseAction::Keep),
{
    lemma_converted_not_element(root, format);
}

/// None of the other keys of an Atom feed is `format`.
proof fn lemma_keys_not_format()
    ensures
        "authors"@ != "format"@,
        "categories"@ != "format"@,
        "contributors"@ != "format"@,
        "entries"@ != "format"@,
        "generator"@ != "format"@,
        "icon"@ != "format"@,
        "id"@ != "format"@,
        "links"@ != "format"@,
        "logo"@ != "format"@,
        "rights"@ != "format"@,
        "subtitle"@ != "format"@,
        "title"@ != "format"@,
        "updated"@ != "format"@,
        "version"@ != "format"@,
{
    reveal_strlit("format");
    reveal_strlit("authors");
    reveal_strlit("categories");
    reveal_strlit("contributors");
    reveal_strlit("entries");
    reveal_strlit("generator");
    reveal_strlit("icon");
    reveal_strlit("id");
    reveal_strlit("links");
    reveal_strlit("logo");
    reveal_strlit("rights");
    reveal_strlit("subtitle");
    reveal_strlit("title");
    reveal_strlit("updated");
    reveal_strlit("version");
    assert("format"@.len() == 6);
    assert("authors"@.len() == 7);
    assert("categories"@.len() == 10);
    assert("contributors"@.len() == 12);
    assert("entries"@.len() == 7);
    assert("generator"@.len() == 9);
    assert("icon"@.len() == 4);
    assert("id"@.len() == 2);
    assert("links"@.len() == 5);
    assert("logo"@.len() == 4);
    assert("rights"@.len() == 6);
    assert("rights"@[0] == 'r');
    assert("format"@[0] == 'f');
    assert("subtitle"@.len() == 8);
    assert("title"@.len() == 5);
    assert("updated"@.len() == 7);
    assert("version"@.len() == 7);
}

/// None of the other keys of an Atom feed is `version`.
proof fn lemma_keys_not_version()
    ensures
        "authors"@ != "version"@,
        "categories"@ != "version"@,
        "contributors"@ != "version"@,
        "entries"@ != "version"@,
        "format"@ != "version"@,
        "generator"@ != "version"@,
        "icon"@ != "version"@,
        "id"@ != "version"@,
        "links"@ != "version"@,
        "logo"@ != "version"@,
        "rights"@ != "version"@,
        "subtitle"@ != "version"@,
        "title"@ != "version"@,
        "updated"@ != "version"@,
{
    reveal_strlit("version");
    reveal_strlit("authors");
    reveal_strlit("categories");
    reveal_strlit("contributors");
    reveal_strlit("entries");
    reveal_strlit("format");
    reveal_strlit("generator");
    reveal_strlit("icon");
    reveal_strlit("id");
    reveal_strlit("links");
    reveal_strlit("logo");
    reveal_strlit("rights");
    reveal_strlit("subtitle");
    reveal_strlit("title");
    reveal_strlit("updated");
    assert("version"@.len() == 7);
    assert("authors"@.len() == 7);
    assert("authors"@[0] == 'a');
    assert("version"@[0] == 'v');
    assert("categories"@.len() == 10);
    assert("contributors"@.len() == 12);
    assert("entries"@.len() == 7);
    assert("entries"@[0] == 'e');
    assert("version"@[0] == 'v');
    assert("format"@.len() == 6);
    assert("generator"@.len() == 9);
    assert("icon"@.len() == 4);
    assert("id"@.len() == 2);
    assert("links"@.len() == 5);
    assert("logo"@.len() == 4);
    assert("rights"@.len() == 6);
    assert("subtitle"@.len() == 8);
    assert("title"@.len() == 5);
    assert("updated"@.len() == 7);
    assert("updated"@[0] == 'u');
    assert("version"@[0] == 'v');
}

/// None of the other keys of an Atom feed is `entries`.
proof fn lemma_keys_not_entries()
    ensures
        "authors"@ != "entries"@,
        "categories"@ != "entries"@,
        "contributors"@ != "entries"@,
        "format"@ != "entries"@,
        "generator"@ != "entries"@,
        "icon"@ != "entries"@,
        "id"@ != "entries"@,
        "links"@ != "entries"@,
        "logo"@ != "entries"@,
        "rights"@ != "entries"@,
        "subtitle"@ != "entries"@,
        "title"@ != "entries"@,
        "updated"@ != "entries"@,
        "version"@ != "entries"@,
{
    reveal_strlit("entries");
    reveal_strlit("authors");
    reveal_strlit("categories");
    reveal_strlit("contributors");
    reveal_strlit("format");
    reveal_strlit("generator");
    reveal_strlit("icon");
    reveal_strlit("id");
    reveal_strlit("links");
    reveal_strlit("logo");
    reveal_strlit("rights");
    reveal_strlit("subtitle");
    reveal_strlit("title");
    reveal_strlit("updated");
    reveal_strlit("version");
    assert("entries"@.len() == 7);
    assert("authors"@.len() == 7);
    assert("authors"@[0] == 'a');
    assert("entries"@[0] == 'e');
    assert("categories"@.len() == 10);
    assert("contributors"@.len() == 12);
    assert("format"@.len() == 6);
    assert("generator"@.len() == 9);
    assert("icon"@.len() == 4);
    assert("id"@.len() == 2);
    assert("links"@.len() == 5);
    assert("logo"@.len() == 4);
    assert("rights"@.len() == 6);
    assert("subtitle"@.len() == 8);
    assert("title"@.len() == 5);
    assert("updated"@.len() == 7);
    assert("updated"@[0] == 'u');
    assert("entries"@[0] == 'e');
    assert("version"@.len() == 7);
    assert("version"@[0] == 'v');
    assert("entries"@[0] == 'e');
}

/// The value of a key is that of its last field in the plan.
pub(crate) proof fn lemma_lookup_at(plan: Seq<Option<(Seq<char>, Json)>>, i: int, key: Seq<char>, v: Json)
    requires
        0 <= i < plan.len(),
        plan[i] == Some((key, v)),
        avoids(plan.skip(i + 1), key),
    ensures
        lookup(present(plan), key) == Some(v),
    decreases plan.len(),
{
    let rest = plan.drop_last();
    if plan.len() == i + 1 {
        assert(plan.last() == Some((key, v)));
        assert(present(plan) == present(rest).push((key, v)));
    } else {
        assert(plan.skip(i + 1)[plan.len() - i - 2] == plan.last());
        assert(avoids(rest.skip(i + 1), key)) by {
            assert forall|j: int| 0 <= j < rest.skip(i + 1).len() implies match #[trigger] rest.skip(i + 1)[j] {
                Some(p) => p.0 != key,
                None => true,
            } by {
                assert(rest.skip(i + 1)[j] == plan.skip(i + 1)[j]);
            }
        }
        lemma_lookup_at(rest, i, key, v);
        match plan.last() {
            Some(p) => {
                assert(present(plan) == present(rest).push(p));
                assert(present(plan).drop_last() =~= present(rest));
            },
            None => {},
        }
    }
}

/// The `format`, `version` and `entries` of a plan whose first three
/// fields they are.
pub open spec fn atom_shaped(v: Json) -> bool {
    &&& get_field(v, "format"@) == Some(Json::Str("atom"@))
    &&& (get_field(v, "version"@) == Some(Json::Str("1.0"@)) || get_field(v, "version"@) == Some(
        Json::Str("0.3"@),
    ))
    &&& get_field(v, "entries"@) matches Some(Json::Array(_))
}

proof fn lemma_plan_atom_shaped(plan: Seq<Option<(Seq<char>, Json)>>, version: Seq<char>, entries: Seq<Json>)
    requires
        plan.len() >= 3,
        plan[0] == Some(("format"@, Json::Str("atom"@))),
        plan[1] == Some(("version"@, Json::Str(version))),
        plan[2] == Some(("entries"@, Json::Array(entries))),
        version == "1.0"@ || version == "0.3"@,
        avoids(plan.skip(1), "format"@),
        avoids(plan.skip(2), "version"@),
        avoids(plan.skip(3), "entries"@),
    ensures
        atom_shaped(Json::Object(present(plan))),
{
    lemma_lookup_at(plan, 0, "format"@, Json::Str("atom"@));
    lemma_lookup_at(plan, 1, "version"@, Json::Str(version));
    lemma_lookup_at(plan, 2, "entries"@, Json::Array(entries));
}

proof fn lemma_atom_plan_shaped(root: Json, atom03: bool)
    ensures
        atom_shaped(spec_parse_atom(root, atom03)),
        get_field(spec_parse_atom(root, atom03), "version"@) == Some(
            Json::Str(by_version(atom03, "0.3"@, "1.0"@)),
        ),
{
    lemma_keys_not_format();
    lemma_keys_not_version();
    lemma_keys_not_entries();
    let head = atom_head(root, atom03);
    let tail = atom_tail(root, atom03);
    let plan = head + tail;
    assert(plan.skip(1) =~= head.skip(1) + tail);
    assert(plan.skip(2) =~= head.skip(2) + tail);
    assert(plan.skip(3) =~= head.skip(3) + tail);
    assert(avoids(tail, "format"@));
    assert(avoids(tail, "version"@));
    assert(avoids(tail, "entries"@));
    assert(avoids(head.skip(1), "format"@));
    assert(avoids(head.skip(2), "version"@));
    assert(avoids(head.skip(3), "entries"@));
    lemma_concat_avoids(head.skip(1), tail, "format"@);
    lemma_concat_avoids(head.skip(2), tail, "version"@);
    lemma_concat_avoids(head.skip(3), tail, "entries"@);
    assert(plan[0] == head[0]);
    assert(plan[1] == head[1]);
    assert(plan[2] == head[2]);
    reveal_strlit("0.3");
    reveal_strlit("1.0");
    let version = if atom03 {
        "0.3"@
    } else {
        "1.0"@
    };
    lemma_plan_atom_shaped(
        plan,
        version,
        find_children(root, "entry"@).map_values(|c| spec_parse_atom_entry(c, atom03)),
    );
    lemma_lookup_at(plan, 1, "version"@, Json::Str(version));
}

proof fn lemma_rss2_to_atom_shaped(native: Json)
    ensures
        atom_shaped(spec_rss2_to_atom(native)),
{
    lemma_keys_not_format();
    lemma_keys_not_version();
    lemma_keys_not_entries();
    let plan = rss2_to_atom_plan(native);
    assert(avoids(plan.skip(1), "format"@));
    assert(avoids(plan.skip(2), "version"@));
    assert(avoids(plan.skip(3), "entries"@));
    lemma_plan_atom_shaped(
        plan,
        "1.0"@,
        list(native, "items"@).map_values(|i| spec_rss2_item_to_atom_entry(i)),
    );
}

proof fn lemma_rss1_to_atom_shaped(native: Json)
    ensures
        atom_shaped(spec_rss1_to_atom(native)),
{
    lemma_keys_not_format();
    lemma_keys_not_version();
    lemma_keys_not_entries();
    let plan = rss1_to_atom_plan(native);
    assert(avoids(plan.skip(1), "format"@));
    assert(avoids(plan.skip(2), "version"@));
    assert(avoids(plan.skip(3), "entries"@));
    lemma_plan_atom_shaped(
        plan,
        "1.0"@,
        list(native, "items"@).map_values(|i| spec_rss1_item_to_atom_entry(i)),
    );
}

/// Every dialect arrives in the same shape: what the Atom format writes,
/// for an Atom, RSS or RDF document alike, is an object whose `format` is
/// `atom`, whose `version` is `1.0` (or `0.3` for an Atom 0.3 feed), and
/// whose `entries` is a list; so a reader written against Atom reads all
/// of them.
pub proof fn law_every_dialect_arrives_atom_shaped(root: Json)
    requires
        spec_convert(root, FeedFormat::Atom) is Ok,
    ensures
        atom_shaped(spec_convert(root, FeedFormat::Atom)->Ok_0),
{
    let d = spec_detect(root);
    match d.dialect {
        FeedDialect::Atom => lemma_atom_plan_shaped(root, d.version == FeedVersion::Atom03),
        FeedDialect::Rss => lemma_rss2_to_atom_shaped(spec_parse_rss2(root, d.version)),
        _ => lemma_rss1_to_atom_shaped(spec_parse_rss1(root, d.version)),
    }
}

/// None of the keys of an RSS or RDF feed after its first two is
/// `format` or `version`.
proof fn lemma_native_keys()
    ensures
        "version"@ != "format"@,
        forall|k: Seq<char>|
            #![trigger native_key(k)]
            native_key(k) ==> k != "format"@ && k != "version"@,
{
    reveal_strlit("format");
    reveal_strlit("version");
    reveal_strlit("title");
    reveal_strlit("link");
    reveal_strlit("description");
    reveal_strlit("items");
    reveal_strlit("language");
    reveal_strlit("copyright");
    reveal_strlit("managingEditor");
    reveal_strlit("webMaster");
    reveal_strlit("pubDate");
    reveal_strlit("lastBuildDate");
    reveal_strlit("categories");
    reveal_strlit("generator");
    reveal_strlit("docs");
    reveal_strlit("cloud");
    reveal_strlit("ttl");
    reveal_strlit("image");
    reveal_strlit("textInput");
    reveal_strlit("skipHours");
    reveal_strlit("skipDays");
    reveal_strlit("about");
    assert("format"@.len() == 6);
    assert("version"@.len() == 7);
    assert("version"@[0] == 'v');
    assert("pubDate"@.len() == 7);
    assert("pubDate"@[0] == 'p');
    assert("title"@.len() == 5);
    assert("link"@.len() == 4);
    assert("description"@.len() == 11);
    assert("items"@.len() == 5);
    assert("language"@.len() == 8);
    assert("copyright"@.len() == 9);
    assert("managingEditor"@.len() == 14);
    assert("webMaster"@.len() == 9);
    assert("lastBuildDate"@.len() == 13);
    assert("categories"@.len() == 10);
    assert("generator"@.len() == 9);
    assert("docs"@.len() == 4);
    assert("cloud"@.len() == 5);
    assert("ttl"@.len() == 3);
    assert("image"@.len() == 5);
    assert("textInput"@.len() == 9);
    assert("skipHours"@.len() == 9);
    assert("skipDays"@.len() == 8);
    assert("about"@.len() == 5);
}

/// The keys an RSS or RDF feed writes after its `format` and `version`.
spec fn native_key(k: Seq<char>) -> bool {
    ||| k == "title"@ || k == "link"@ || k == "description"@ || k == "items"@
    ||| k == "language"@ || k == "copyright"@ || k == "managingEditor"@ || k == "webMaster"@
    ||| k == "pubDate"@ || k == "lastBuildDate"@ || k == "categories"@ || k == "generator"@
    ||| k == "docs"@ || k == "cloud"@ || k == "ttl"@ || k == "image"@
    ||| k == "textInput"@ || k == "skipHours"@ || k == "skipDays"@ || k == "about"@
}

/// Every field of the plan after the first `n` has a native key.
spec fn native_after(plan: Seq<Option<(Seq<char>, Json)>>, n: int) -> bool {
    forall|i: int|
        n <= i < plan.len() ==> match #[trigger] plan[i] {
            Some(p) => native_key(p.0),
            None => true,
        }
}

proof fn lemma_native_after_avoids(plan: Seq<Option<(Seq<char>, Json)>>, n: int, key: Seq<char>)
    requires
        1 <= n <= 2 <= plan.len(),
        native_after(plan, 2),
        plan[1] matches Some(p) && p.0 == "version"@,
        key == "format"@ || (key == "version"@ && n == 2),
    ensures
        avoids(plan.skip(n), key),
{
    lemma_native_keys();
    assert forall|i: int| 0 <= i < plan.skip(n).len() implies match #[trigger] plan.skip(n)[i] {
        Some(p) => p.0 != key,
        None => true,
    } by {
        assert(plan.skip(n)[i] == plan[i + n]);
        if i + n >= 2 {
            match plan[i + n] {
                Some(p) => assert(native_key(p.0)),
                None => {},
            }
        }
    }
}

/// The version the native shape declares for a detected feed.
pub open spec fn native_version(d: Detection) -> Seq<char> {
    match d.dialect {
        FeedDialect::Atom => by_version(d.version == FeedVersion::Atom03, "0.3"@, "1.0"@),
        FeedDialect::Rss => declared_rss(d.version),
        _ => if d.version == FeedVersion::Rss090 {
            "0.90"@
        } else {
            "1.0"@
        },
    }
}

/// The native shape names its source: what the native format writes has
/// the detected family as its `format` (`atom`, `rss` or `rdf`) and the
/// version that family declares as its `version`: `1.0` or `0.3` for
/// Atom, `2.0`, `0.92` or `0.91` for RSS, `1.0` or `0.90` for RDF.
pub proof fn law_native_names_its_source(root: Json)
    requires
        spec_convert(root, FeedFormat::Native) is Ok,
    ensures
        ({
            let d = spec_detect(root);
            let out = spec_convert(root, FeedFormat::Native)->Ok_0;
            &&& get_field(out, "format"@) == Some(Json::Str(dialect_name(d.dialect)))
            &&& get_field(out, "version"@) == Some(Json::Str(native_version(d)))
        }),
{
    let d = spec_detect(root);
    match d.dialect {
        FeedDialect::Atom => lemma_atom_plan_shaped(root, d.version == FeedVersion::Atom03),
        FeedDialect::Rss => lemma_native_head(
            rss2_head(rss_channel(root), d.version) + rss2_tail(rss_channel(root)),
            "rss"@,
            declared_rss(d.version),
        ),
        _ => lemma_native_head(rss1_plan(root, d.version), "rdf"@, native_version(d)),
    }
}

/// A plan that starts with its `format` and `version` and then writes
/// only native keys has those two as its `format` and `version`.
proof fn lemma_native_head(plan: Seq<Option<(Seq<char>, Json)>>, format: Seq<char>, version: Seq<char>)
    requires
        plan.len() >= 2,
        plan[0] == Some(("format"@, Json::Str(format))),
        plan[1] == Some(("version"@, Json::Str(version))),
        native_after(plan, 2),
    ensures
        lookup(present(plan), "format"@) == Some(Json::Str(format)),
        lookup(present(plan), "version"@) == Some(Json::Str(version)),
{
    lemma_native_keys();
    lemma_native_after_avoids(plan, 2, "version"@);
    lemma_native_after_avoids(plan, 1, "format"@);
    lemma_lookup_at(plan, 0, "format"@, Json::Str(format));
    lemma_lookup_at(plan, 1, "version"@, Json::Str(version));
}

/// An Atom feed needs no mapping: its Atom-format result is its native one.
pub proof fn law_atom_is_its_own_native_shape(root: Json)
    requires
        spec_detect(root).dialect == FeedDialect::Atom,
    ensures
        spec_convert(root, FeedFormat::Atom) == spec_convert(root, FeedFormat::Native),
{
}

/// Every character is an ASCII digit.
pub open spec fn all_digits(d: Seq<char>) -> bool {
    forall|k: int| 0 <= k < d.len() ==> '0' <= #[trigger] d[k] && d[k] <= '9'
}

/// Every character is white space.
pub open spec fn all_space(ws: Seq<char>) -> bool {
    forall|k: int| 0 <= k < ws.len() ==> is_js_space(#[trigger] ws[k])
}

/// The text does not start with an ASCII digit.
pub open spec fn no_digit_first(s: Seq<char>) -> bool {
    s.len() == 0 || !('0' <= s[0] && s[0] <= '9')
}

proof fn lemma_trim_start_space(ws: Seq<char>, s: Seq<char>)
    requires
        all_space(ws),
    ensures
        trim_start(ws + s) == trim_start(s),
    decreases ws.len(),
{
    if ws.len() > 0 {
        assert((ws + s)[0] == ws[0]);
        assert((ws + s).drop_first() =~= ws.drop_first() + s);
        lemma_trim_start_space(ws.drop_first(), s);
    } else {
        assert(ws + s =~= s);
    }
}

proof fn lemma_digit_prefix_run(d: Seq<char>, rest: Seq<char>)
    requires
        all_digits(d),
        no_digit_first(rest),
    ensures
        digit_prefix(d + rest) == d,
    decreases d.len(),
{
    if d.len() > 0 {
        assert((d + rest)[0] == d[0]);
        assert((d + rest).drop_first() =~= d.drop_first() + rest);
        lemma_digit_prefix_run(d.drop_first(), rest);
        assert(d =~= seq![d[0]] + d.drop_first());
    } else {
        assert(d + rest =~= rest);
    }
}

/// `parseInt` reads the run of digits after any leading white space and
/// an optional sign, and stops at the first character that is not a
/// digit: white space, then an optional `-` or `+`, then a non-empty run
/// of digits, then anything that does not start with a digit, reads as
/// that run, with the `-` in front where the sign is `-`.
pub proof fn law_parse_int_reads_the_digit_run(ws: Seq<char>, sign: Seq<char>, d: Seq<char>, rest: Seq<char>)
    requires
        all_space(ws),
        sign == Seq::<char>::empty() || sign == seq!['-'] || sign == seq!['+'],
        d.len() > 0,
        all_digits(d),
        no_digit_first(rest),
    ensures
        spec_js_parse_int(ws + sign + d + rest) == if sign == seq!['-'] {
            seq!['-'] + d
        } else {
            d
        },
{
    let body = sign + d + rest;
    assert(ws + sign + d + rest =~= ws + body);
    lemma_trim_start_space(ws, body);
    assert(!is_js_space(body[0])) by {
        if sign.len() > 0 {
            assert(body[0] == sign[0]);
        } else {
            assert(body[0] == d[0]);
        }
    }
    assert(trim_start(body) == body);
    lemma_digit_prefix_run(d, rest);
    if sign.len() > 0 {
        assert(body.drop_first() =~= d + rest);
        assert(body[0] == sign[0]);
    } else {
        assert(body =~= d + rest);
        assert(body[0] == d[0]);
    }
}

/// `parseInt` of a text with no digit where the number should start is
/// NaN: after any leading white space, a character that is neither white
/// space, a digit nor a sign, or a sign not followed by a digit.
pub proof fn law_parse_int_without_digits_is_nan(ws: Seq<char>, c: char, rest: Seq<char>)
    requires
        all_space(ws),
        !is_js_space(c),
        !('0' <= c && c <= '9'),
        (c == '-' || c == '+') ==> no_digit_first(rest),
    ensures
        spec_js_parse_int(ws + seq![c] + rest) == seq!['N', 'a', 'N'],
{
    let body = seq![c] + rest;
    assert(ws + seq![c] + rest =~= ws + body);
    lemma_trim_start_space(ws, body);
    assert(body[0] == c);
    assert(trim_start(body) == body);
    if c == '-' || c == '+' {
        assert(body.drop_first() =~= rest);
        lemma_digit_prefix_run(Seq::empty(), rest);
        assert(Seq::<char>::empty() + rest =~= rest);
    }
}

/// Escaping an attribute value escapes each character on its own: the
/// escape of two texts one after the other is their escapes one after the
/// other.
pub proof fn law_escape_attr_concat(a: Seq<char>, b: Seq<char>)
    ensures
        spec_escape_attr(a + b) == spec_escape_attr(a) + spec_escape_attr(b),
    decreases b.len(),
{
    if b.len() == 0 {
        assert(a + b =~= a);
        assert(spec_escape_attr(a) + spec_escape_attr(b) =~= spec_escape_attr(a));
    } else {
        assert((a + b).drop_last() =~= a + b.drop_last());
        assert((a + b).last() == b.last());
        law_escape_attr_concat(a, b.drop_last());
        assert(spec_escape_attr(a) + spec_escape_attr(b) =~= spec_escape_attr(a) + spec_escape_attr(
            b.drop_last(),
        ) + escape_char(b.last()));
    }
}

/// One character escaped: `&` is `&amp;`, `"` is `&quot;`, `<` is `&lt;`,
/// `>` is `&gt;`, and every other character is itself.
pub proof fn law_escape_attr_char(c: char)
    ensures
        spec_escape_attr(seq![c]) == if c == '&' {
            "&amp;"@
        } else if c == '"' {
            "&quot;"@
        } else if c == '<' {
            "&lt;"@
        } else if c == '>' {
            "&gt;"@
        } else {
            seq![c]
        },
{
    reveal_strlit("&amp;");
    reveal_strlit("&quot;");
    reveal_strlit("&lt;");
    reveal_strlit("&gt;");
    assert(seq![c].drop_last() =~= Seq::<char>::empty());
    assert(seq![c].last() == c);
    assert(spec_escape_attr(Seq::<char>::empty()) == Seq::<char>::empty());
    assert(spec_escape_attr(seq![c]) == spec_escape_attr(seq![c].drop_last()) + escape_char(c));
    assert(Seq::<char>::empty() + escape_char(c) =~= escape_char(c));
    assert("&amp;"@ =~= seq!['&', 'a', 'm', 'p', ';']);
    assert("&quot;"@ =~= seq!['&', 'q', 'u', 'o', 't', ';']);
    assert("&lt;"@ =~= seq!['&', 'l', 't', ';']);
    assert("&gt;"@ =~= seq!['&', 'g', 't', ';']);
}

/// An escaped attribute value holds no `"`, `<` or `>`, so it cannot end
/// the attribute or the tag it is written in.
pub proof fn law_escaped_attr_is_inert(s: Seq<char>)
    ensures
        forall|k: int|
            0 <= k < spec_escape_attr(s).len() ==> #[trigger] spec_escape_attr(s)[k] != '"'
                && spec_escape_attr(s)[k] != '<' && spec_escape_attr(s)[k] != '>',
    decreases s.len(),
{
    if s.len() > 0 {
        law_escaped_attr_is_inert(s.drop_last());
        let a = spec_escape_attr(s.drop_last());
        let b = escape_char(s.last());
        assert(spec_escape_attr(s) == a + b);
        assert forall|k: int| 0 <= k < (a + b).len() implies #[trigger] (a + b)[k] != '"' && (a + b)[k]
            != '<' && (a + b)[k] != '>' by {
            if k >= a.len() {
                assert((a + b)[k] == b[k - a.len()]);
            } else {
                assert((a + b)[k] == a[k]);
            }
        }
    }
}

} // verus!
