//! RSS 2.0, 0.92 and 0.91, and RSS 1.0 and 0.90 (RDF), read into their
//! own shapes.

use vstd::prelude::*;
use crate::value::{text, Json, Value};
use crate::text::{js_parse_int, spec_js_parse_int};
use crate::object::{have, have_str, listed, maybe, maybe_str, obj, opt_value, Obj};
use crate::element::{
    attribute, attribute_of, attribute_truthy, attribute_truthy_of, child_text_of, find_child,
    find_child_either, find_child_either_of, find_child_in, find_child_in_of, find_child_of,
    find_children, or_text, text_of, text_of_value, text_or_none, text_or_none_of,
};
use crate::atom::{maybe_int, text_child};
use crate::detect::FeedVersion;
use crate::each::{map_parts, map_records, spec_part, spec_record, Part, Record};

verus! {

/// An RSS image: url, title and link always; width and height read with
/// `parseInt` and description where they have text.
pub open spec fn spec_parse_rss2_image(e: Json) -> Json {
    obj(
        seq![
            have_str("url"@, text_of(find_child(e, "url"@))),
            have_str("title"@, text_of(find_child(e, "title"@))),
            have_str("link"@, text_of(find_child(e, "link"@))),
            maybe_int("width"@, text_or_none(find_child(e, "width"@))),
            maybe_int("height"@, text_or_none(find_child(e, "height"@))),
            maybe_str("description"@, text_or_none(find_child(e, "description"@))),
        ],
    )
}

/// An RSS cloud: its attributes, the port read with `parseInt` (`0`
/// where it is absent or empty).
pub open spec fn spec_parse_rss2_cloud(e: Json) -> Json {
    obj(
        seq![
            have_str("domain"@, or_text(attribute(e, "domain"@), Seq::empty())),
            have(
                "port"@,
                Json::Number(spec_js_parse_int(or_text(attribute_truthy(e, "port"@), "0"@))),
            ),
            have_str("path"@, or_text(attribute(e, "path"@), Seq::empty())),
            have_str("registerProcedure"@, or_text(attribute(e, "registerProcedure"@), Seq::empty())),
            have_str("protocol"@, or_text(attribute(e, "protocol"@), Seq::empty())),
        ],
    )
}

/// An RSS text input: the texts of its four children.
pub open spec fn spec_parse_rss2_text_input(e: Json) -> Json {
    obj(
        seq![
            have_str("title"@, text_of(find_child(e, "title"@))),
            have_str("description"@, text_of(find_child(e, "description"@))),
            have_str("name"@, text_of(find_child(e, "name"@))),
            have_str("link"@, text_of(find_child(e, "link"@))),
        ],
    )
}

/// An RSS category: its domain wherever the attribute is there, and its
/// text.
pub open spec fn spec_parse_rss2_category(e: Json) -> Json {
    obj(seq![maybe_str("domain"@, attribute(e, "domain"@)), have_str("value"@, text_of(Some(e)))])
}

/// An RSS enclosure.
pub open spec fn spec_enclosure(e: Json) -> Json {
    obj(
        seq![
            have_str("url"@, or_text(attribute(e, "url"@), Seq::empty())),
            maybe_int("length"@, attribute_truthy(e, "length"@)),
            maybe_str("type"@, attribute_truthy(e, "type"@)),
        ],
    )
}

/// An RSS guid: where the `isPermaLink` attribute is there, it is true
/// unless it is exactly `false`.
pub open spec fn spec_guid(e: Json) -> Json {
    obj(
        seq![
            have_str("value"@, text_of(Some(e))),
            maybe(
                "isPermaLink"@,
                match attribute(e, "isPermaLink"@) {
                    Some(p) => Some(Json::Bool(p != "false"@)),
                    None => None,
                },
            ),
        ],
    )
}

/// An RSS source.
pub open spec fn spec_source(e: Json) -> Json {
    obj(seq![maybe_str("url"@, attribute(e, "url"@)), have_str("value"@, text_of(Some(e)))])
}

/// A field read from a child that may be absent.
pub open spec fn child_as(key: Seq<char>, o: Option<Json>, f: spec_fn(Json) -> Json) -> Option<
    (Seq<char>, Json),
> {
    match o {
        Some(c) => Some((key, f(c))),
        None => None,
    }
}

/// An RSS item.
pub open spec fn spec_parse_rss2_item(e: Json) -> Json {
    obj(
        seq![
            text_child("title"@, find_child(e, "title"@)),
            text_child("link"@, find_child(e, "link"@)),
            text_child("description"@, find_child(e, "description"@)),
            text_child("author"@, find_child(e, "author"@)),
            listed(
                "categories"@,
                find_children(e, "category"@).map_values(|c| spec_parse_rss2_category(c)),
            ),
            text_child("comments"@, find_child(e, "comments"@)),
            child_as("enclosure"@, find_child(e, "enclosure"@), |c| spec_enclosure(c)),
            child_as("guid"@, find_child(e, "guid"@), |c| spec_guid(c)),
            text_child("pubDate"@, find_child(e, "pubDate"@)),
            child_as("source"@, find_child(e, "source"@), |c| spec_source(c)),
        ],
    )
}

/// The version an RSS feed reports: 0.92 and 0.91 as declared, else 2.0.
pub open spec fn declared_rss(version: FeedVersion) -> Seq<char> {
    match version {
        FeedVersion::Rss092 => "0.92"@,
        FeedVersion::Rss091u | FeedVersion::Rss091n => "0.91"@,
        _ => "2.0"@,
    }
}

/// The element an RSS feed's fields are read from: its channel, else
/// the root itself.
pub open spec fn rss_channel(root: Json) -> Json {
    match find_child(root, "channel"@) {
        Some(c) => c,
        None => root,
    }
}

/// The RSS text fields and items of a channel.
pub open spec fn rss2_head(channel: Json, version: FeedVersion) -> Seq<Option<(Seq<char>, Json)>> {
    seq![
        have_str("format"@, "rss"@),
        have_str("version"@, declared_rss(version)),
        have_str("title"@, text_of(find_child(channel, "title"@))),
        have_str("link"@, text_of(find_child(channel, "link"@))),
        have_str("description"@, text_of(find_child(channel, "description"@))),
        have(
            "items"@,
            Json::Array(find_children(channel, "item"@).map_values(|c| spec_parse_rss2_item(c))),
        ),
        text_child("language"@, find_child(channel, "language"@)),
        text_child("copyright"@, find_child(channel, "copyright"@)),
        text_child("managingEditor"@, find_child(channel, "managingEditor"@)),
        text_child("webMaster"@, find_child(channel, "webMaster"@)),
        text_child("pubDate"@, find_child(channel, "pubDate"@)),
        text_child("lastBuildDate"@, find_child(channel, "lastBuildDate"@)),
    ]
}

/// A `ttl`, `skipHours` or `skipDays` element read: the number of its
/// text, the numbers of its hours, the texts of its days.
pub open spec fn spec_ttl(c: Json) -> Json {
    Json::Number(spec_js_parse_int(text_of(Some(c))))
}

pub open spec fn spec_skip_hours(c: Json) -> Json {
    Json::Array(find_children(c, "hour"@).map_values(|h| spec_part(Part::Hour, h)))
}

pub open spec fn spec_skip_days(c: Json) -> Json {
    Json::Array(find_children(c, "day"@).map_values(|d| spec_part(Part::Day, d)))
}

/// The RSS channel's remaining fields, in order.
pub open spec fn rss2_tail(channel: Json) -> Seq<Option<(Seq<char>, Json)>> {
    seq![
        listed(
            "categories"@,
            find_children(channel, "category"@).map_values(|c| spec_parse_rss2_category(c)),
        ),
        text_child("generator"@, find_child(channel, "generator"@)),
        text_child("docs"@, find_child(channel, "docs"@)),
        child_as("cloud"@, find_child(channel, "cloud"@), |c| spec_parse_rss2_cloud(c)),
        child_as("ttl"@, find_child(channel, "ttl"@), |c| spec_ttl(c)),
        child_as("image"@, find_child(channel, "image"@), |c| spec_parse_rss2_image(c)),
        child_as(
            "textInput"@,
            find_child_either(channel, "textInput"@, "textinput"@),
            |c| spec_parse_rss2_text_input(c),
        ),
        child_as("skipHours"@, find_child(channel, "skipHours"@), |c| spec_skip_hours(c)),
        child_as("skipDays"@, find_child(channel, "skipDays"@), |c| spec_skip_days(c)),
    ]
}

/// An `<rss>` feed in its own shape.
pub open spec fn spec_parse_rss2(root: Json, version: FeedVersion) -> Json {
    let channel = rss_channel(root);
    obj(rss2_head(channel, version) + rss2_tail(channel))
}

/// An RDF image.
pub open spec fn spec_parse_rss1_image(e: Json) -> Json {
    obj(
        seq![
            maybe_str("about"@, attribute(e, "rdf:about"@)),
            have_str("title"@, text_of(find_child(e, "title"@))),
            have_str("link"@, text_of(find_child(e, "link"@))),
            have_str("url"@, text_of(find_child(e, "url"@))),
        ],
    )
}

/// An RDF text input.
pub open spec fn spec_parse_rss1_text_input(e: Json) -> Json {
    obj(
        seq![
            maybe_str("about"@, attribute(e, "rdf:about"@)),
            have_str("title"@, text_of(find_child(e, "title"@))),
            have_str("description"@, text_of(find_child(e, "description"@))),
            have_str("name"@, text_of(find_child(e, "name"@))),
            have_str("link"@, text_of(find_child(e, "link"@))),
        ],
    )
}

/// An RDF item.
pub open spec fn spec_parse_rss1_item(e: Json) -> Json {
    obj(
        seq![
            have_str("title"@, text_of(find_child(e, "title"@))),
            have_str("link"@, text_of(find_child(e, "link"@))),
            maybe_str("about"@, attribute_truthy(e, "rdf:about"@)),
            text_child("description"@, find_child(e, "description"@)),
        ],
    )
}

/// The `rdf:about` of a channel that may be absent, where it has text.
pub open spec fn channel_about(channel: Option<Json>) -> Option<Seq<char>> {
    match channel {
        Some(c) => attribute_truthy(c, "rdf:about"@),
        None => None,
    }
}

/// An RDF feed in its own shape: the items sit on the root, beside the
/// channel.
pub open spec fn spec_parse_rss1(root: Json, version: FeedVersion) -> Json {
    obj(rss1_plan(root, version))
}

/// The fields of an RDF feed, in order.
pub open spec fn rss1_plan(root: Json, version: FeedVersion) -> Seq<Option<(Seq<char>, Json)>> {
    let channel = find_child(root, "channel"@);
    seq![
            have_str("format"@, "rdf"@),
            have_str(
                "version"@,
                if version == FeedVersion::Rss090 {
                    "0.90"@
                } else {
                    "1.0"@
                },
            ),
            have_str("title"@, text_of(find_child_in(channel, "title"@))),
            have_str("link"@, text_of(find_child_in(channel, "link"@))),
            have(
                "items"@,
                Json::Array(find_children(root, "item"@).map_values(|c| spec_part(Part::RdfItem, c))),
            ),
            maybe_str("about"@, channel_about(channel)),
            text_child("description"@, find_child_in(channel, "description"@)),
            child_as("image"@, find_child(root, "image"@), |c| spec_parse_rss1_image(c)),
            child_as(
                "textInput"@,
                find_child_either(root, "textinput"@, "textInput"@),
                |c| spec_parse_rss1_text_input(c),
            ),
    ]
}

// --- Exec ------------------------------------------------------------------

fn attr_or_empty<'a>(e: &'a Value, name: &str) -> (r: &'a str)
    ensures
        r@ == or_text(attribute(e@, name@), Seq::empty()),
{
    proof {
        reveal_strlit("");
    }
    match attribute_of(e, name) {
        Some(a) => a,
        None => "",
    }
}

fn int_of(o: Option<&str>) -> (r: Option<Value>)
    ensures
        opt_value(r) == match crate::object::opt_text(o) {
            Some(s) => Some(Json::Number(spec_js_parse_int(s))),
            None => None,
        },
{
    match o {
        Some(s) => Some(Value::Number(js_parse_int(s))),
        None => None,
    }
}

fn int_of_string(o: Option<String>) -> (r: Option<Value>)
    ensures
        opt_value(r) == match crate::object::opt_string(o) {
            Some(s) => Some(Json::Number(spec_js_parse_int(s))),
            None => None,
        },
{
    match o {
        Some(s) => Some(Value::Number(js_parse_int(s.as_str()))),
        None => None,
    }
}

/// An RSS image element.
pub fn parse_rss2_image(e: &Value) -> (r: Value)
    ensures
        r@ == spec_parse_rss2_image(e@),
{
    let mut o = Obj::new();
    o.put_text("url", text_of_value(find_child_of(e, "url")));
    o.put_text("title", text_of_value(find_child_of(e, "title")));
    o.put_text("link", text_of_value(find_child_of(e, "link")));
    o.maybe("width", int_of_string(text_or_none_of(find_child_of(e, "width"))));
    o.maybe("height", int_of_string(text_or_none_of(find_child_of(e, "height"))));
    o.maybe_text("description", text_or_none_of(find_child_of(e, "description")));
    proof {
        let j = e@;
        assert(o.plan() =~= seq![
            have_str("url"@, text_of(find_child(j, "url"@))),
            have_str("title"@, text_of(find_child(j, "title"@))),
            have_str("link"@, text_of(find_child(j, "link"@))),
            maybe_int("width"@, text_or_none(find_child(j, "width"@))),
            maybe_int("height"@, text_or_none(find_child(j, "height"@))),
            maybe_str("description"@, text_or_none(find_child(j, "description"@))),
        ]);
    }
    o.done()
}

/// An RSS cloud element.
pub fn parse_rss2_cloud(e: &Value) -> (r: Value)
    ensures
        r@ == spec_parse_rss2_cloud(e@),
{
    let port = match attribute_truthy_of(e, "port") {
        Some(p) => p,
        None => "0",
    };
    let mut o = Obj::new();
    o.put_str("domain", attr_or_empty(e, "domain"));
    o.put("port", Value::Number(js_parse_int(port)));
    o.put_str("path", attr_or_empty(e, "path"));
    o.put_str("registerProcedure", attr_or_empty(e, "registerProcedure"));
    o.put_str("protocol", attr_or_empty(e, "protocol"));
    proof {
        let j = e@;
        assert(o.plan() =~= seq![
            have_str("domain"@, or_text(attribute(j, "domain"@), Seq::empty())),
            have(
                "port"@,
                Json::Number(spec_js_parse_int(or_text(attribute_truthy(j, "port"@), "0"@))),
            ),
            have_str("path"@, or_text(attribute(j, "path"@), Seq::empty())),
            have_str("registerProcedure"@, or_text(attribute(j, "registerProcedure"@), Seq::empty())),
            have_str("protocol"@, or_text(attribute(j, "protocol"@), Seq::empty())),
        ]);
    }
    o.done()
}

/// An RSS text input element.
pub fn parse_rss2_text_input(e: &Value) -> (r: Value)
    ensures
        r@ == spec_parse_rss2_text_input(e@),
{
    let mut o = Obj::new();
    o.put_text("title", text_of_value(find_child_of(e, "title")));
    o.put_text("description", text_of_value(find_child_of(e, "description")));
    o.put_text("name", text_of_value(find_child_of(e, "name")));
    o.put_text("link", text_of_value(find_child_of(e, "link")));
    proof {
        let j = e@;
        assert(o.plan() =~= seq![
            have_str("title"@, text_of(find_child(j, "title"@))),
            have_str("description"@, text_of(find_child(j, "description"@))),
            have_str("name"@, text_of(find_child(j, "name"@))),
            have_str("link"@, text_of(find_child(j, "link"@))),
        ]);
    }
    o.done()
}

/// An RSS category element.
pub fn parse_rss2_category(e: &Value) -> (r: Value)
    ensures
        r@ == spec_parse_rss2_category(e@),
{
    let mut o = Obj::new();
    o.maybe_str("domain", attribute_of(e, "domain"));
    o.put_text("value", text_of_value(Some(e)));
    proof {
        assert(o.plan() =~= seq![
            maybe_str("domain"@, attribute(e@, "domain"@)),
            have_str("value"@, text_of(Some(e@))),
        ]);
    }
    o.done()
}

fn enclosure_of(e: &Value) -> (r: Value)
    ensures
        r@ == spec_enclosure(e@),
{
    let mut o = Obj::new();
    o.put_str("url", attr_or_empty(e, "url"));
    o.maybe("length", int_of(attribute_truthy_of(e, "length")));
    o.maybe_str("type", attribute_truthy_of(e, "type"));
    proof {
        assert(o.plan() =~= seq![
            have_str("url"@, or_text(attribute(e@, "url"@), Seq::empty())),
            maybe_int("length"@, attribute_truthy(e@, "length"@)),
            maybe_str("type"@, attribute_truthy(e@, "type"@)),
        ]);
    }
    o.done()
}

fn guid_of(e: &Value) -> (r: Value)
    ensures
        r@ == spec_guid(e@),
{
    let mut o = Obj::new();
    o.put_text("value", text_of_value(Some(e)));
    // Presence of the attribute decides, and only the exact text `false`
    // turns it off.
    let permalink = match attribute_of(e, "isPermaLink") {
        Some(p) => Some(Value::Bool(!crate::value::text_eq(p, "false"))),
        None => None,
    };
    o.maybe("isPermaLink", permalink);
    proof {
        assert(o.plan() =~= seq![
            have_str("value"@, text_of(Some(e@))),
            maybe(
                "isPermaLink"@,
                match attribute(e@, "isPermaLink"@) {
                    Some(p) => Some(Json::Bool(p != "false"@)),
                    None => None,
                },
            ),
        ]);
    }
    o.done()
}

fn source_of(e: &Value) -> (r: Value)
    ensures
        r@ == spec_source(e@),
{
    let mut o = Obj::new();
    o.maybe_str("url", attribute_of(e, "url"));
    o.put_text("value", text_of_value(Some(e)));
    proof {
        assert(o.plan() =~= seq![
            maybe_str("url"@, attribute(e@, "url"@)),
            have_str("value"@, text_of(Some(e@))),
        ]);
    }
    o.done()
}

/// An RSS item element.
pub fn parse_rss2_item(e: &Value) -> (r: Value)
    ensures
        r@ == spec_parse_rss2_item(e@),
{
    let mut o = Obj::new();
    o.maybe_text("title", child_text_of(find_child_of(e, "title")));
    o.maybe_text("link", child_text_of(find_child_of(e, "link")));
    o.maybe_text("description", child_text_of(find_child_of(e, "description")));
    o.maybe_text("author", child_text_of(find_child_of(e, "author")));
    o.list("categories", map_parts(e, "category", Part::RssCategory));
    o.maybe_text("comments", child_text_of(find_child_of(e, "comments")));
    let enclosure = match find_child_of(e, "enclosure") {
        Some(c) => Some(enclosure_of(c)),
        None => None,
    };
    o.maybe("enclosure", enclosure);
    let guid = match find_child_of(e, "guid") {
        Some(c) => Some(guid_of(c)),
        None => None,
    };
    o.maybe("guid", guid);
    o.maybe_text("pubDate", child_text_of(find_child_of(e, "pubDate")));
    let source = match find_child_of(e, "source") {
        Some(c) => Some(source_of(c)),
        None => None,
    };
    o.maybe("source", source);
    proof {
        let j = e@;
        assert(find_children(j, "category"@).map_values(|c| spec_part(Part::RssCategory, c))
            =~= find_children(j, "category"@).map_values(|c| spec_parse_rss2_category(c)));
        assert(o.plan() =~= seq![
            text_child("title"@, find_child(j, "title"@)),
            text_child("link"@, find_child(j, "link"@)),
            text_child("description"@, find_child(j, "description"@)),
            text_child("author"@, find_child(j, "author"@)),
            listed(
                "categories"@,
                find_children(j, "category"@).map_values(|c| spec_parse_rss2_category(c)),
            ),
            text_child("comments"@, find_child(j, "comments"@)),
            child_as("enclosure"@, find_child(j, "enclosure"@), |c| spec_enclosure(c)),
            child_as("guid"@, find_child(j, "guid"@), |c| spec_guid(c)),
            text_child("pubDate"@, find_child(j, "pubDate"@)),
            child_as("source"@, find_child(j, "source"@), |c| spec_source(c)),
        ]);
    }
    o.done()
}

fn declared_of(version: FeedVersion) -> (r: &'static str)
    ensures
        r@ == declared_rss(version),
{
    match version {
        FeedVersion::Rss092 => "0.92",
        FeedVersion::Rss091u | FeedVersion::Rss091n => "0.91",
        _ => "2.0",
    }
}

fn rss2_head_of(channel: &Value, version: FeedVersion) -> (o: Obj)
    ensures
        o.wf(),
        o.plan() == rss2_head(channel@, version),
{
    let mut o = Obj::new();
    o.put_str("format", "rss");
    o.put_str("version", declared_of(version));
    o.put_text("title", text_of_value(find_child_of(channel, "title")));
    o.put_text("link", text_of_value(find_child_of(channel, "link")));
    o.put_text("description", text_of_value(find_child_of(channel, "description")));
    // Items sit on the channel in RSS 0.92 and 2.0.
    o.put("items", Value::Array(map_records(channel, "item", Record::RssItem)));
    o.maybe_text("language", child_text_of(find_child_of(channel, "language")));
    o.maybe_text("copyright", child_text_of(find_child_of(channel, "copyright")));
    o.maybe_text("managingEditor", child_text_of(find_child_of(channel, "managingEditor")));
    o.maybe_text("webMaster", child_text_of(find_child_of(channel, "webMaster")));
    o.maybe_text("pubDate", child_text_of(find_child_of(channel, "pubDate")));
    o.maybe_text("lastBuildDate", child_text_of(find_child_of(channel, "lastBuildDate")));
    proof {
        let ch = channel@;
        assert(find_children(ch, "item"@).map_values(|c| spec_record(Record::RssItem, c))
            =~= find_children(ch, "item"@).map_values(|c| spec_parse_rss2_item(c)));
        assert(o.plan() =~= rss2_head(ch, version));
    }
    o
}

fn rss2_tail_of(channel: &Value, o: &mut Obj)
    requires
        old(o).wf(),
    ensures
        final(o).wf(),
        final(o).plan() == old(o).plan() + rss2_tail(channel@),
{
    let ghost start = o.plan();
    o.list("categories", map_parts(channel, "category", Part::RssCategory));
    o.maybe_text("generator", child_text_of(find_child_of(channel, "generator")));
    o.maybe_text("docs", child_text_of(find_child_of(channel, "docs")));
    let cloud = match find_child_of(channel, "cloud") {
        Some(c) => Some(parse_rss2_cloud(c)),
        None => None,
    };
    o.maybe("cloud", cloud);
    let ttl = match find_child_of(channel, "ttl") {
        Some(c) => Some(Value::Number(js_parse_int(text_of_value(Some(c)).as_str()))),
        None => None,
    };
    o.maybe("ttl", ttl);
    let image = match find_child_of(channel, "image") {
        Some(c) => Some(parse_rss2_image(c)),
        None => None,
    };
    o.maybe("image", image);
    let text_input = match find_child_either_of(channel, "textInput", "textinput") {
        Some(c) => Some(parse_rss2_text_input(c)),
        None => None,
    };
    o.maybe("textInput", text_input);
    let hours = match find_child_of(channel, "skipHours") {
        Some(c) => Some(Value::Array(map_parts(c, "hour", Part::Hour))),
        None => None,
    };
    o.maybe("skipHours", hours);
    let days = match find_child_of(channel, "skipDays") {
        Some(c) => Some(Value::Array(map_parts(c, "day", Part::Day))),
        None => None,
    };
    o.maybe("skipDays", days);
    proof {
        let ch = channel@;
        assert(find_children(ch, "category"@).map_values(|c| spec_part(Part::RssCategory, c))
            =~= find_children(ch, "category"@).map_values(|c| spec_parse_rss2_category(c)));
        assert(o.plan() =~= start + rss2_tail(ch));
    }
}

/// An `<rss>` root element.
pub fn parse_rss2(root: &Value, version: FeedVersion) -> (r: Value)
    ensures
        r@ == spec_parse_rss2(root@, version),
{
    let channel = match find_child_of(root, "channel") {
        Some(c) => c,
        None => root,
    };
    let mut o = rss2_head_of(channel, version);
    rss2_tail_of(channel, &mut o);
    o.done()
}

/// An RDF image element.
pub fn parse_rss1_image(e: &Value) -> (r: Value)
    ensures
        r@ == spec_parse_rss1_image(e@),
{
    let mut o = Obj::new();
    o.maybe_str("about", attribute_of(e, "rdf:about"));
    o.put_text("title", text_of_value(find_child_of(e, "title")));
    o.put_text("link", text_of_value(find_child_of(e, "link")));
    o.put_text("url", text_of_value(find_child_of(e, "url")));
    proof {
        let j = e@;
        assert(o.plan() =~= seq![
            maybe_str("about"@, attribute(j, "rdf:about"@)),
            have_str("title"@, text_of(find_child(j, "title"@))),
            have_str("link"@, text_of(find_child(j, "link"@))),
            have_str("url"@, text_of(find_child(j, "url"@))),
        ]);
    }
    o.done()
}

/// An RDF text input element.
pub fn parse_rss1_text_input(e: &Value) -> (r: Value)
    ensures
        r@ == spec_parse_rss1_text_input(e@),
{
    let mut o = Obj::new();
    o.maybe_str("about", attribute_of(e, "rdf:about"));
    o.put_text("title", text_of_value(find_child_of(e, "title")));
    o.put_text("description", text_of_value(find_child_of(e, "description")));
    o.put_text("name", text_of_value(find_child_of(e, "name")));
    o.put_text("link", text_of_value(find_child_of(e, "link")));
    proof {
        let j = e@;
        assert(o.plan() =~= seq![
            maybe_str("about"@, attribute(j, "rdf:about"@)),
            have_str("title"@, text_of(find_child(j, "title"@))),
            have_str("description"@, text_of(find_child(j, "description"@))),
            have_str("name"@, text_of(find_child(j, "name"@))),
            have_str("link"@, text_of(find_child(j, "link"@))),
        ]);
    }
    o.done()
}

/// An RDF item element.
pub fn parse_rss1_item(e: &Value) -> (r: Value)
    ensures
        r@ == spec_parse_rss1_item(e@),
{
    let mut o = Obj::new();
    o.put_text("title", text_of_value(find_child_of(e, "title")));
    o.put_text("link", text_of_value(find_child_of(e, "link")));
    o.maybe_str("about", attribute_truthy_of(e, "rdf:about"));
    o.maybe_text("description", child_text_of(find_child_of(e, "description")));
    proof {
        let j = e@;
        assert(o.plan() =~= seq![
            have_str("title"@, text_of(find_child(j, "title"@))),
            have_str("link"@, text_of(find_child(j, "link"@))),
            maybe_str("about"@, attribute_truthy(j, "rdf:about"@)),
            text_child("description"@, find_child(j, "description"@)),
        ]);
    }
    o.done()
}

/// An RDF root element.
pub fn parse_rss1(root: &Value, version: FeedVersion) -> (r: Value)
    ensures
        r@ == spec_parse_rss1(root@, version),
{
    let channel = find_child_of(root, "channel");
    let items = map_parts(root, "item", Part::RdfItem);
    let mut o = Obj::new();
    o.put_str("format", "rdf");
    let declared = if version == FeedVersion::Rss090 {
        "0.90"
    } else {
        "1.0"
    };
    o.put_str("version", declared);
    o.put_text("title", text_of_value(find_child_in_of(channel, "title")));
    o.put_text("link", text_of_value(find_child_in_of(channel, "link")));
    o.put("items", Value::Array(items));
    let about = match channel {
        Some(c) => attribute_truthy_of(c, "rdf:about"),
        None => None,
    };
    o.maybe_str("about", about);
    o.maybe_text("description", child_text_of(find_child_in_of(channel, "description")));
    let image = match find_child_of(root, "image") {
        Some(c) => Some(parse_rss1_image(c)),
        None => None,
    };
    o.maybe("image", image);
    let text_input = match find_child_either_of(root, "textinput", "textInput") {
        Some(c) => Some(parse_rss1_text_input(c)),
        None => None,
    };
    o.maybe("textInput", text_input);
    proof {
        let j = root@;
        let ch = find_child(j, "channel"@);
        assert(o.plan() =~= seq![
            have_str("format"@, "rdf"@),
            have_str(
                "version"@,
                if version == FeedVersion::Rss090 {
                    "0.90"@
                } else {
                    "1.0"@
                },
            ),
            have_str("title"@, text_of(find_child_in(ch, "title"@))),
            have_str("link"@, text_of(find_child_in(ch, "link"@))),
            have(
                "items"@,
                Json::Array(find_children(j, "item"@).map_values(|c| spec_part(Part::RdfItem, c))),
            ),
            maybe_str("about"@, channel_about(ch)),
            text_child("description"@, find_child_in(ch, "description"@)),
            child_as("image"@, find_child(j, "image"@), |c| spec_parse_rss1_image(c)),
            child_as(
                "textInput"@,
                find_child_either(j, "textinput"@, "textInput"@),
                |c| spec_parse_rss1_text_input(c),
            ),
        ]);
    }
    o.done()
}

} // verus!
