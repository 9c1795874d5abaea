// Whole documents of each dialect, read to both shapes, and the smaller
// pieces the reading is made of.

use tabnas_feed::{
    convert, detect, escape_attr, js_parse_int, js_trim, on_xml_close, parse_rss_person,
    person_from_match, CloseAction, Detection, FeedDialect, FeedFormat, FeedOptions, FeedVersion,
    Value,
};

/// An engine value as the library's value.
fn to_lib(value: &tabnas::Value) -> Value {
    match value {
        tabnas::Value::Undefined => Value::Undefined,
        tabnas::Value::Null => Value::Null,
        tabnas::Value::Bool(b) => Value::Bool(*b),
        tabnas::Value::Number(n) => Value::Number(format!("{n}")),
        tabnas::Value::String(s) => Value::String(s.clone()),
        tabnas::Value::Text(t) => Value::String(t.string.clone()),
        tabnas::Value::Array(items) => Value::Array(items.iter().map(to_lib).collect()),
        tabnas::Value::ListRef(list) => Value::Array(list.value.iter().map(to_lib).collect()),
        tabnas::Value::Object(fields) => Value::Object(
            fields
                .iter()
                .map(|(k, v)| (k.clone(), to_lib(v)))
                .collect(),
        ),
        tabnas::Value::MapRef(map) => Value::Object(
            map.value
                .iter()
                .map(|(k, v)| (k.clone(), to_lib(v)))
                .collect(),
        ),
    }
}

/// The library's value as an engine value.
fn to_engine(value: &Value) -> tabnas::Value {
    match value {
        Value::Undefined => tabnas::Value::Undefined,
        Value::Null => tabnas::Value::Null,
        Value::Bool(b) => tabnas::Value::Bool(*b),
        Value::Number(n) => tabnas::Value::Number(n.parse().unwrap_or(f64::NAN)),
        Value::String(s) => tabnas::Value::String(s.clone()),
        Value::Array(items) => tabnas::Value::array(items.iter().map(to_engine).collect()),
        Value::Object(fields) => {
            let mut map = indexmap::IndexMap::new();
            for (k, v) in fields {
                map.insert(k.clone(), to_engine(v));
            }
            tabnas::Value::object(map)
        }
    }
}

/// The JSON text of a value, as the engine renders it.
fn json(value: &Value) -> String {
    to_engine(value).to_json().to_string()
}

fn to_json(value: &Value) -> serde_json::Value {
    to_engine(value).to_json()
}

/// The element tree of a document, namespaces enforced or not.
fn tree(src: &str, strict: bool) -> Result<Value, String> {
    let options = tabnas_xml::XmlOptions {
        strict_namespaces: strict,
        ..tabnas_xml::XmlOptions::default()
    };
    tabnas_xml::make_with(&options)
        .parse(src)
        .map(|value| to_lib(&value))
        .map_err(|error| error.to_string())
}

/// A document read the way the plugin reads it: the XML tree, then what
/// the close of the XML rule does with it.
fn parse_with(src: &str, options: &FeedOptions) -> Result<Value, String> {
    let root = tree(src, options.strict_namespaces)?;
    match on_xml_close(true, &root, options.format) {
        CloseAction::Keep => Ok(root),
        CloseAction::Replace(value) => Ok(value),
        CloseAction::Refuse(message) => Err(message),
    }
}

fn parse_default(src: &str) -> Result<Value, String> {
    parse_with(src, &FeedOptions::default())
}

fn parse_native(src: &str) -> Result<Value, String> {
    parse_with(
        src,
        &FeedOptions {
            format: FeedFormat::Native,
            ..FeedOptions::default()
        },
    )
}

fn parse_raw(src: &str) -> Result<Value, String> {
    parse_with(
        src,
        &FeedOptions {
            format: FeedFormat::Raw,
            ..FeedOptions::default()
        },
    )
}

fn number(text: &str) -> f64 {
    js_parse_int(text).parse().expect("a decimal text or NaN")
}


#[test]
fn an_rss_feed_maps_every_field_onto_atom() {
    let src = "<rss version=\"2.0\"><channel><title>T</title><link>http://l/</link>\
        <description>D</description><copyright>C</copyright>\
        <managingEditor>ed@x.org (Ed)</managingEditor><lastBuildDate>LB</lastBuildDate>\
        <pubDate>PD</pubDate><generator>G</generator><category domain=\"dm\">cat</category>\
        <image><url>http://i/</url><title>IT</title><link>http://il/</link></image>\
        <item><title>IT1</title><link>http://a/1</link>\
        <description>&lt;b&gt;x&lt;/b&gt;</description><author>a@x.org</author>\
        <category>c1</category><comments>http://c/</comments>\
        <enclosure url=\"http://e/\" length=\"0\" type=\"audio/mpeg\"/>\
        <guid isPermaLink=\"false\">g1</guid><pubDate>P1</pubDate>\
        <source url=\"http://s/\">Src</source></item></channel></rss>";
    let value = parse_default(src).expect("the document parses");
    let entry = [
        r#"{"title":{"type":"text","value":"IT1"},"summary":{"type":"html","value":"<b>x</b>"},"#,
        r#""published":"P1","updated":"P1","id":"g1","links":[{"href":"http://a/1","rel":"alternate"},"#,
        r#"{"href":"http://e/","rel":"enclosure","type":"audio/mpeg","length":0.0},"#,
        r#"{"href":"http://c/","rel":"replies","type":"text/html"}],"#,
        r#""authors":[{"name":"a@x.org","email":"a@x.org"}],"categories":[{"term":"c1"}],"#,
        r#""source":{"format":"atom","version":"1.0","title":{"type":"text","value":"Src"},"#,
        r#""links":[{"href":"http://s/","rel":"self"}]}}"#
    ].concat();
    let want = format!(
        "{}{}{}",
        r#"{"format":"atom","version":"1.0","entries":["#,
        entry,
        [
            r#"],"title":{"type":"text","value":"T"},"subtitle":{"type":"text","value":"D"},"#,
            r#""rights":{"type":"text","value":"C"},"id":"http://l/","updated":"LB","#,
            r#""generator":{"value":"G"},"logo":"http://i/","#,
            r#""links":[{"href":"http://l/","rel":"alternate"}],"#,
            r#""categories":[{"term":"cat","scheme":"dm"}],"authors":[{"name":"Ed","email":"ed@x.org"}]}"#
        ].concat()
    );
    assert_eq!(json(&value), want);
}

#[test]
fn an_rss_guid_says_whether_it_is_a_permalink_only_when_asked() {
    let src = "<rss version=\"2.0\"><channel><item><guid isPermaLink=\"true\">a</guid></item>\
        <item><guid>b</guid></item><item><guid isPermaLink=\"no\">c</guid></item></channel></rss>";
    let value = parse_native(src).expect("the document parses");
    let items = &to_json(&value)["items"];
    assert_eq!(items[0]["guid"].to_string(), r#"{"value":"a","isPermaLink":true}"#);
    assert_eq!(items[1]["guid"].to_string(), r#"{"value":"b"}"#);
    assert_eq!(items[2]["guid"].to_string(), r#"{"value":"c","isPermaLink":true}"#);
}

#[test]
fn an_rss_channel_keeps_its_numbers_and_lists_natively() {
    let src = "<rss version=\"0.92\"><channel><title>T</title><ttl>60x</ttl>\
        <cloud domain=\"d\" port=\"\" path=\"/p\" registerProcedure=\"r\" protocol=\"xml-rpc\"/>\
        <textinput><title>TT</title><description>TD</description><name>TN</name><link>TL</link></textinput>\
        <skipHours><hour>1</hour><hour>x</hour></skipHours><skipDays><day>Monday</day></skipDays>\
        <image><url>U</url><title>IT</title><link>IL</link><width>88</width><description>ID</description></image>\
        </channel></rss>";
    let value = parse_native(src).expect("the document parses");
    assert_eq!(
        json(&value),
        [
            r#"{"format":"rss","version":"0.92","title":"T","link":"","description":"","items":[],"#,
            r#""cloud":{"domain":"d","port":0.0,"path":"/p","registerProcedure":"r","protocol":"xml-rpc"},"#,
            r#""ttl":60.0,"image":{"url":"U","title":"IT","link":"IL","width":88.0,"description":"ID"},"#,
            r#""textInput":{"title":"TT","description":"TD","name":"TN","link":"TL"},"#,
            r#""skipHours":[1.0,null],"skipDays":["Monday"]}"#
        ].concat()
    );
}

const RDF: &str = "<rdf:RDF xmlns:rdf=\"http://www.w3.org/1999/02/22-rdf-syntax-ns#\" \
    xmlns=\"http://purl.org/rss/1.0/\"><channel rdf:about=\"http://c/\"><title>T</title>\
    <link>http://l/</link><description>D</description></channel>\
    <image rdf:about=\"http://i/\"><title>IT</title><link>http://l/</link><url>http://i/u</url></image>\
    <item rdf:about=\"http://a/1\"><title>I1</title><link>http://a/1l</link><description>d1</description></item>\
    <item><title>I2</title></item></rdf:RDF>";

#[test]
fn an_rdf_feed_reads_natively_with_its_items_beside_the_channel() {
    let value = parse_native(RDF).expect("the document parses");
    assert_eq!(
        json(&value),
        [
            r#"{"format":"rdf","version":"1.0","title":"T","link":"http://l/","#,
            r#""items":[{"title":"I1","link":"http://a/1l","about":"http://a/1","description":"d1"},"#,
            r#"{"title":"I2","link":""}],"about":"http://c/","description":"D","#,
            r#""image":{"about":"http://i/","title":"IT","link":"http://l/","url":"http://i/u"}}"#
        ].concat()
    );
}

#[test]
fn an_rdf_feed_maps_onto_atom_with_an_id_for_every_entry() {
    let value = parse_default(RDF).expect("the document parses");
    assert_eq!(
        json(&value),
        [
            r#"{"format":"atom","version":"1.0","entries":[{"title":{"type":"text","value":"I1"},"#,
            r#""summary":{"type":"text","value":"d1"},"id":"http://a/1","#,
            r#""links":[{"href":"http://a/1l","rel":"alternate"}]},"#,
            r#"{"title":{"type":"text","value":"I2"},"id":""}],"title":{"type":"text","value":"T"},"#,
            r#""subtitle":{"type":"text","value":"D"},"id":"http://c/","#,
            r#""links":[{"href":"http://l/","rel":"alternate"}],"logo":"http://i/u"}"#
        ].concat()
    );
}

#[test]
fn an_rss_zero_nine_zero_channel_is_read_as_zero_nine_zero() {
    let src = "<rdf:RDF xmlns:rdf=\"http://www.w3.org/1999/02/22-rdf-syntax-ns#\" \
        xmlns=\"http://my.netscape.com/rdf/simple/0.9/\"><channel><title>T</title></channel></rdf:RDF>";
    let root = parse_raw(src).expect("the document parses");
    assert_eq!(
        detect(&root),
        Detection {
            dialect: FeedDialect::Rdf,
            version: FeedVersion::Rss090,
        }
    );
    let native = parse_native(src).expect("the document parses");
    assert_eq!(to_json(&native)["version"], "0.90");
}

#[test]
fn an_atom_zero_three_feed_uses_its_own_names() {
    let src = "<feed version=\"0.3\" xmlns=\"http://purl.org/atom/ns#\"><title>T</title>\
        <tagline>S</tagline><modified>M</modified><copyright>C</copyright>\
        <entry><title>E</title><issued>I</issued><modified>EM</modified><id>e1</id></entry></feed>";
    let root = parse_raw(src).expect("the document parses");
    assert_eq!(detect(&root).version, FeedVersion::Atom03);
    let value = parse_default(src).expect("the document parses");
    assert_eq!(
        json(&value),
        [
            r#"{"format":"atom","version":"0.3","entries":[{"id":"e1","title":{"type":"text","value":"E"},"#,
            r#""updated":"EM","published":"I"}],"title":{"type":"text","value":"T"},"updated":"M","#,
            r#""rights":{"type":"text","value":"C"},"subtitle":{"type":"text","value":"S"}}"#
        ].concat()
    );
}

#[test]
fn an_atom_feed_keeps_people_categories_links_and_xhtml() {
    let src = "<feed xmlns=\"http://www.w3.org/2005/Atom\">\
        <generator uri=\"http://g/\" version=\"1\">Gen</generator>\
        <author><name>N</name><url>http://u/</url><email>e@x</email></author>\
        <category term=\"t\" scheme=\"\" label=\"L\"/>\
        <entry><content type=\"xhtml\"><div xmlns=\"http://www.w3.org/1999/xhtml\">\
        <p class=\"a&amp;b\">Hi <b>there</b><br/></p></div></content>\
        <link href=\"h\" rel=\"alternate\" type=\"\" length=\"12\"/></entry></feed>";
    let value = parse_default(src).expect("the document parses");
    let feed = to_json(&value);
    assert_eq!(
        feed["entries"][0]["content"]["value"],
        "<p class=\"a&amp;b\">Hi <b>there</b><br/></p>"
    );
    assert_eq!(feed["entries"][0]["content"]["type"], "xhtml");
    assert_eq!(
        feed["entries"][0]["links"].to_string(),
        r#"[{"href":"h","rel":"alternate","length":12.0}]"#
    );
    assert_eq!(
        feed["authors"].to_string(),
        r#"[{"name":"N","uri":"http://u/","email":"e@x"}]"#
    );
    assert_eq!(
        feed["categories"].to_string(),
        r#"[{"term":"t","scheme":"","label":"L"}]"#
    );
    assert_eq!(
        feed["generator"].to_string(),
        r#"{"uri":"http://g/","version":"1","value":"Gen"}"#
    );
}

// --- refusals --------------------------------------------------------------

#[test]
fn every_refusal_says_what_was_refused() {
    assert_eq!(
        convert(&Value::Null, FeedFormat::Native).expect_err("a non-element is refused"),
        "feed: input did not parse to an XML element"
    );
    let kml = tree("<kml/>", true).expect("the document parses");
    assert_eq!(
        convert(&kml, FeedFormat::Atom).expect_err("a kml root is refused"),
        "feed: unrecognized root element \"kml\"; expected one of feed, rss, RDF"
    );
    match on_xml_close(true, &kml, FeedFormat::Native) {
        CloseAction::Refuse(message) => assert!(message.contains("\"kml\"")),
        _ => panic!("the close refuses a kml root"),
    }
    // Nothing parsed in this iteration, or no element: nothing to do.
    assert!(matches!(on_xml_close(false, &kml, FeedFormat::Atom), CloseAction::Keep));
    assert!(matches!(on_xml_close(true, &Value::Null, FeedFormat::Atom), CloseAction::Keep));
    assert!(matches!(on_xml_close(true, &kml, FeedFormat::Raw), CloseAction::Keep));
}

#[test]
fn a_refusal_comes_exactly_when_detection_does_not_recognise_the_root() {
    for src in [
        "<feed xmlns=\"http://www.w3.org/2005/Atom\"/>",
        "<rss version=\"2.0\"/>",
        "<rdf:RDF xmlns:rdf=\"http://www.w3.org/1999/02/22-rdf-syntax-ns#\"/>",
        "<opml/>",
        "<html><body/></html>",
    ] {
        let root = tree(src, true).expect("the document parses");
        let unknown = detect(&root).dialect == FeedDialect::Unknown;
        for format in [FeedFormat::Atom, FeedFormat::Native] {
            assert_eq!(convert(&root, format).is_err(), unknown, "{src}");
        }
        assert_eq!(json(&convert(&root, FeedFormat::Raw).expect("raw")), json(&root));
    }
}

#[test]
fn every_dialect_arrives_in_the_atom_shape() {
    for src in [
        "<feed xmlns=\"http://www.w3.org/2005/Atom\"><title>A</title></feed>",
        "<rss version=\"2.0\"><channel><title>A</title></channel></rss>",
        RDF,
    ] {
        let feed = to_json(&parse_default(src).expect("the document parses"));
        assert_eq!(feed["format"], "atom");
        assert_eq!(feed["version"], "1.0");
        assert!(feed["entries"].is_array());
    }
}

// --- the pieces ------------------------------------------------------------

#[test]
fn an_rss_person_is_read_with_the_author_pattern() {
    assert_eq!(
        json(&parse_rss_person("me@x.org (Me)")),
        r#"{"name":"Me","email":"me@x.org"}"#
    );
    assert_eq!(
        json(&parse_rss_person("me@x.org")),
        r#"{"name":"me@x.org","email":"me@x.org"}"#
    );
    assert_eq!(json(&parse_rss_person("  Just Me  ")), r#"{"name":"Just Me"}"#);
    assert_eq!(json(&person_from_match(" Jane ", None)), r#"{"name":"Jane"}"#);
    assert_eq!(
        json(&person_from_match(
            "x",
            Some(vec![Some("x".to_string()), Some("a@b".to_string()), None])
        )),
        r#"{"name":"a@b","email":"a@b"}"#
    );
    assert_eq!(
        json(&person_from_match("x", Some(vec![Some("x".to_string())]))),
        r#"{"name":"","email":""}"#
    );
}

#[test]
fn attribute_values_are_escaped_ampersand_first() {
    assert_eq!(escape_attr("a&b\"<>"), "a&amp;b&quot;&lt;&gt;");
    assert_eq!(escape_attr("&amp;"), "&amp;amp;");
    assert_eq!(escape_attr("plain"), "plain");
}

#[test]
fn parse_int_keeps_the_digits_it_reads() {
    assert_eq!(js_parse_int("-0012"), "-0012");
    assert_eq!(js_parse_int("\t+7x"), "7");
    assert_eq!(js_parse_int(""), "NaN");
    assert_eq!(js_parse_int("+"), "NaN");
    assert_eq!(js_parse_int(" - 1"), "NaN");
}

#[test]
fn trimming_twice_is_trimming_once() {
    for text in ["", "   ", "\u{feff} a b \u{3000}", "x", "\u{85}y\u{85}", "\n\t z"] {
        assert_eq!(js_trim(js_trim(text)), js_trim(text));
    }
    assert_eq!(js_trim("   "), "");
    assert_eq!(js_trim("\u{feff} a b \u{3000}"), "a b");
}

#[test]
fn names_and_spellings_round_trip() {
    for format in [FeedFormat::Atom, FeedFormat::Native, FeedFormat::Raw] {
        assert_eq!(FeedFormat::from_name(format.as_str()), format);
    }
    assert_eq!(FeedFormat::from_name("ATOM"), FeedFormat::Atom);
    assert_eq!(FeedFormat::default(), FeedFormat::Atom);
    assert_eq!(FeedDialect::Rdf.as_str(), "rdf");
    assert_eq!(FeedDialect::Unknown.as_str(), "unknown");
    let versions = [
        (FeedVersion::Atom10, "atom10"),
        (FeedVersion::Atom03, "atom03"),
        (FeedVersion::Rss20, "rss20"),
        (FeedVersion::Rss092, "rss092"),
        (FeedVersion::Rss091u, "rss091u"),
        (FeedVersion::Rss091n, "rss091n"),
        (FeedVersion::Rss10, "rss10"),
        (FeedVersion::Rss090, "rss090"),
        (FeedVersion::Unknown, "unknown"),
    ];
    for (version, name) in versions {
        assert_eq!(version.as_str(), name);
    }
    let detection = Detection {
        dialect: FeedDialect::Rss,
        version: FeedVersion::Rss20,
    };
    assert_eq!(json(&detection.to_value()), r#"{"dialect":"rss","version":"rss20"}"#);
    assert_eq!(
        json(&FeedOptions::default().to_value()),
        r#"{"format":"atom","strictNamespaces":true}"#
    );
}

#[test]
fn the_native_shape_names_its_family_and_version() {
    let cases = [
        ("<feed xmlns=\"http://www.w3.org/2005/Atom\"/>", "atom", "1.0"),
        ("<feed version=\"0.3\" xmlns=\"http://purl.org/atom/ns#\"/>", "atom", "0.3"),
        ("<rss version=\"2.0.1\"><channel/></rss>", "rss", "2.0"),
        ("<rss version=\"0.94\"><channel/></rss>", "rss", "0.92"),
        ("<rss version=\"0.91\"><channel/></rss>", "rss", "0.91"),
        ("<rss version=\"9.9\"><channel/></rss>", "rss", "2.0"),
        (RDF, "rdf", "1.0"),
    ];
    for (src, format, version) in cases {
        let value = parse_native(src).expect("the document parses");
        let out = to_json(&value);
        assert_eq!(out["format"], format, "{src}");
        assert_eq!(out["version"], version, "{src}");
    }
}

#[test]
fn an_atom_feed_is_the_same_in_the_atom_and_native_formats() {
    let src = "<feed xmlns=\"http://www.w3.org/2005/Atom\"><title>T</title>\
        <entry><id>e</id><title type=\"html\">&lt;b&gt;E&lt;/b&gt;</title></entry></feed>";
    let root = parse_raw(src).expect("the document parses");
    let atom = convert(&root, FeedFormat::Atom).expect("an atom root converts");
    let native = convert(&root, FeedFormat::Native).expect("an atom root converts");
    assert_eq!(atom, native);
    assert_eq!(
        json(&atom),
        [
            r#"{"format":"atom","version":"1.0","entries":[{"id":"e","#,
            r#""title":{"type":"html","value":"<b>E</b>"}}],"title":{"type":"text","value":"T"}}"#
        ]
        .concat()
    );
}
