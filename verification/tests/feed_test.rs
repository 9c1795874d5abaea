// The feed cases, run over element trees that `tabnas-xml` produces: each
// document is parsed with the XML crate, the tree is carried into the
// library's value, and the library does the rest.

use tabnas_feed::{
    convert, detect, js_parse_int, js_trim, on_xml_close, CloseAction, Detection, FeedDialect,
    FeedFormat, FeedOptions, FeedVersion, Value,
};

/// An engine value as the library's value.
fn to_lib(value: &tabnas::Value) -> Value {
    match value {
        tabnas::Value::Undefined => Value::Undefined,
        tabnas::Value::Null => Value::Null,
        tabnas::Value::Bool(b) => Value::Bool(*b),
        tabnas::Value::Number(n) => Value::Number(format!("{n}")),
        tabnas::Value::String(s) => Value::String(s.clone()),
        tabnas::Value::Text(t) => Value::String(t.string.clone()),
        tabnas::Value::Array(items) => Value::Array(items.iter().map(to_lib).collect()),
        tabnas::Value::ListRef(list) => Value::Array(list.value.iter().map(to_lib).collect()),
        tabnas::Value::Object(fields) => Value::Object(
            fields
                .iter()
                .map(|(k, v)| (k.clone(), to_lib(v)))
                .collect(),
        ),
        tabnas::Value::MapRef(map) => Value::Object(
            map.value
                .iter()
                .map(|(k, v)| (k.clone(), to_lib(v)))
                .collect(),
        ),
    }
}

/// The library's value as an engine value.
fn to_engine(value: &Value) -> tabnas::Value {
    match value {
        Value::Undefined => tabnas::Value::Undefined,
        Value::Null => tabnas::Value::Null,
        Value::Bool(b) => tabnas::Value::Bool(*b),
        Value::Number(n) => tabnas::Value::Number(n.parse().unwrap_or(f64::NAN)),
        Value::String(s) => tabnas::Value::String(s.clone()),
        Value::Array(items) => tabnas::Value::array(items.iter().map(to_engine).collect()),
        Value::Object(fields) => {
            let mut map = indexmap::IndexMap::new();
            for (k, v) in fields {
                map.insert(k.clone(), to_engine(v));
            }
            tabnas::Value::object(map)
        }
    }
}

/// The JSON text of a value, as the engine renders it.
fn json(value: &Value) -> String {
    to_engine(value).to_json().to_string()
}

fn to_json(value: &Value) -> serde_json::Value {
    to_engine(value).to_json()
}

/// The element tree of a document, namespaces enforced or not.
fn tree(src: &str, strict: bool) -> Result<Value, String> {
    let options = tabnas_xml::XmlOptions {
        strict_namespaces: strict,
        ..tabnas_xml::XmlOptions::default()
    };
    tabnas_xml::make_with(&options)
        .parse(src)
        .map(|value| to_lib(&value))
        .map_err(|error| error.to_string())
}

/// A document read the way the plugin reads it: the XML tree, then what
/// the close of the XML rule does with it.
fn parse_with(src: &str, options: &FeedOptions) -> Result<Value, String> {
    let root = tree(src, options.strict_namespaces)?;
    match on_xml_close(true, &root, options.format) {
        CloseAction::Keep => Ok(root),
        CloseAction::Replace(value) => Ok(value),
        CloseAction::Refuse(message) => Err(message),
    }
}

fn parse_default(src: &str) -> Result<Value, String> {
    parse_with(src, &FeedOptions::default())
}

fn parse_native(src: &str) -> Result<Value, String> {
    parse_with(
        src,
        &FeedOptions {
            format: FeedFormat::Native,
            ..FeedOptions::default()
        },
    )
}

fn parse_raw(src: &str) -> Result<Value, String> {
    parse_with(
        src,
        &FeedOptions {
            format: FeedFormat::Raw,
            ..FeedOptions::default()
        },
    )
}

fn number(text: &str) -> f64 {
    js_parse_int(text).parse().expect("a decimal text or NaN")
}

// --- errors ---------------------------------------------------------------

#[test]
fn an_unrecognized_root_element_is_an_error() {
    let error = parse_default("<not-a-feed/>").expect_err("an unrecognized root is refused");
    assert!(error.contains("unrecognized root"), "got {error}");
}

#[test]
fn the_raw_format_never_reaches_the_root_check() {
    let root = parse_raw("<not-a-feed/>").expect("raw output is the tree, whatever the root is");
    assert_eq!(to_json(&root)["localName"], "not-a-feed");
}

// --- raw format -----------------------------------------------------------

#[test]
fn raw_returns_the_underlying_element_tree() {
    let root = parse_raw("<feed xmlns=\"http://www.w3.org/2005/Atom\"><title>Hi</title></feed>")
        .expect("the document parses");
    let tree = to_json(&root);
    assert_eq!(tree["localName"], "feed");
    assert_eq!(tree["namespace"], "http://www.w3.org/2005/Atom");
    assert!(tree["children"].is_array());
}

#[test]
fn detect_on_raw_output_identifies_the_dialect() {
    let root = parse_raw("<rss version=\"2.0\"><channel><title>x</title></channel></rss>")
        .expect("the document parses");
    assert_eq!(
        detect(&root),
        Detection {
            dialect: FeedDialect::Rss,
            version: FeedVersion::Rss20,
        }
    );
}

#[test]
fn detect_reports_unknown_for_anything_that_is_not_an_element() {
    for value in [
        Value::Undefined,
        Value::Null,
        Value::String("feed".to_string()),
        Value::Array(Vec::new()),
    ] {
        assert_eq!(detect(&value).dialect, FeedDialect::Unknown);
        assert_eq!(detect(&value).version, FeedVersion::Unknown);
    }
}

// --- plugin form ----------------------------------------------------------

#[test]
fn the_default_format_is_atom() {
    let value =
        parse_default("<feed xmlns=\"http://www.w3.org/2005/Atom\"/>").expect("the document parses");
    assert_eq!(
        json(&value),
        r#"{"format":"atom","version":"1.0","entries":[]}"#
    );
}

#[test]
fn native_preserves_the_dialect_shape() {
    let value = parse_native("<rss version=\"2.0\"><channel><title>x</title></channel></rss>")
        .expect("the document parses");
    let native = to_json(&value);
    assert_eq!(native["format"], "rss");
    assert_eq!(native["version"], "2.0");
}

#[test]
fn trailing_white_space_does_not_convert_twice() {
    // The close of the XML rule fires more than once for this document,
    // once for the element and again over the trailing white space.
    let src = "<feed xmlns=\"http://www.w3.org/2005/Atom\"><title>Hi</title></feed>\n  \n";
    let root = tree(src, true).expect("the document parses");
    let format = FeedOptions::default().format;
    let converted = match on_xml_close(true, &root, format) {
        CloseAction::Replace(value) => value,
        _ => panic!("the element converts"),
    };
    // The node is no longer an element, so a second pass keeps it.
    assert!(matches!(
        on_xml_close(true, &converted, format),
        CloseAction::Keep
    ));
    let feed = to_json(&converted);
    assert_eq!(feed["format"], "atom");
    assert_eq!(feed["title"]["value"], "Hi");
}

#[test]
fn strict_namespaces_is_on_by_default_and_can_be_turned_off() {
    let src = "<feed xmlns=\"http://www.w3.org/2005/Atom\"><dc:language>en</dc:language></feed>";
    assert!(
        parse_default(src).is_err(),
        "an unbound prefix is an error by default"
    );
    let lenient = FeedOptions {
        strict_namespaces: false,
        ..FeedOptions::default()
    };
    assert!(
        parse_with(src, &lenient).is_ok(),
        "strictNamespaces: false opts back into bare XML 1.0"
    );
}

/// The deepest nesting the hostile case walks.
const WALKABLE_DEPTH: usize = 512;

#[test]
fn hostile_input_returns_rather_than_aborting() {
    let deep = format!(
        "<feed xmlns=\"http://www.w3.org/2005/Atom\">{}{}</feed>",
        "<a>".repeat(WALKABLE_DEPTH),
        "</a>".repeat(WALKABLE_DEPTH)
    );
    let _ = parse_default(&deep);

    let long = format!(
        "<feed xmlns=\"http://www.w3.org/2005/Atom\"><title>{}</title></feed>",
        "x".repeat(50_000)
    );
    assert_eq!(
        to_json(&parse_default(&long).expect("a long but well-formed document parses"))["title"]
            ["value"]
            .as_str()
            .map(str::len),
        Some(50_000)
    );

    for hostile in [
        "",
        "<feed",
        "<feed xmlns=\"http://www.w3.org/2005/Atom\">",
        "<feed xmlns=\"http://www.w3.org/2005/Atom\"><title>x",
        "<feed xmlns=\"http://www.w3.org/2005/Atom\"><title>\u{0}</title></feed>",
        "<\u{fffd}",
        "&&&&&&&&",
        "<feed xmlns=\"http://www.w3.org/2005/Atom\"><title>\u{feff}\u{85}\u{2028}</title></feed>",
    ] {
        let _ = parse_default(hostile);
    }
}

// --- options --------------------------------------------------------------

fn bag(text: &str) -> Value {
    let json: serde_json::Value = serde_json::from_str(text).expect("the bag is JSON");
    to_lib(&tabnas::Value::from_json(&json))
}

#[test]
fn an_option_bag_reads_the_way_the_canonical_plugin_reads_one() {
    let read = |text: &str| FeedOptions::from_value(&bag(text));
    assert_eq!(read("{}"), FeedOptions::default());
    assert_eq!(read(r#"{"format":"native"}"#).format, FeedFormat::Native);
    assert_eq!(read(r#"{"format":"raw"}"#).format, FeedFormat::Raw);
    // Only an explicit false turns namespace checking off.
    assert!(read(r#"{"strictNamespaces":true}"#).strict_namespaces);
    assert!(!read(r#"{"strictNamespaces":false}"#).strict_namespaces);
    assert!(read(r#"{"strictNamespaces":"no"}"#).strict_namespaces);
    // An unrecognised format name is the default.
    assert_eq!(read(r#"{"format":"bogus"}"#).format, FeedFormat::Atom);
}

#[test]
fn the_option_bag_round_trips() {
    for options in [
        FeedOptions::default(),
        FeedOptions {
            format: FeedFormat::Native,
            strict_namespaces: false,
        },
        FeedOptions {
            format: FeedFormat::Raw,
            strict_namespaces: true,
        },
    ] {
        assert_eq!(FeedOptions::from_value(&options.to_value()), options);
    }
}

// --- the questions a dialect table has to answer --------------------------

#[test]
fn an_unknown_namespace_is_carried_rather_than_refused() {
    let value = parse_default(
        "<feed xmlns=\"http://www.w3.org/2005/Atom\" \
         xmlns:dc=\"http://purl.org/dc/elements/1.1/\">\
         <dc:language>en</dc:language><title>x</title></feed>",
    )
    .expect("a declared foreign namespace is well-formed");
    assert_eq!(
        json(&value),
        r#"{"format":"atom","version":"1.0","entries":[],"title":{"type":"text","value":"x"}}"#
    );

    let root = parse_raw("<feed xmlns=\"http://example.com/not-atom\"/>").expect("the document parses");
    assert_eq!(detect(&root).version, FeedVersion::Atom10);
}

#[test]
fn a_mixed_dialect_document_follows_its_root() {
    let value = parse_default(
        "<rss version=\"2.0\" xmlns:atom=\"http://www.w3.org/2005/Atom\">\
         <channel><title>t</title>\
         <atom:link href=\"http://a/\" rel=\"self\"/>\
         <item><title>i</title></item></channel></rss>",
    )
    .expect("the document parses");
    assert_eq!(
        json(&value),
        r#"{"format":"atom","version":"1.0","entries":[{"title":{"type":"text","value":"i"}}],"title":{"type":"text","value":"t"}}"#
    );
}

#[test]
fn a_declared_dialect_wins_over_the_body() {
    let rss_saying_atom = parse_native("<rss version=\"2.0\"><entry><title>i</title></entry></rss>")
        .expect("the document parses");
    assert_eq!(
        json(&rss_saying_atom),
        r#"{"format":"rss","version":"2.0","title":"","link":"","description":"","items":[]}"#
    );

    let atom_saying_rss = parse_native(
        "<feed xmlns=\"http://www.w3.org/2005/Atom\"><channel><title>t</title></channel></feed>",
    )
    .expect("the document parses");
    assert_eq!(
        json(&atom_saying_rss),
        r#"{"format":"atom","version":"1.0","entries":[]}"#
    );
}

#[test]
fn an_rss_root_with_no_version_is_read_as_two_point_zero() {
    let root = parse_raw("<rss><channel><title>t</title></channel></rss>").expect("the document parses");
    assert_eq!(detect(&root).version, FeedVersion::Rss20);
}

#[test]
fn every_declared_rss_version_lands_where_the_table_says() {
    for (declared, want) in [
        ("2.0", FeedVersion::Rss20),
        ("2.0.1", FeedVersion::Rss20),
        ("2.0.2", FeedVersion::Rss20),
        ("0.92", FeedVersion::Rss092),
        ("0.93", FeedVersion::Rss092),
        ("0.94", FeedVersion::Rss092),
        ("0.91", FeedVersion::Rss091u),
        ("9.9", FeedVersion::Rss20),
    ] {
        let src = format!("<rss version=\"{declared}\"><channel/></rss>");
        let root = parse_raw(&src).expect("the document parses");
        assert_eq!(detect(&root).version, want, "version=\"{declared}\"");
    }
}

#[test]
fn the_netscape_zero_nine_one_variant_is_never_reported() {
    let src = "<!DOCTYPE rss SYSTEM \"http://my.netscape.com/publish/formats/rss-0.91.dtd\">\
               <rss version=\"0.91\"><channel/></rss>";
    let root = parse_raw(src).expect("the document parses");
    assert_eq!(detect(&root).version, FeedVersion::Rss091u);
}

#[test]
fn an_rdf_document_without_a_channel_is_rss_one_point_zero() {
    let root = parse_raw(
        "<rdf:RDF xmlns:rdf=\"http://www.w3.org/1999/02/22-rdf-syntax-ns#\" \
         xmlns=\"http://purl.org/rss/1.0/\"><item><title>i</title></item></rdf:RDF>",
    )
    .expect("the document parses");
    assert_eq!(detect(&root).version, FeedVersion::Rss10);
}

// --- the JavaScript classes -----------------------------------------------

#[test]
fn trimming_uses_the_javascript_white_space_class() {
    assert_eq!(js_trim("\u{feff}x\u{feff}"), "x");
    assert_ne!(
        js_trim("\u{feff}x\u{feff}"),
        "\u{feff}x\u{feff}".trim(),
        "str::trim does not remove a byte-order mark"
    );
    assert_eq!(js_trim("\u{85}x\u{85}"), "\u{85}x\u{85}");
    assert_ne!(
        js_trim("\u{85}x\u{85}"),
        "\u{85}x\u{85}".trim(),
        "str::trim does remove a next-line control"
    );
    for space in [
        '\t', '\n', '\u{b}', '\u{c}', '\r', ' ', '\u{a0}', '\u{1680}', '\u{2000}', '\u{200a}',
        '\u{2028}', '\u{2029}', '\u{202f}', '\u{205f}', '\u{3000}', '\u{feff}',
    ] {
        assert_eq!(
            js_trim(&format!("{space}x{space}")),
            "x",
            "U+{:04X}",
            space as u32
        );
    }
}

#[test]
fn element_text_is_trimmed_the_javascript_way() {
    let value = parse_default(
        "<feed xmlns=\"http://www.w3.org/2005/Atom\"><title>\u{feff}Hi\u{feff}</title></feed>",
    )
    .expect("the document parses");
    assert_eq!(to_json(&value)["title"]["value"], "Hi");

    let value = parse_default(
        "<feed xmlns=\"http://www.w3.org/2005/Atom\"><title>\u{85}Hi\u{85}</title></feed>",
    )
    .expect("the document parses");
    assert_eq!(to_json(&value)["title"]["value"], "\u{85}Hi\u{85}");
}

#[test]
fn the_author_pattern_uses_the_javascript_classes() {
    let person = |text: &str| {
        let src = format!(
            "<rss version=\"2.0\"><channel><item><author>{text}</author></item></channel></rss>"
        );
        json(&parse_default(&src).expect("the document parses"))
    };
    assert!(person("j@example.com (Jane Doe)")
        .contains(r#"{"name":"Jane Doe","email":"j@example.com"}"#));
    assert!(person("j@example.com").contains(r#"{"name":"j@example.com","email":"j@example.com"}"#));
    assert!(person("\u{feff}j@example.com\u{feff}")
        .contains(r#"{"name":"j@example.com","email":"j@example.com"}"#));
    assert!(person("Jane Doe").contains(r#"{"name":"Jane Doe"}"#));
}

#[test]
fn integers_are_read_the_javascript_way() {
    assert_eq!(number("1337"), 1337.0);
    assert_eq!(number("12abc"), 12.0);
    assert_eq!(number("  42  "), 42.0);
    assert_eq!(number("+5"), 5.0);
    assert_eq!(number("-3"), -3.0);
    assert_eq!(number("0x10"), 0.0);
    assert!(number("abc").is_nan());
    assert!(number("").is_nan());
    assert!(number("-").is_nan());
    assert_eq!(number("\u{feff}7"), 7.0);
    assert!(number("\u{85}7").is_nan());
    assert_eq!(number("9007199254740993"), 9007199254740992.0);
}

#[test]
fn an_unreadable_length_becomes_null_in_the_rendered_result() {
    let value = parse_default(
        "<feed xmlns=\"http://www.w3.org/2005/Atom\"><entry>\
         <link href=\"h\" length=\"abc\"/></entry></feed>",
    )
    .expect("the document parses");
    assert!(json(&value).contains(r#""length":null"#), "got {}", json(&value));

    let value = parse_default(
        "<feed xmlns=\"http://www.w3.org/2005/Atom\"><entry>\
         <link href=\"h\" length=\"12abc\"/></entry></feed>",
    )
    .expect("the document parses");
    assert_eq!(to_json(&value)["entries"][0]["links"][0]["length"], 12.0);
}

// --- convert, called directly ---------------------------------------------

#[test]
fn convert_runs_over_a_tree_the_xml_crate_produced() {
    let root = to_lib(
        &tabnas_xml::parse("<rss version=\"2.0\"><channel><title>x</title></channel></rss>")
            .expect("the document parses"),
    );
    assert_eq!(
        json(&convert(&root, FeedFormat::Native).expect("an rss root converts")),
        r#"{"format":"rss","version":"2.0","title":"x","link":"","description":"","items":[]}"#
    );
    assert_eq!(
        json(&convert(&root, FeedFormat::Raw).expect("raw is the tree")),
        json(&root)
    );
    let bad = to_lib(&tabnas_xml::parse("<nope/>").expect("the document parses"));
    assert!(convert(&bad, FeedFormat::Atom)
        .expect_err("an unrecognized root is refused")
        .contains("unrecognized root element \"nope\""));
    assert!(convert(&Value::Null, FeedFormat::Atom)
        .expect_err("a non-element is refused")
        .contains("did not parse to an XML element"));
}
