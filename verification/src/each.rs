//! Reading every child element of one name, each the same way.

use vstd::prelude::*;
use crate::value::{lemma_model_items, lemma_model_items_push, model, model_items, Json, Value};
use crate::element::{children_of, find_children, all_named, is_named_value};
use crate::element::{text_of, text_of_value};
use crate::text::{js_parse_int, spec_js_parse_int};
use crate::atom::{
    parse_atom_entry, parse_category, parse_link, parse_person, spec_parse_atom_entry,
    spec_parse_category, spec_parse_link, spec_parse_person,
};
use crate::rss::{
    parse_rss1_item, parse_rss2_category, parse_rss2_item, spec_parse_rss1_item,
    spec_parse_rss2_category, spec_parse_rss2_item,
};

verus! {

/// The way a child element is read.
pub enum Part {
    /// An Atom person.
    Person,
    /// An Atom category.
    Category,
    /// An Atom link.
    Link,
    /// An RSS category.
    RssCategory,
    /// An RSS `skipHours` hour: its text read with `parseInt`.
    Hour,
    /// An RSS `skipDays` day: its text.
    Day,
    /// An RDF item.
    RdfItem,
}

/// The way a child element that holds parts of its own is read.
pub enum Record {
    /// An Atom entry, of Atom 0.3 or not.
    AtomEntry(bool),
    /// An RSS item.
    RssItem,
}

/// A child element, read as `kind` says.
pub open spec fn spec_part(kind: Part, c: Json) -> Json {
    match kind {
        Part::Person => spec_parse_person(c),
        Part::Category => spec_parse_category(c),
        Part::Link => spec_parse_link(c),
        Part::RssCategory => spec_parse_rss2_category(c),
        Part::Hour => Json::Number(spec_js_parse_int(text_of(Some(c)))),
        Part::Day => Json::Str(text_of(Some(c))),
        Part::RdfItem => spec_parse_rss1_item(c),
    }
}

/// A child element, read as `kind` says.
pub open spec fn spec_record(kind: Record, c: Json) -> Json {
    match kind {
        Record::AtomEntry(atom03) => spec_parse_atom_entry(c, atom03),
        Record::RssItem => spec_parse_rss2_item(c),
    }
}

fn record_of(kind: &Record, c: &Value) -> (r: Value)
    ensures
        r@ == spec_record(*kind, c@),
{
    match kind {
        Record::AtomEntry(atom03) => parse_atom_entry(c, *atom03),
        Record::RssItem => parse_rss2_item(c),
    }
}

fn part_of(kind: &Part, c: &Value) -> (r: Value)
    ensures
        r@ == spec_part(*kind, c@),
{
    match kind {
        Part::Person => parse_person(c),
        Part::Category => parse_category(c),
        Part::Link => parse_link(c),
        Part::RssCategory => parse_rss2_category(c),
        Part::Hour => Value::Number(js_parse_int(text_of_value(Some(c)).as_str())),
        Part::Day => Value::String(text_of_value(Some(c))),
        Part::RdfItem => parse_rss1_item(c),
    }
}

/// Every child element of this name, each read as `kind` says.
pub fn map_parts(v: &Value, name: &str, kind: Part) -> (r: Vec<Value>)
    ensures
        model_items(r@) == find_children(v@, name@).map_values(|c| spec_part(kind, c)),
{
    let mut out: Vec<Value> = Vec::new();
    match children_of(v) {
        Some(items) => {
            let ghost m = model_items(items@);
            proof {
                lemma_model_items(items@);
                assert(m.take(0) =~= Seq::<Json>::empty());
            }
            let mut i: usize = 0;
            while i < items.len()
                invariant
                    i <= items@.len(),
                    m == model_items(items@),
                    m.len() == items@.len(),
                    forall|k: int| 0 <= k < items@.len() ==> #[trigger] m[k] == model(items@[k]),
                    model_items(out@) == all_named(m.take(i as int), name@).map_values(
                        |c| spec_part(kind, c),
                    ),
                decreases items@.len() - i,
            {
                proof {
                    assert(m.take(i + 1).drop_last() =~= m.take(i as int));
                    assert(m.take(i + 1).last() == m[i as int]);
                }
                if is_named_value(&items[i], name) {
                    let p = part_of(&kind, &items[i]);
                    proof {
                        lemma_model_items_push(out@, p);
                        let before = all_named(m.take(i as int), name@);
                        assert(before.push(m[i as int]).map_values(|c| spec_part(kind, c))
                            =~= before.map_values(|c| spec_part(kind, c)).push(spec_part(kind, m[i as int])));
                    }
                    out.push(p);
                }
                i = i + 1;
            }
            proof {
                assert(m.take(items@.len() as int) =~= m);
            }
        },
        None => {
            proof {
                lemma_model_items(out@);
                assert(find_children(v@, name@) =~= Seq::<Json>::empty());
            }
        },
    }
    proof {
        lemma_model_items(out@);
    }
    out
}

/// Every child element of this name, each read as `kind` says.
pub fn map_records(v: &Value, name: &str, kind: Record) -> (r: Vec<Value>)
    ensures
        model_items(r@) == find_children(v@, name@).map_values(|c| spec_record(kind, c)),
{
    let mut out: Vec<Value> = Vec::new();
    match children_of(v) {
        Some(items) => {
            let ghost m = model_items(items@);
            proof {
                lemma_model_items(items@);
                assert(m.take(0) =~= Seq::<Json>::empty());
            }
            let mut i: usize = 0;
            while i < items.len()
                invariant
                    i <= items@.len(),
                    m == model_items(items@),
                    m.len() == items@.len(),
                    forall|k: int| 0 <= k < items@.len() ==> #[trigger] m[k] == model(items@[k]),
                    model_items(out@) == all_named(m.take(i as int), name@).map_values(
                        |c| spec_record(kind, c),
                    ),
                decreases items@.len() - i,
            {
                proof {
                    assert(m.take(i + 1).drop_last() =~= m.take(i as int));
                    assert(m.take(i + 1).last() == m[i as int]);
                }
                if is_named_value(&items[i], name) {
                    let p = record_of(&kind, &items[i]);
                    proof {
                        lemma_model_items_push(out@, p);
                        let before = all_named(m.take(i as int), name@);
                        assert(before.push(m[i as int]).map_values(|c| spec_record(kind, c))
                            =~= before.map_values(|c| spec_record(kind, c)).push(spec_record(kind, m[i as int])));
                    }
                    out.push(p);
                }
                i = i + 1;
            }
            proof {
                assert(m.take(items@.len() as int) =~= m);
            }
        },
        None => {
            proof {
                lemma_model_items(out@);
                assert(find_children(v@, name@) =~= Seq::<Json>::empty());
            }
        },
    }
    proof {
        lemma_model_items(out@);
    }
    out
}

} // verus!
