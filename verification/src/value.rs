//! The value tree that a feed is read from and written to: the shape of
//! a JSON document, with objects kept as the ordered pairs that built them.

use vstd::prelude::*;

verus! {

/// The mathematical model of a [`Value`].
pub enum Json {
    Undefined,
    Null,
    Bool(bool),
    /// A number, by its decimal text.
    Number(Seq<char>),
    Str(Seq<char>),
    Array(Seq<Json>),
    /// Key/value pairs in insertion order.
    Object(Seq<(Seq<char>, Json)>),
}

/// A value of the parse tree.
///
/// An object is the list of the pairs inserted into it, in order. A key
/// that occurs more than once reads as its last pair, as a map that the
/// pairs were inserted into would hold it.
#[derive(Debug, PartialEq)]
pub enum Value {
    Undefined,
    Null,
    Bool(bool),
    /// A number, by its decimal text (`NaN` for the missing number).
    Number(String),
    String(String),
    Array(Vec<Value>),
    Object(Vec<(String, Value)>),
}

pub open spec fn model(v: Value) -> Json
    decreases v,
{
    match v {
        Value::Undefined => Json::Undefined,
        Value::Null => Json::Null,
        Value::Bool(b) => Json::Bool(b),
        Value::Number(s) => Json::Number(s@),
        Value::String(s) => Json::Str(s@),
        Value::Array(items) => Json::Array(model_items(items@)),
        Value::Object(fields) => Json::Object(model_fields(fields@)),
    }
}

pub open spec fn model_items(items: Seq<Value>) -> Seq<Json>
    decreases items,
{
    if items.len() == 0 {
        Seq::empty()
    } else {
        model_items(items.subrange(0, items.len() - 1)).push(model(items[items.len() - 1]))
    }
}

pub open spec fn model_fields(fields: Seq<(String, Value)>) -> Seq<(Seq<char>, Json)>
    decreases fields,
{
    if fields.len() == 0 {
        Seq::empty()
    } else {
        model_fields(fields.subrange(0, fields.len() - 1)).push(
            (fields[fields.len() - 1].0@, model(fields[fields.len() - 1].1)),
        )
    }
}

impl View for Value {
    type V = Json;

    open spec fn view(&self) -> Json {
        model(*self)
    }
}

pub open spec fn opt_model(o: Option<&Value>) -> Option<Json> {
    match o {
        Some(v) => Some(model(*v)),
        None => None,
    }
}

pub proof fn lemma_model_items(items: Seq<Value>)
    ensures
        model_items(items).len() == items.len(),
        forall|i: int| 0 <= i < items.len() ==> #[trigger] model_items(items)[i] == model(items[i]),
    decreases items.len(),
{
    if items.len() > 0 {
        lemma_model_items(items.subrange(0, items.len() - 1));
    }
}

pub proof fn lemma_model_fields(fields: Seq<(String, Value)>)
    ensures
        model_fields(fields).len() == fields.len(),
        forall|i: int|
            0 <= i < fields.len() ==> #[trigger] model_fields(fields)[i] == (
                fields[i].0@,
                model(fields[i].1),
            ),
    decreases fields.len(),
{
    if fields.len() > 0 {
        lemma_model_fields(fields.subrange(0, fields.len() - 1));
    }
}

pub proof fn lemma_model_items_push(items: Seq<Value>, v: Value)
    ensures
        model_items(items.push(v)) == model_items(items).push(model(v)),
{
    assert(items.push(v).subrange(0, items.len() as int) =~= items);
}

pub proof fn lemma_model_fields_push(fields: Seq<(String, Value)>, p: (String, Value))
    ensures
        model_fields(fields.push(p)) == model_fields(fields).push((p.0@, model(p.1))),
{
    assert(fields.push(p).subrange(0, fields.len() as int) =~= fields);
}

/// The value of `key` in the pairs: that of its last pair.
pub open spec fn lookup(fields: Seq<(Seq<char>, Json)>, key: Seq<char>) -> Option<Json>
    decreases fields.len(),
{
    if fields.len() == 0 {
        None
    } else if fields.last().0 == key {
        Some(fields.last().1)
    } else {
        lookup(fields.drop_last(), key)
    }
}

/// What `lookup` finds lies inside the pairs.
pub proof fn lemma_lookup_below(fields: Seq<(Seq<char>, Json)>, key: Seq<char>)
    ensures
        lookup(fields, key) matches Some(v) ==> decreases_to!(fields => v),
    decreases fields.len(),
{
    if fields.len() > 0 {
        if fields.last().0 == key {
            assert(decreases_to!(fields => fields[fields.len() - 1]));
            assert(decreases_to!(fields[fields.len() - 1] => fields[fields.len() - 1].1));
        } else {
            lemma_lookup_below(fields.drop_last(), key);
            assert(decreases_to!(fields => fields.drop_last()));
        }
    }
}

/// A field of an object; nothing for any other value.
pub open spec fn get_field(j: Json, key: Seq<char>) -> Option<Json> {
    match j {
        Json::Object(fields) => lookup(fields, key),
        _ => None,
    }
}

/// Two texts are the same text.
pub fn text_eq(a: &str, b: &str) -> (r: bool)
    ensures
        r == (a@ == b@),
{
    a.to_owned() == b.to_owned()
}

/// A new string holding the text of `s`.
pub fn text(s: &str) -> (r: String)
    ensures
        r@ == s@,
{
    s.to_owned()
}

/// The value of `key` among the pairs: that of its last pair.
pub fn lookup_pairs<'a>(fields: &'a Vec<(String, Value)>, key: &str) -> (r: Option<&'a Value>)
    ensures
        opt_model(r) == lookup(model_fields(fields@), key@),
        r matches Some(v) ==> exists|i: int| 0 <= i < fields@.len() && fields@[i].1 == *v,
{
    let ghost m = model_fields(fields@);
    proof {
        lemma_model_fields(fields@);
        assert(m.take(fields@.len() as int) =~= m);
    }
    let mut i = fields.len();
    while i > 0
        invariant
            i <= fields@.len(),
            m == model_fields(fields@),
            m.len() == fields@.len(),
            lookup(m, key@) == lookup(m.take(i as int), key@),
            forall|k: int|
                0 <= k < fields@.len() ==> #[trigger] m[k] == (fields@[k].0@, model(fields@[k].1)),
        decreases i,
    {
        i = i - 1;
        proof {
            assert(m.take(i + 1).last() == m[i as int]);
            assert(m.take(i + 1).drop_last() =~= m.take(i as int));
        }
        if text_eq(fields[i].0.as_str(), key) {
            return Some(&fields[i].1);
        }
    }
    proof {
        assert(m.take(0) =~= Seq::<(Seq<char>, Json)>::empty());
    }
    None
}

/// A field of an object value; nothing for any other value.
pub fn field<'a>(v: &'a Value, key: &str) -> (r: Option<&'a Value>)
    ensures
        opt_model(r) == get_field(v@, key@),
        r matches Some(f) ==> decreases_to!(*v => *f),
{
    match v {
        Value::Object(fields) => {
            let r = lookup_pairs(fields, key);
            proof {
                if let Some(f) = r {
                    let i = choose|i: int| 0 <= i < fields@.len() && fields@[i].1 == *f;
                    assert(decreases_to!(*v => *fields));
                    assert(decreases_to!(*fields => fields@));
                    assert(decreases_to!(fields@ => fields@[i]));
                    assert(decreases_to!(fields@[i] => fields@[i].1));
                }
            }
            r
        },
        _ => None,
    }
}

impl Clone for Value {
    fn clone(&self) -> (r: Self)
        ensures
            r@ == self@,
    {
        copy_value(self)
    }
}

/// A copy of a value.
pub fn copy_value(v: &Value) -> (r: Value)
    ensures
        r@ == v@,
    decreases v,
{
    match v {
        Value::Undefined => Value::Undefined,
        Value::Null => Value::Null,
        Value::Bool(b) => Value::Bool(*b),
        Value::Number(n) => Value::Number(n.clone()),
        Value::String(s) => Value::String(s.clone()),
        Value::Array(items) => {
            let mut out: Vec<Value> = Vec::new();
            let mut i: usize = 0;
            while i < items.len()
                invariant
                    i <= items@.len(),
                    model_items(out@) == model_items(items@.take(i as int)),
                    decreases_to!(*v => *items),
                decreases items@.len() - i,
            {
                proof {
                    assert(decreases_to!(*items => items@));
                    assert(decreases_to!(items@ => items@[i as int]));
                }
                let c = copy_value(&items[i]);
                proof {
                    lemma_model_items_push(out@, c);
                    lemma_model_items_push(items@.take(i as int), items@[i as int]);
                    assert(items@.take(i + 1) =~= items@.take(i as int).push(items@[i as int]));
                }
                out.push(c);
                i = i + 1;
            }
            proof {
                assert(items@.take(items@.len() as int) =~= items@);
            }
            Value::Array(out)
        },
        Value::Object(fields) => {
            let mut out: Vec<(String, Value)> = Vec::new();
            let mut i: usize = 0;
            while i < fields.len()
                invariant
                    i <= fields@.len(),
                    model_fields(out@) == model_fields(fields@.take(i as int)),
                    decreases_to!(*v => *fields),
                decreases fields@.len() - i,
            {
                proof {
                    assert(decreases_to!(*fields => fields@));
                    assert(decreases_to!(fields@ => fields@[i as int]));
                    assert(decreases_to!(fields@[i as int] => fields@[i as int].1));
                }
                let k = fields[i].0.clone();
                let c = copy_value(&fields[i].1);
                proof {
                    lemma_model_fields_push(out@, (k, c));
                    lemma_model_fields_push(fields@.take(i as int), fields@[i as int]);
                    assert(fields@.take(i + 1) =~= fields@.take(i as int).push(fields@[i as int]));
                }
                out.push((k, c));
                i = i + 1;
            }
            proof {
                assert(fields@.take(fields@.len() as int) =~= fields@);
            }
            Value::Object(out)
        },
    }
}

} // verus!
