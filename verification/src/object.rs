//! Building objects: an object is described by the list of its fields in
//! order, each of which is there or not.

use vstd::prelude::*;
use crate::value::{lemma_model_fields_push, model, model_fields, model_items, text, Json, Value};

verus! {

/// The pairs of the fields that are there, in order.
pub open spec fn present(plan: Seq<Option<(Seq<char>, Json)>>) -> Seq<(Seq<char>, Json)>
    decreases plan.len(),
{
    if plan.len() == 0 {
        Seq::empty()
    } else {
        match plan.last() {
            Some(p) => present(plan.drop_last()).push(p),
            None => present(plan.drop_last()),
        }
    }
}

/// The object of the fields that are there, in order.
pub open spec fn obj(plan: Seq<Option<(Seq<char>, Json)>>) -> Json {
    Json::Object(present(plan))
}

/// A field that is always there.
pub open spec fn have(key: Seq<char>, v: Json) -> Option<(Seq<char>, Json)> {
    Some((key, v))
}

/// A text field that is always there.
pub open spec fn have_str(key: Seq<char>, s: Seq<char>) -> Option<(Seq<char>, Json)> {
    Some((key, Json::Str(s)))
}

/// A text field that is there when the text is.
pub open spec fn maybe_str(key: Seq<char>, o: Option<Seq<char>>) -> Option<(Seq<char>, Json)> {
    match o {
        Some(s) => Some((key, Json::Str(s))),
        None => None,
    }
}

/// A field that is there when the value is.
pub open spec fn maybe(key: Seq<char>, o: Option<Json>) -> Option<(Seq<char>, Json)> {
    match o {
        Some(v) => Some((key, v)),
        None => None,
    }
}

/// A list field that is there when the list is not empty.
pub open spec fn listed(key: Seq<char>, items: Seq<Json>) -> Option<(Seq<char>, Json)> {
    if items.len() > 0 {
        Some((key, Json::Array(items)))
    } else {
        None
    }
}

pub open spec fn opt_value(o: Option<Value>) -> Option<Json> {
    match o {
        Some(v) => Some(model(v)),
        None => None,
    }
}

pub open spec fn opt_string(o: Option<String>) -> Option<Seq<char>> {
    match o {
        Some(s) => Some(s@),
        None => None,
    }
}

pub open spec fn opt_text(o: Option<&str>) -> Option<Seq<char>> {
    match o {
        Some(s) => Some(s@),
        None => None,
    }
}

/// An object under construction.
pub struct Obj {
    fields: Vec<(String, Value)>,
    plan: Ghost<Seq<Option<(Seq<char>, Json)>>>,
}

impl Obj {
    /// The fields written so far, each there or not.
    pub closed spec fn plan(&self) -> Seq<Option<(Seq<char>, Json)>> {
        self.plan@
    }

    pub closed spec fn wf(&self) -> bool {
        model_fields(self.fields@) == present(self.plan@)
    }

    pub fn new() -> (o: Obj)
        ensures
            o.wf(),
            o.plan() == Seq::<Option<(Seq<char>, Json)>>::empty(),
    {
        Obj { fields: Vec::new(), plan: Ghost(Seq::empty()) }
    }

    fn push_pair(&mut self, key: &str, v: Value)
        requires
            old(self).wf(),
        ensures
            final(self).wf(),
            final(self).plan() == old(self).plan().push(Some((key@, v@))),
    {
        let k = text(key);
        proof {
            lemma_model_fields_push(self.fields@, (k, v));
            let p = self.plan@.push(Some((key@, v@)));
            assert(p.drop_last() =~= self.plan@);
        }
        self.fields.push((k, v));
        self.plan = Ghost(self.plan@.push(Some((key@, v@))));
    }

    fn push_none(&mut self)
        requires
            old(self).wf(),
        ensures
            final(self).wf(),
            final(self).plan() == old(self).plan().push(None),
    {
        proof {
            let p = self.plan@.push(None);
            assert(p.drop_last() =~= self.plan@);
        }
        self.plan = Ghost(self.plan@.push(None));
    }

    /// A field that is always there.
    pub fn put(&mut self, key: &str, v: Value)
        requires
            old(self).wf(),
        ensures
            final(self).wf(),
            final(self).plan() == old(self).plan().push(have(key@, v@)),
    {
        self.push_pair(key, v);
    }

    /// A text field that is always there.
    pub fn put_text(&mut self, key: &str, s: String)
        requires
            old(self).wf(),
        ensures
            final(self).wf(),
            final(self).plan() == old(self).plan().push(have_str(key@, s@)),
    {
        self.push_pair(key, Value::String(s));
    }

    /// A text field that is always there, from a borrowed text.
    pub fn put_str(&mut self, key: &str, s: &str)
        requires
            old(self).wf(),
        ensures
            final(self).wf(),
            final(self).plan() == old(self).plan().push(have_str(key@, s@)),
    {
        self.push_pair(key, Value::String(text(s)));
    }

    /// A text field that is there when the text is.
    pub fn maybe_text(&mut self, key: &str, o: Option<String>)
        requires
            old(self).wf(),
        ensures
            final(self).wf(),
            final(self).plan() == old(self).plan().push(maybe_str(key@, opt_string(o))),
    {
        match o {
            Some(s) => self.push_pair(key, Value::String(s)),
            None => self.push_none(),
        }
    }

    /// A text field that is there when the borrowed text is.
    pub fn maybe_str(&mut self, key: &str, o: Option<&str>)
        requires
            old(self).wf(),
        ensures
            final(self).wf(),
            final(self).plan() == old(self).plan().push(maybe_str(key@, opt_text(o))),
    {
        match o {
            Some(s) => self.push_pair(key, Value::String(text(s))),
            None => self.push_none(),
        }
    }

    /// A field that is there when the value is.
    pub fn maybe(&mut self, key: &str, o: Option<Value>)
        requires
            old(self).wf(),
        ensures
            final(self).wf(),
            final(self).plan() == old(self).plan().push(maybe(key@, opt_value(o))),
    {
        match o {
            Some(v) => self.push_pair(key, v),
            None => self.push_none(),
        }
    }

    /// A list field that is there when the list is not empty.
    pub fn list(&mut self, key: &str, items: Vec<Value>)
        requires
            old(self).wf(),
        ensures
            final(self).wf(),
            final(self).plan() == old(self).plan().push(listed(key@, model_items(items@))),
    {
        if items.len() > 0 {
            proof {
                crate::value::lemma_model_items(items@);
            }
            self.push_pair(key, Value::Array(items));
        } else {
            proof {
                crate::value::lemma_model_items(items@);
            }
            self.push_none();
        }
    }

    /// The finished object.
    pub fn done(self) -> (v: Value)
        requires
            self.wf(),
        ensures
            v@ == obj(self.plan()),
    {
        Value::Object(self.fields)
    }
}

} // verus!
