//! The RSS author pattern, matched by the `regex` crate.

use vstd::prelude::*;
use crate::value::text;
use crate::text::{spec_js_trim, JS_SPACE};
use crate::object::{have_str, obj, opt_string};
use crate::element::or_text;
use crate::value::Json;
use crate::value::Value;
use crate::object::Obj;

verus! {

/// What `regex::Regex::captures` gives for a pattern and a text: nothing
/// when the pattern does not compile or does not match, else each group's
/// matched text, group 0 first.
pub uninterp spec fn regex_captures(pattern: Seq<char>, text: Seq<char>) -> Option<
    Seq<Option<Seq<char>>>,
>;

pub open spec fn groups_model(groups: Vec<Option<String>>) -> Seq<Option<Seq<char>>> {
    Seq::new(groups@.len(), |i: int| opt_string(groups@[i]))
}

pub open spec fn opt_groups(found: Option<Vec<Option<String>>>) -> Option<Seq<Option<Seq<char>>>> {
    match found {
        Some(groups) => Some(groups_model(groups)),
        None => None,
    }
}

/// Compiles `pattern` with `regex::Regex::new` and, when it compiles,
/// matches it against `text` with `regex::Regex::captures`, handing back
/// each group's text (`Match::as_str`). The contract names that result;
/// what the regex engine computes is not restated.
#[verifier::external_body]
fn captures(pattern: &str, text: &str) -> (r: Option<Vec<Option<String>>>)
    ensures
        opt_groups(r) == regex_captures(pattern@, text@),
{
    match regex::Regex::new(pattern) {
        Ok(re) => re.captures(text).map(
            |found| found.iter().map(|group| group.map(|m| m.as_str().to_string())).collect(),
        ),
        Err(_) => None,
    }
}

/// The author pattern, `"you@example.com (Your Name)"` or a bare address,
/// with `\s` and `\S` written out as the JavaScript class `JS_SPACE`.
pub open spec fn author_pattern() -> Seq<char> {
    "^["@ + JS_SPACE@ + "]*([^"@ + JS_SPACE@ + "()]+@[^"@ + JS_SPACE@ + "]+)["@ + JS_SPACE@
        + "]*(?:\\(([^)]+)\\))?["@ + JS_SPACE@ + "]*$"@
}

fn author_pattern_text() -> (r: String)
    ensures
        r@ == author_pattern(),
{
    let mut p = text("^[");
    p.append(JS_SPACE);
    p.append("]*([^");
    p.append(JS_SPACE);
    p.append("()]+@[^");
    p.append(JS_SPACE);
    p.append("]+)[");
    p.append(JS_SPACE);
    p.append("]*(?:\\(([^)]+)\\))?[");
    p.append(JS_SPACE);
    p.append("]*$");
    p
}

/// A group of a match, when the pattern has it and it matched.
pub open spec fn group(groups: Seq<Option<Seq<char>>>, i: int) -> Option<Seq<char>> {
    if 0 <= i < groups.len() {
        groups[i]
    } else {
        None
    }
}

/// An RSS person field as an Atom person, given what the author pattern
/// matched in it: the address is group 1 and the name group 2, else the
/// address; with no match the whole text, trimmed, is the name.
pub open spec fn spec_person_from_match(text: Seq<char>, found: Option<Seq<Option<Seq<char>>>>) -> Json {
    match found {
        Some(groups) => {
            let email = or_text(group(groups, 1), Seq::empty());
            obj(seq![have_str("name"@, or_text(group(groups, 2), email)), have_str("email"@, email)])
        },
        None => obj(seq![have_str("name"@, spec_js_trim(text))]),
    }
}

/// An RSS person field as an Atom person.
pub open spec fn spec_rss_person(text: Seq<char>) -> Json {
    spec_person_from_match(text, regex_captures(author_pattern(), text))
}

fn group_of(groups: &Vec<Option<String>>, i: usize) -> (r: Option<&str>)
    ensures
        crate::object::opt_text(r) == group(groups_model(*groups), i as int),
{
    if i < groups.len() {
        match &groups[i] {
            Some(s) => Some(s.as_str()),
            None => None,
        }
    } else {
        None
    }
}

/// An Atom person from an RSS person field and what the author pattern
/// matched in it.
pub fn person_from_match(text: &str, found: Option<Vec<Option<String>>>) -> (r: Value)
    ensures
        r@ == spec_person_from_match(text@, opt_groups(found)),
{
    proof {
        reveal_strlit("");
    }
    match found {
        Some(groups) => {
            let email: &str = match group_of(&groups, 1) {
                Some(e) => e,
                None => "",
            };
            let name: &str = match group_of(&groups, 2) {
                Some(n) => n,
                None => email,
            };
            let ghost g = groups_model(groups);
            assert(opt_groups(found) == Some(g));
            assert(email@ == or_text(group(g, 1), Seq::empty()));
            assert(name@ == or_text(group(g, 2), email@));
            let mut o = Obj::new();
            o.put_str("name", name);
            o.put_str("email", email);
            proof {
                assert(o.plan() =~= seq![have_str("name"@, name@), have_str("email"@, email@)]);
            }
            o.done()
        },
        None => {
            let mut o = Obj::new();
            o.put_str("name", crate::text::js_trim(text));
            proof {
                assert(o.plan() =~= seq![have_str("name"@, spec_js_trim(text@))]);
            }
            o.done()
        },
    }
}

/// An RSS person field (`managingEditor`, `webMaster`, `author`) as an
/// Atom person.
pub fn parse_rss_person(text: &str) -> (r: Value)
    ensures
        r@ == spec_rss_person(text@),
{
    let pattern = author_pattern_text();
    let found = captures(pattern.as_str(), text);
    person_from_match(text, found)
}

} // verus!
