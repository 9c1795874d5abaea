//! The JavaScript reading of text: its white space class, `trim`, and
//! `parseInt` in radix ten; and the escaping of attribute values.

use vstd::prelude::*;

verus! {

/// The JavaScript white space class as a regex character-class body:
/// `[JS_SPACE]` is the JavaScript `\s` and `[^JS_SPACE]` is `\S`.
pub const JS_SPACE: &'static str = "\t\n\u{b}\u{c}\r \u{a0}\u{1680}\u{2000}-\u{200a}\u{2028}\u{2029}\u{202f}\u{205f}\u{3000}\u{feff}";

/// ECMA-262 `WhiteSpace` plus `LineTerminator`: what a JavaScript `\s`
/// matches and what `String.prototype.trim` removes. U+FEFF is in it and
/// U+0085 is not, unlike the Unicode `White_Space` property.
pub open spec fn is_js_space(c: char) -> bool {
    ||| c == '\u{9}' || c == '\u{b}' || c == '\u{c}' || c == '\u{20}' || c == '\u{a0}'
        || c == '\u{feff}'
    ||| c == '\u{1680}' || c == '\u{202f}' || c == '\u{205f}' || c == '\u{3000}'
    ||| '\u{2000}' <= c && c <= '\u{200a}'
    ||| c == '\u{a}' || c == '\u{d}' || c == '\u{2028}' || c == '\u{2029}'
}

/// One character of the JavaScript white space class.
pub fn js_space(c: char) -> (r: bool)
    ensures
        r == is_js_space(c),
{
    c == '\u{9}' || c == '\u{b}' || c == '\u{c}' || c == '\u{20}' || c == '\u{a0}' || c
        == '\u{feff}' || c == '\u{1680}' || c == '\u{202f}' || c == '\u{205f}' || c == '\u{3000}'
        || ('\u{2000}' <= c && c <= '\u{200a}') || c == '\u{a}' || c == '\u{d}' || c == '\u{2028}'
        || c == '\u{2029}'
}

/// The text without its leading white space.
pub open spec fn trim_start(s: Seq<char>) -> Seq<char>
    decreases s.len(),
{
    if s.len() > 0 && is_js_space(s[0]) {
        trim_start(s.drop_first())
    } else {
        s
    }
}

/// The text without its trailing white space.
pub open spec fn trim_end(s: Seq<char>) -> Seq<char>
    decreases s.len(),
{
    if s.len() > 0 && is_js_space(s.last()) {
        trim_end(s.drop_last())
    } else {
        s
    }
}

/// `String.prototype.trim`.
pub open spec fn spec_js_trim(s: Seq<char>) -> Seq<char> {
    trim_end(trim_start(s))
}

/// The characters of a text.
pub fn chars_of(s: &str) -> (v: Vec<char>)
    ensures
        v@ == s@,
{
    let mut v: Vec<char> = Vec::new();
    for c in it: s.chars()
        invariant
            v@ == it.seq().take(it.index() as int),
    {
        v.push(c);
    }
    v
}

/// `String::from_iter` over characters. Its documentation: the string
/// holds the characters that the iterator yields, in order, which for a
/// `Vec` are its elements.
#[verifier::external_body]
fn string_from_chars(chars: Vec<char>) -> (s: String)
    ensures
        s@ == chars@,
{
    String::from_iter(chars)
}

proof fn lemma_trim_start_skip(s: Seq<char>, i: int)
    requires
        0 <= i <= s.len(),
        forall|k: int| 0 <= k < i ==> is_js_space(#[trigger] s[k]),
    ensures
        trim_start(s) == trim_start(s.skip(i)),
    decreases i,
{
    if i > 0 {
        assert(s.drop_first().skip(i - 1) =~= s.skip(i));
        lemma_trim_start_skip(s.drop_first(), i - 1);
    } else {
        assert(s.skip(0) =~= s);
    }
}

proof fn lemma_trim_end_take(s: Seq<char>, j: int)
    requires
        0 <= j <= s.len(),
        forall|k: int| j <= k < s.len() ==> is_js_space(#[trigger] s[k]),
    ensures
        trim_end(s) == trim_end(s.take(j)),
    decreases s.len() - j,
{
    if j < s.len() {
        assert(s.drop_last().take(j) =~= s.take(j));
        lemma_trim_end_take(s.drop_last(), j);
    } else {
        assert(s.take(j) =~= s);
    }
}

/// `String.prototype.trim`, which is not `str::trim`: white space is the
/// JavaScript class of [`is_js_space`].
pub fn js_trim(text: &str) -> (r: &str)
    ensures
        r@ == spec_js_trim(text@),
{
    let chars = chars_of(text);
    let n = chars.len();
    let mut start: usize = 0;
    while start < n && js_space(chars[start])
        invariant
            start <= n,
            n == chars@.len(),
            forall|k: int| 0 <= k < start ==> is_js_space(#[trigger] chars@[k]),
        decreases n - start,
    {
        start = start + 1;
    }
    let mut end: usize = n;
    while end > start && js_space(chars[end - 1])
        invariant
            start <= end <= n,
            n == chars@.len(),
            forall|k: int| end <= k < n ==> is_js_space(#[trigger] chars@[k]),
        decreases end,
    {
        end = end - 1;
    }
    let ghost s = text@;
    proof {
        lemma_trim_start_skip(s, start as int);
        let t = s.skip(start as int);
        if start < n {
            assert(!is_js_space(t[0]));
        }
        assert(trim_start(t) == t);
        assert forall|k: int| end - start <= k < t.len() implies is_js_space(#[trigger] t[k]) by {
            assert(t[k] == s[k + start]);
        }
        lemma_trim_end_take(t, end - start);
        let u = t.take(end - start);
        assert(u =~= s.subrange(start as int, end as int));
        if end > start {
            assert(u.last() == s[end - 1]);
        }
        assert(trim_end(u) == u);
    }
    text.substring_char(start, end)
}

/// The longest run of ASCII digits that the text starts with.
pub open spec fn digit_prefix(s: Seq<char>) -> Seq<char>
    decreases s.len(),
{
    if s.len() > 0 && '0' <= s[0] && s[0] <= '9' {
        seq![s[0]] + digit_prefix(s.drop_first())
    } else {
        Seq::empty()
    }
}

/// `parseInt(text, 10)` as the decimal text of its result: leading white
/// space is skipped, an optional sign is read, and the longest run of
/// ASCII digits after it is the value; with no digit the result is NaN.
pub open spec fn spec_js_parse_int(s: Seq<char>) -> Seq<char> {
    let rest = trim_start(s);
    let signed = rest.len() > 0 && (rest[0] == '-' || rest[0] == '+');
    let body = if signed {
        rest.drop_first()
    } else {
        rest
    };
    let digits = digit_prefix(body);
    if digits.len() == 0 {
        seq!['N', 'a', 'N']
    } else if rest[0] == '-' {
        seq!['-'] + digits
    } else {
        digits
    }
}

proof fn lemma_digit_prefix_take(s: Seq<char>, i: int)
    requires
        0 <= i <= s.len(),
        forall|k: int| 0 <= k < i ==> '0' <= #[trigger] s[k] && s[k] <= '9',
        i == s.len() || !('0' <= s[i] && s[i] <= '9'),
    ensures
        digit_prefix(s) == s.take(i),
    decreases i,
{
    if i > 0 {
        lemma_digit_prefix_take(s.drop_first(), i - 1);
        assert(s.take(i) =~= seq![s[0]] + s.drop_first().take(i - 1));
    } else {
        assert(s.take(0) =~= Seq::<char>::empty());
    }
}

/// `parseInt(text, 10)` (ECMA-262 19.2.5), given as the decimal text of
/// the number it reads: `"12abc"` is `12`, `"0x10"` is `0` because the
/// scan stops at the `x`, and a text with no digit after the sign is
/// `NaN`. The digits are kept as written; the nearest double to them is
/// the JavaScript result.
pub fn js_parse_int(text: &str) -> (r: String)
    ensures
        r@ == spec_js_parse_int(text@),
{
    let chars = chars_of(text);
    let n = chars.len();
    let mut i: usize = 0;
    while i < n && js_space(chars[i])
        invariant
            i <= n,
            n == chars@.len(),
            forall|k: int| 0 <= k < i ==> is_js_space(#[trigger] chars@[k]),
        decreases n - i,
    {
        i = i + 1;
    }
    let ghost s = text@;
    proof {
        lemma_trim_start_skip(s, i as int);
        let t = s.skip(i as int);
        if i < n {
            assert(!is_js_space(t[0]));
        }
        assert(trim_start(t) == t);
    }
    let ghost rest = s.skip(i as int);
    let negative = i < n && chars[i] == '-';
    let signed = i < n && (chars[i] == '-' || chars[i] == '+');
    let first = if signed {
        i + 1
    } else {
        i
    };
    let ghost body = if signed {
        rest.drop_first()
    } else {
        rest
    };
    proof {
        assert(body =~= s.skip(first as int));
    }
    let mut j = first;
    let mut out: Vec<char> = Vec::new();
    if negative {
        out.push('-');
    }
    let ghost prefix = out@;
    while j < n && '0' <= chars[j] && chars[j] <= '9'
        invariant
            first <= j <= n,
            n == chars@.len(),
            out@ == prefix + chars@.subrange(first as int, j as int),
            forall|k: int| first <= k < j ==> '0' <= #[trigger] chars@[k] && chars@[k] <= '9',
        decreases n - j,
    {
        out.push(chars[j]);
        proof {
            assert(chars@.subrange(first as int, j + 1) =~= chars@.subrange(first as int, j as int).push(chars@[j as int]));
        }
        j = j + 1;
    }
    proof {
        let d = j - first;
        assert forall|k: int| 0 <= k < d implies '0' <= #[trigger] body[k] && body[k] <= '9' by {
            assert(body[k] == chars@[k + first]);
        }
        if j < n {
            assert(body[d] == chars@[j as int]);
        }
        lemma_digit_prefix_take(body, d);
        assert(body.take(d) =~= chars@.subrange(first as int, j as int));
    }
    if j == first {
        let mut nan: Vec<char> = Vec::new();
        nan.push('N');
        nan.push('a');
        nan.push('N');
        proof {
            assert(nan@ =~= seq!['N', 'a', 'N']);
        }
        return string_from_chars(nan);
    }
    proof {
        if negative {
            assert(out@ =~= seq!['-'] + digit_prefix(body));
        } else {
            assert(out@ =~= digit_prefix(body));
        }
    }
    string_from_chars(out)
}

/// The replacement text of one character in an attribute value.
pub open spec fn escape_char(c: char) -> Seq<char> {
    if c == '&' {
        seq!['&', 'a', 'm', 'p', ';']
    } else if c == '"' {
        seq!['&', 'q', 'u', 'o', 't', ';']
    } else if c == '<' {
        seq!['&', 'l', 't', ';']
    } else if c == '>' {
        seq!['&', 'g', 't', ';']
    } else {
        seq![c]
    }
}

/// An attribute value with `&`, `"`, `<` and `>` escaped.
pub open spec fn spec_escape_attr(s: Seq<char>) -> Seq<char>
    decreases s.len(),
{
    if s.len() == 0 {
        Seq::empty()
    } else {
        spec_escape_attr(s.drop_last()) + escape_char(s.last())
    }
}

fn push_all(out: &mut Vec<char>, Ghost(s): Ghost<Seq<char>>, a: char, b: char, c: char, d: char, e: char, f: char, len: usize)
    requires
        len == s.len(),
        1 <= len <= 6,
        len >= 1 ==> s[0] == a,
        len >= 2 ==> s[1] == b,
        len >= 3 ==> s[2] == c,
        len >= 4 ==> s[3] == d,
        len >= 5 ==> s[4] == e,
        len >= 6 ==> s[5] == f,
    ensures
        final(out)@ == old(out)@ + s,
{
    let ghost start = out@;
    out.push(a);
    if len >= 2 {
        out.push(b);
    }
    if len >= 3 {
        out.push(c);
    }
    if len >= 4 {
        out.push(d);
    }
    if len >= 5 {
        out.push(e);
    }
    if len >= 6 {
        out.push(f);
    }
    assert(out@ =~= start + s);
}

/// The four replacements of an attribute value, made as if in this
/// order: `&`, `"`, `<`, `>`.
pub fn escape_attr(text: &str) -> (r: String)
    ensures
        r@ == spec_escape_attr(text@),
{
    let chars = chars_of(text);
    let mut out: Vec<char> = Vec::new();
    let mut i: usize = 0;
    while i < chars.len()
        invariant
            i <= chars@.len(),
            chars@ == text@,
            out@ == spec_escape_attr(chars@.take(i as int)),
        decreases chars@.len() - i,
    {
        let c = chars[i];
        proof {
            assert(chars@.take(i + 1).drop_last() =~= chars@.take(i as int));
        }
        if c == '&' {
            push_all(&mut out, Ghost(escape_char(c)), '&', 'a', 'm', 'p', ';', ' ', 5);
        } else if c == '"' {
            push_all(&mut out, Ghost(escape_char(c)), '&', 'q', 'u', 'o', 't', ';', 6);
        } else if c == '<' {
            push_all(&mut out, Ghost(escape_char(c)), '&', 'l', 't', ';', ' ', ' ', 4);
        } else if c == '>' {
            push_all(&mut out, Ghost(escape_char(c)), '&', 'g', 't', ';', ' ', ' ', 4);
        } else {
            push_all(&mut out, Ghost(escape_char(c)), c, ' ', ' ', ' ', ' ', ' ', 1);
        }
        i = i + 1;
    }
    proof {
        assert(chars@.take(chars@.len() as int) =~= chars@);
    }
    string_from_chars(out)
}

} // verus!
