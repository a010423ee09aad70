//! String literals for scripts, in JSON notation.

use vstd::prelude::*;

verus! {

/// A lower-case hexadecimal digit.
pub open spec fn hex_digit(d: int) -> char {
    if d < 10 {
        ('0' as int + d) as char
    } else {
        ('a' as int + d - 10) as char
    }
}

/// How one character is written inside a JSON string: quote, backslash and the
/// control characters are escaped, every other character stands for itself.
pub open spec fn json_escape(c: char) -> Seq<char> {
    if c == '"' || c == '\\' {
        seq!['\\', c]
    } else if c == '\u{8}' {
        seq!['\\', 'b']
    } else if c == '\t' {
        seq!['\\', 't']
    } else if c == '\n' {
        seq!['\\', 'n']
    } else if c == '\u{c}' {
        seq!['\\', 'f']
    } else if c == '\r' {
        seq!['\\', 'r']
    } else if c as int <= 31 {
        seq!['\\', 'u', '0', '0', hex_digit(c as int / 16), hex_digit(c as int % 16)]
    } else {
        seq![c]
    }
}

/// The escaped characters of a text, one after the other.
pub open spec fn json_body(s: Seq<char>) -> Seq<char>
    decreases s.len(),
{
    if s.len() == 0 {
        Seq::empty()
    } else {
        json_escape(s[0]) + json_body(s.drop_first())
    }
}

/// The JSON string literal of a text.
pub open spec fn json_string(s: Seq<char>) -> Seq<char> {
    seq!['"'] + json_body(s) + seq!['"']
}

/// The error type of `serde_json`, carried but never looked into.
#[verifier::external_type_specification]
#[verifier::external_body]
pub struct ExJsonError(serde_json::Error);

/// `serde_json::to_string` on a string. It writes into a growing byte vector,
/// which does not fail, so the result is always a literal: the text between
/// quotes, escaped by the crate's table of one entry per byte.
#[verifier::external_body]
fn json_to_string(input: &str) -> (encoded: Result<String, serde_json::Error>)
    ensures
        encoded is Ok,
        encoded->Ok_0@ == json_string(input@),
{
    serde_json::to_string(input)
}

/// The literal that encoding gave, or the empty literal where it failed.
pub fn literal_or_empty(encoded: Result<String, serde_json::Error>) -> (literal: String)
    ensures
        literal@ == (match encoded {
            Ok(text) => text@,
            Err(_) => "\"\""@,
        }),
{
    match encoded {
        Ok(text) => text,
        Err(_) => "\"\"".to_owned(),
    }
}

/// A script's string literal for `input`.
pub fn js_string(input: &str) -> (literal: String)
    ensures
        literal@ == json_string(input@),
{
    literal_or_empty(json_to_string(input))
}

proof fn lemma_escape_is_prefix_free(c: char, d: char, x: Seq<char>, y: Seq<char>)
    requires
        json_escape(c) + x == json_escape(d) + y,
    ensures
        c == d,
        x == y,
{
    let (e, f) = (json_escape(c), json_escape(d));
    let (ex, fy) = (e + x, f + y);
    assert(ex[0] == e[0] && fy[0] == f[0]);
    if e.len() > 1 && f.len() > 1 {
        assert(ex[1] == e[1] && fy[1] == f[1]);
        if e.len() > 2 && f.len() > 2 {
            assert(ex[4] == e[4] && fy[4] == f[4]);
            assert(ex[5] == e[5] && fy[5] == f[5]);
        }
    }
    assert(c == d);
    assert(x =~= ex.skip(e.len() as int));
    assert(y =~= fy.skip(e.len() as int));
}

/// The characters of an escape are printable and do not begin with a quote.
proof fn lemma_escape_chars(c: char)
    ensures
        json_escape(c).len() > 0,
        json_escape(c)[0] != '"',
        forall|i: int| 0 <= i < json_escape(c).len() ==> #[trigger] json_escape(c)[i] >= ' ',
{
}

proof fn lemma_body_is_prefix_free(a: Seq<char>, b: Seq<char>, x: Seq<char>, y: Seq<char>)
    requires
        json_body(a) + (seq!['"'] + x) == json_body(b) + (seq!['"'] + y),
    ensures
        a == b,
        x == y,
    decreases a.len() + b.len(),
{
    let (qx, qy) = (seq!['"'] + x, seq!['"'] + y);
    if a.len() == 0 && b.len() == 0 {
        assert(json_body(a) + qx =~= qx);
        assert(json_body(b) + qy =~= qy);
        assert(x =~= qx.skip(1));
        assert(y =~= qy.skip(1));
        assert(a =~= b);
    } else if a.len() == 0 {
        lemma_escape_chars(b[0]);
        assert((json_body(a) + qx)[0] == '"');
        assert((json_body(b) + qy)[0] == json_escape(b[0])[0]);
    } else if b.len() == 0 {
        lemma_escape_chars(a[0]);
        assert((json_body(b) + qy)[0] == '"');
        assert((json_body(a) + qx)[0] == json_escape(a[0])[0]);
    } else {
        let (ta, tb) = (a.drop_first(), b.drop_first());
        assert(json_body(a) + qx =~= json_escape(a[0]) + (json_body(ta) + qx));
        assert(json_body(b) + qy =~= json_escape(b[0]) + (json_body(tb) + qy));
        lemma_escape_is_prefix_free(a[0], b[0], json_body(ta) + qx, json_body(tb) + qy);
        lemma_body_is_prefix_free(ta, tb, x, y);
        assert(a =~= seq![a[0]] + ta);
        assert(b =~= seq![b[0]] + tb);
    }
}

/// A literal ends where it should: whatever text stands behind it, a reader
/// finds the same end of the literal and the same text in it. So no text can
/// break out of its literal into the script around it.
pub proof fn law_literal_is_self_delimiting(
    a: Seq<char>,
    b: Seq<char>,
    x: Seq<char>,
    y: Seq<char>,
)
    requires
        json_string(a) + x == json_string(b) + y,
    ensures
        a == b,
        x == y,
{
    let (l, r) = (json_string(a) + x, json_string(b) + y);
    assert(l.skip(1) =~= json_body(a) + (seq!['"'] + x));
    assert(r.skip(1) =~= json_body(b) + (seq!['"'] + y));
    lemma_body_is_prefix_free(a, b, x, y);
}

proof fn lemma_body_is_printable(s: Seq<char>, i: int)
    requires
        0 <= i < json_body(s).len(),
    ensures
        json_body(s)[i] >= ' ',
    decreases s.len(),
{
    let first = json_escape(s[0]);
    lemma_escape_chars(s[0]);
    if i >= first.len() {
        lemma_body_is_printable(s.drop_first(), i - first.len());
    }
}

/// A literal holds no control character, so it never spans lines.
pub proof fn law_literal_is_printable(s: Seq<char>)
    ensures
        forall|i: int| 0 <= i < json_string(s).len() ==> #[trigger] json_string(s)[i] >= ' ',
{
    assert forall|i: int| 0 <= i < json_string(s).len() implies #[trigger] json_string(s)[i]
        >= ' ' by {
        if 0 < i < json_string(s).len() - 1 {
            lemma_body_is_printable(s, i - 1);
        }
    }
}

/// The literal of one character: quote, backslash and the control characters are
/// escaped, every other character stands between the quotes as it is.
pub proof fn law_literal_of_a_character(c: char)
    ensures
        ({
            let inside = json_string(seq![c]).subrange(1, json_string(seq![c]).len() - 1);
            &&& json_string(seq![c]).first() == '"'
            &&& json_string(seq![c]).last() == '"'
            &&& inside == (if c == '"' || c == '\\' {
                seq!['\\', c]
            } else if c as int == 8 {
                seq!['\\', 'b']
            } else if c as int == 9 {
                seq!['\\', 't']
            } else if c as int == 10 {
                seq!['\\', 'n']
            } else if c as int == 12 {
                seq!['\\', 'f']
            } else if c as int == 13 {
                seq!['\\', 'r']
            } else if c as int <= 31 {
                seq![
                    '\\',
                    'u',
                    '0',
                    '0',
                    if c as int >= 16 { '1' } else { '0' },
                    "0123456789abcdef"@[c as int % 16],
                ]
            } else {
                seq![c]
            })
        }),
{
    reveal_strlit("0123456789abcdef");
    reveal_with_fuel(json_body, 2);
    let literal = json_string(seq![c]);
    assert(seq![c].drop_first() =~= Seq::empty());
    assert(json_body(seq![c]) =~= json_escape(c));
    assert(literal.subrange(1, literal.len() - 1) =~= json_escape(c));
}

proof fn lemma_body_of_a_sum(a: Seq<char>, b: Seq<char>)
    ensures
        json_body(a + b) == json_body(a) + json_body(b),
    decreases a.len(),
{
    if a.len() == 0 {
        assert(a + b =~= b);
        assert(json_body(a) + json_body(b) =~= json_body(b));
    } else {
        assert((a + b).drop_first() =~= a.drop_first() + b);
        lemma_body_of_a_sum(a.drop_first(), b);
        assert(json_body(a + b) =~= json_body(a) + json_body(b));
    }
}

/// The literal of two texts in a row holds what stands in the literal of the first, then
/// what stands in that of the second; that of no text holds nothing. So a literal holds
/// its text, character by character.
pub proof fn law_literal_of_a_sum(a: Seq<char>, b: Seq<char>)
    ensures
        json_string(Seq::empty()) == seq!['"', '"'],
        json_string(a + b) == json_string(a).drop_last() + json_string(b).drop_first(),
{
    lemma_body_of_a_sum(a, b);
    assert(json_string(Seq::empty()) =~= seq!['"', '"']);
    assert(json_string(a + b) =~= json_string(a).drop_last() + json_string(b).drop_first());
}

} // verus!
