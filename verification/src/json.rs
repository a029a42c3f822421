//! Transport of structured data into an inline script element.
//!
//! JSON text that is embedded verbatim inside a `<script>` block must never
//! be able to close the script context early. The encoders here guarantee
//! that by never emitting the character `<` (nor `>` or `&`): those
//! characters only ever occur inside JSON string literals, where the
//! `\u00..` escape denotes the same character, so the encoded text parses
//! back to the same value.

use vstd::prelude::*;
use vstd::string::StrSliceExecFns;
use vstd::string::StringExecFns;
use crate::text::push_char;

verus! {

/// serde_json's value type, carried through opaquely; the library never
/// looks inside it, it only hands it to the serializer.
#[verifier::external_type_specification]
#[verifier::external_body]
pub struct ExValue(serde_json::Value);

/// serde_json's error type, returned by its serializer.
#[verifier::external_type_specification]
#[verifier::external_body]
pub struct ExJsonError(serde_json::Error);

/// A name for what `serde_json::to_string` returns: the compact JSON text
/// of a value, a function of the value alone.
pub uninterp spec fn json_of(v: serde_json::Value) -> Seq<char>;

/// Relies on `serde_json::to_string`: the compact JSON text of the value,
/// determined by the value alone. Serializing a `Value` cannot fail: the
/// writer is an in-memory buffer, map keys are strings, and its numbers
/// are finite, so the call always returns `Ok`.
#[verifier::external_body]
pub(crate) fn to_json(v: &serde_json::Value) -> (r: Result<String, serde_json::Error>)
    ensures
        r is Ok,
        r matches Ok(s) ==> s@ == json_of(*v),
{
    serde_json::to_string(v)
}

/// The build-time error a mount would surface if its props failed to
/// serialize; serializing a `serde_json::Value` cannot fail, so the mount
/// contract promises it is never produced.
#[derive(Debug, PartialEq, Eq, Structural)]
pub struct SerializeError;

/// How one character of already-serialized JSON text is made safe for
/// embedding inside a script element: the three characters with markup
/// meaning become JSON `\u00..` escapes, everything else stands for itself.
pub open spec fn script_safe_char(c: char) -> Seq<char> {
    if c == '<' {
        "\\u003c"@
    } else if c == '>' {
        "\\u003e"@
    } else if c == '&' {
        "\\u0026"@
    } else {
        seq![c]
    }
}

/// JSON text made safe for embedding inside a script element.
pub open spec fn script_safed(s: Seq<char>) -> Seq<char>
    decreases s.len(),
{
    if s.len() == 0 {
        Seq::empty()
    } else {
        script_safe_char(s[0]) + script_safed(s.drop_first())
    }
}

pub proof fn lemma_script_safed_push(s: Seq<char>, c: char)
    ensures
        script_safed(s.push(c)) == script_safed(s) + script_safe_char(c),
    decreases s.len(),
{
    if s.len() == 0 {
        assert(s.push(c).drop_first() =~= Seq::<char>::empty());
        assert(s.push(c)[0] == c);
        assert(script_safed(Seq::<char>::empty()) =~= Seq::<char>::empty());
        assert(s =~= Seq::<char>::empty());
        assert(script_safe_char(c) + Seq::<char>::empty() =~= script_safe_char(c));
        assert(Seq::<char>::empty() + script_safe_char(c) =~= script_safe_char(c));
    } else {
        lemma_script_safed_push(s.drop_first(), c);
        assert(s.push(c).drop_first() =~= s.drop_first().push(c));
        assert(script_safe_char(s[0]) + (script_safed(s.drop_first()) + script_safe_char(c)) =~= (
        script_safe_char(s[0]) + script_safed(s.drop_first())) + script_safe_char(c));
        assert(s.push(c)[0] == s[0]);
    }
}

/// Rewrites serialized JSON text so that it can stand verbatim inside a
/// script element.
pub fn script_safe(s: &str) -> (r: String)
    ensures
        r@ == script_safed(s@),
{
    let n = s.unicode_len();
    let mut out = String::new();
    let mut i: usize = 0;
    while i < n
        invariant
            i <= n,
            n == s@.len(),
            out@ == script_safed(s@.take(i as int)),
        decreases n - i,
    {
        let c = s.get_char(i);
        if c == '<' {
            out.append("\\u003c");
        } else if c == '>' {
            out.append("\\u003e");
        } else if c == '&' {
            out.append("\\u0026");
        } else {
            push_char(&mut out, c);
        }
        proof {
            lemma_script_safed_push(s@.take(i as int), s@[i as int]);
            assert(s@.take(i + 1 as int) =~= s@.take(i as int).push(s@[i as int]));
        }
        i = i + 1;
    }
    proof {
        assert(s@.take(n as int) =~= s@);
    }
    out
}

/// Script-safe JSON text never holds the character `<`, so no embedded
/// payload can open a tag or terminate the enclosing script element early.
pub proof fn lemma_script_safed_no_lt(s: Seq<char>)
    ensures
        forall|i: int| 0 <= i < script_safed(s).len() ==> script_safed(s)[i] != '<',
    decreases s.len(),
{
    reveal_strlit("\\u003c");
    reveal_strlit("\\u003e");
    reveal_strlit("\\u0026");
    if s.len() == 0 {
    } else {
        lemma_script_safed_no_lt(s.drop_first());
        let head = script_safe_char(s[0]);
        let tail = script_safed(s.drop_first());
        assert(forall|i: int| 0 <= i < head.len() ==> head[i] != '<');
        assert(script_safed(s) == head + tail);
        assert forall|i: int| 0 <= i < script_safed(s).len() implies script_safed(s)[i] != '<' by {
            if i < head.len() {
                assert(script_safed(s)[i] == head[i]);
            } else {
                assert(script_safed(s)[i] == tail[i - head.len()]);
            }
        }
    }
}

/// The hexadecimal digit character for a value below sixteen.
pub open spec fn hex_digit(d: int) -> char {
    if d == 0 {
        '0'
    } else if d == 1 {
        '1'
    } else if d == 2 {
        '2'
    } else if d == 3 {
        '3'
    } else if d == 4 {
        '4'
    } else if d == 5 {
        '5'
    } else if d == 6 {
        '6'
    } else if d == 7 {
        '7'
    } else if d == 8 {
        '8'
    } else if d == 9 {
        '9'
    } else if d == 10 {
        'a'
    } else if d == 11 {
        'b'
    } else if d == 12 {
        'c'
    } else if d == 13 {
        'd'
    } else if d == 14 {
        'e'
    } else {
        'f'
    }
}

fn hex_digit_char(d: u32) -> (c: char)
    requires
        d < 16,
    ensures
        c == hex_digit(d as int),
{
    if d == 0 {
        '0'
    } else if d == 1 {
        '1'
    } else if d == 2 {
        '2'
    } else if d == 3 {
        '3'
    } else if d == 4 {
        '4'
    } else if d == 5 {
        '5'
    } else if d == 6 {
        '6'
    } else if d == 7 {
        '7'
    } else if d == 8 {
        '8'
    } else if d == 9 {
        '9'
    } else if d == 10 {
        'a'
    } else if d == 11 {
        'b'
    } else if d == 12 {
        'c'
    } else if d == 13 {
        'd'
    } else if d == 14 {
        'e'
    } else {
        'f'
    }
}

/// How one character of a string value is written inside a JSON string
/// literal, in a form that is also safe inside a script element.
pub open spec fn json_escape_char(c: char) -> Seq<char> {
    if c == '"' {
        "\\\""@
    } else if c == '\\' {
        "\\\\"@
    } else if c == '\n' {
        "\\n"@
    } else if c == '\r' {
        "\\r"@
    } else if c == '\t' {
        "\\t"@
    } else if c == '\u{8}' {
        "\\b"@
    } else if c == '\u{c}' {
        "\\f"@
    } else if c == '<' {
        "\\u003c"@
    } else if c == '>' {
        "\\u003e"@
    } else if c == '&' {
        "\\u0026"@
    } else if (c as u32) < 32 {
        seq!['\\', 'u', '0', '0', hex_digit((c as u32) as int / 16), hex_digit((c as u32) as int % 16)]
    } else {
        seq![c]
    }
}

/// The body of a JSON string literal holding the given text.
pub open spec fn json_escaped(s: Seq<char>) -> Seq<char>
    decreases s.len(),
{
    if s.len() == 0 {
        Seq::empty()
    } else {
        json_escape_char(s[0]) + json_escaped(s.drop_first())
    }
}

pub proof fn lemma_json_escaped_push(s: Seq<char>, c: char)
    ensures
        json_escaped(s.push(c)) == json_escaped(s) + json_escape_char(c),
    decreases s.len(),
{
    if s.len() == 0 {
        assert(s.push(c).drop_first() =~= Seq::<char>::empty());
        assert(s.push(c)[0] == c);
        assert(json_escaped(Seq::<char>::empty()) =~= Seq::<char>::empty());
        assert(s =~= Seq::<char>::empty());
        assert(json_escape_char(c) + Seq::<char>::empty() =~= json_escape_char(c));
        assert(Seq::<char>::empty() + json_escape_char(c) =~= json_escape_char(c));
    } else {
        lemma_json_escaped_push(s.drop_first(), c);
        assert(s.push(c).drop_first() =~= s.drop_first().push(c));
        assert(json_escape_char(s[0]) + (json_escaped(s.drop_first()) + json_escape_char(c)) =~= (
        json_escape_char(s[0]) + json_escaped(s.drop_first())) + json_escape_char(c));
        assert(s.push(c)[0] == s[0]);
    }
}

/// A complete JSON string literal holding the given text, safe for
/// embedding inside a script element.
pub open spec fn json_quoted(s: Seq<char>) -> Seq<char> {
    seq!['"'] + json_escaped(s) + seq!['"']
}

/// Writes a text as a JSON string literal, script-safe.
pub fn json_quote(s: &str) -> (r: String)
    ensures
        r@ == json_quoted(s@),
{
    let n = s.unicode_len();
    let mut out = String::new();
    push_char(&mut out, '"');
    let mut i: usize = 0;
    proof {
        assert(Seq::<char>::empty() + seq!['"'] =~= seq!['"']);
        assert(json_escaped(s@.take(0)) =~= Seq::<char>::empty());
        assert(seq!['"'] + Seq::<char>::empty() =~= seq!['"']);
    }
    while i < n
        invariant
            i <= n,
            n == s@.len(),
            out@ == seq!['"'] + json_escaped(s@.take(i as int)),
        decreases n - i,
    {
        let c = s.get_char(i);
        if c == '"' {
            out.append("\\\"");
        } else if c == '\\' {
            out.append("\\\\");
        } else if c == '\n' {
            out.append("\\n");
        } else if c == '\r' {
            out.append("\\r");
        } else if c == '\t' {
            out.append("\\t");
        } else if c == '\u{8}' {
            out.append("\\b");
        } else if c == '\u{c}' {
            out.append("\\f");
        } else if c == '<' {
            out.append("\\u003c");
        } else if c == '>' {
            out.append("\\u003e");
        } else if c == '&' {
            out.append("\\u0026");
        } else if (c as u32) < 32 {
            let u = c as u32;
            push_char(&mut out, '\\');
            push_char(&mut out, 'u');
            push_char(&mut out, '0');
            push_char(&mut out, '0');
            push_char(&mut out, hex_digit_char(u / 16));
            push_char(&mut out, hex_digit_char(u % 16));
            proof {
                assert(((((out@ + seq!['\\']) + seq!['u']) + seq!['0']) + seq!['0']) + seq![
                    hex_digit(u as int / 16),
                ] + seq![hex_digit(u as int % 16)] =~= out@ + json_escape_char(c));
            }
        } else {
            push_char(&mut out, c);
        }
        proof {
            lemma_json_escaped_push(s@.take(i as int), s@[i as int]);
            assert(s@.take(i + 1 as int) =~= s@.take(i as int).push(s@[i as int]));
            assert(seq!['"'] + (json_escaped(s@.take(i as int)) + json_escape_char(s@[i as int]))
                =~= (seq!['"'] + json_escaped(s@.take(i as int))) + json_escape_char(s@[i as int]));
        }
        i = i + 1;
    }
    push_char(&mut out, '"');
    proof {
        assert(s@.take(n as int) =~= s@);
        assert((seq!['"'] + json_escaped(s@)) + seq!['"'] =~= json_quoted(s@));
    }
    out
}

/// A character that `json_escape_char` writes as a backslash escape.
pub open spec fn is_json_escaped_char(c: char) -> bool {
    c == '"' || c == '\\' || c == '\n' || c == '\r' || c == '\t' || c == '<' || c == '>' || c == '&'
        || (c as u32) < 32
}

proof fn lemma_json_escape_char_shape(c: char)
    ensures
        json_escape_char(c).len() >= 1,
        !is_json_escaped_char(c) ==> json_escape_char(c) == seq![c],
        is_json_escaped_char(c) ==> json_escape_char(c)[0] == '\\' && json_escape_char(c).len()
            >= 2,
{
    reveal_strlit("\\\"");
    reveal_strlit("\\\\");
    reveal_strlit("\\n");
    reveal_strlit("\\r");
    reveal_strlit("\\t");
    reveal_strlit("\\b");
    reveal_strlit("\\f");
    reveal_strlit("\\u003c");
    reveal_strlit("\\u003e");
    reveal_strlit("\\u0026");
}

proof fn lemma_hex_digit_injective(a: int, b: int)
    requires
        0 <= a < 16,
        0 <= b < 16,
        hex_digit(a) == hex_digit(b),
    ensures
        a == b,
{
}

proof fn lemma_json_escape_char_cases(c: char)
    requires
        is_json_escaped_char(c),
    ensures
        c == '"' ==> json_escape_char(c) =~= seq!['\\', '"'],
        c == '\\' ==> json_escape_char(c) =~= seq!['\\', '\\'],
        c == '\n' ==> json_escape_char(c) =~= seq!['\\', 'n'],
        c == '\r' ==> json_escape_char(c) =~= seq!['\\', 'r'],
        c == '\t' ==> json_escape_char(c) =~= seq!['\\', 't'],
        c == '\u{8}' ==> json_escape_char(c) =~= seq!['\\', 'b'],
        c == '\u{c}' ==> json_escape_char(c) =~= seq!['\\', 'f'],
        c == '<' ==> json_escape_char(c) =~= seq!['\\', 'u', '0', '0', '3', 'c'],
        c == '>' ==> json_escape_char(c) =~= seq!['\\', 'u', '0', '0', '3', 'e'],
        c == '&' ==> json_escape_char(c) =~= seq!['\\', 'u', '0', '0', '2', '6'],
        c != '"' && c != '\\' && c != '\n' && c != '\r' && c != '\t' && c != '\u{8}' && c != '\u{c}'
            && c != '<' && c != '>' && c != '&' ==> (c as u32) < 32 && json_escape_char(c) =~= seq![
            '\\',
            'u',
            '0',
            '0',
            hex_digit((c as u32) as int / 16),
            hex_digit((c as u32) as int % 16),
        ],
{
    reveal_strlit("\\\"");
    reveal_strlit("\\\\");
    reveal_strlit("\\n");
    reveal_strlit("\\r");
    reveal_strlit("\\t");
    reveal_strlit("\\b");
    reveal_strlit("\\f");
    reveal_strlit("\\u003c");
    reveal_strlit("\\u003e");
    reveal_strlit("\\u0026");
}

proof fn lemma_json_escape_char_prefix(c1: char, c2: char, t1: Seq<char>, t2: Seq<char>)
    requires
        json_escape_char(c1) + t1 == json_escape_char(c2) + t2,
    ensures
        c1 == c2,
        t1 == t2,
{
    lemma_json_escape_char_shape(c1);
    lemma_json_escape_char_shape(c2);
    let e1 = json_escape_char(c1);
    let e2 = json_escape_char(c2);
    let m = e1 + t1;
    assert(forall|i: int| 0 <= i < e1.len() ==> m[i] == e1[i]);
    assert(forall|i: int| 0 <= i < e2.len() ==> m[i] == e2[i]);
    if !is_json_escaped_char(c1) && !is_json_escaped_char(c2) {
        assert(m[0] == c1 && m[0] == c2);
    } else if is_json_escaped_char(c1) && !is_json_escaped_char(c2) {
        assert(m[0] == '\\' && m[0] == c2);
        assert(is_json_escaped_char(c2));
    } else if !is_json_escaped_char(c1) && is_json_escaped_char(c2) {
        assert(m[0] == '\\' && m[0] == c1);
        assert(is_json_escaped_char(c1));
    } else {
        lemma_json_escape_char_cases(c1);
        lemma_json_escape_char_cases(c2);
        assert(e1[1] == m[1] && e2[1] == m[1]);
        if e1[1] == 'u' {
            assert(e1.len() == 6 && e2.len() == 6);
            assert(e1[4] == m[4] && e2[4] == m[4]);
            assert(e1[5] == m[5] && e2[5] == m[5]);
            if c1 != '<' && c1 != '>' && c1 != '&' && c2 != '<' && c2 != '>' && c2 != '&' {
                let u1 = (c1 as u32) as int;
                let u2 = (c2 as u32) as int;
                assert(hex_digit(u1 / 16) == hex_digit(u2 / 16));
                assert(hex_digit(u1 % 16) == hex_digit(u2 % 16));
                lemma_hex_digit_injective(u1 / 16, u2 / 16);
                lemma_hex_digit_injective(u1 % 16, u2 % 16);
                assert(u1 == u2);
                assert(c1 == c2);
            } else {
                assert(c1 == c2);
            }
        } else {
            assert(c1 == c2);
        }
    }
    assert(e1 == e2);
    assert(m == e2 + t2);
    assert((e1 + t1).len() == e1.len() + t1.len());
    assert((e2 + t2).len() == e2.len() + t2.len());
    assert(t1.len() == t2.len());
    assert forall|i: int| 0 <= i < t1.len() implies t1[i] == t2[i] by {
        assert((e1 + t1)[e1.len() + i] == t1[i]);
        assert((e2 + t2)[e2.len() + i] == t2[i]);
    }
    assert(t1 =~= t2);
}

/// The JSON string-body encoding is lossless: two texts with the same
/// encoded form are the same text, so the embedded text determines the
/// original value.
pub proof fn lemma_json_escaped_injective(s1: Seq<char>, s2: Seq<char>)
    requires
        json_escaped(s1) == json_escaped(s2),
    ensures
        s1 == s2,
    decreases s1.len(),
{
    if s1.len() == 0 && s2.len() == 0 {
        assert(s1 =~= s2);
    } else if s1.len() == 0 {
        lemma_json_escape_char_shape(s2[0]);
        assert(json_escaped(s2).len() >= 1);
        assert(false);
    } else if s2.len() == 0 {
        lemma_json_escape_char_shape(s1[0]);
        assert(json_escaped(s1).len() >= 1);
        assert(false);
    } else {
        lemma_json_escape_char_prefix(
            s1[0],
            s2[0],
            json_escaped(s1.drop_first()),
            json_escaped(s2.drop_first()),
        );
        lemma_json_escaped_injective(s1.drop_first(), s2.drop_first());
        assert(s1.len() == s2.len());
        assert forall|i: int| 0 <= i < s1.len() implies s1[i] == s2[i] by {
            if i > 0 {
                assert(s1[i] == s1.drop_first()[i - 1]);
                assert(s2[i] == s2.drop_first()[i - 1]);
            }
        }
        assert(s1 =~= s2);
    }
}

/// A whole JSON string literal written by `json_quoted` is lossless too.
pub proof fn lemma_json_quoted_injective(s1: Seq<char>, s2: Seq<char>)
    requires
        json_quoted(s1) == json_quoted(s2),
    ensures
        s1 == s2,
{
    let q1 = json_quoted(s1);
    let e1 = json_escaped(s1);
    let e2 = json_escaped(s2);
    assert(e1.len() == q1.len() - 2 && e2.len() == q1.len() - 2);
    assert(e1 =~= e2) by {
        assert(forall|i: int| 0 <= i < e1.len() ==> q1[1 + i] == e1[i]);
        assert(forall|i: int| 0 <= i < e2.len() ==> json_quoted(s2)[1 + i] == e2[i]);
    }
    lemma_json_escaped_injective(s1, s2);
}

/// A JSON string literal written by `json_quoted` never holds the
/// character `<`.
pub proof fn lemma_json_quoted_no_lt(s: Seq<char>)
    ensures
        forall|i: int| 0 <= i < json_quoted(s).len() ==> json_quoted(s)[i] != '<',
{
    lemma_json_escaped_no_lt(s);
}

pub proof fn lemma_json_escaped_no_lt(s: Seq<char>)
    ensures
        forall|i: int| 0 <= i < json_escaped(s).len() ==> json_escaped(s)[i] != '<',
    decreases s.len(),
{
    reveal_strlit("\\\"");
    reveal_strlit("\\\\");
    reveal_strlit("\\n");
    reveal_strlit("\\r");
    reveal_strlit("\\t");
    reveal_strlit("\\b");
    reveal_strlit("\\f");
    reveal_strlit("\\u003c");
    reveal_strlit("\\u003e");
    reveal_strlit("\\u0026");
    if s.len() == 0 {
    } else {
        lemma_json_escaped_no_lt(s.drop_first());
        let head = json_escape_char(s[0]);
        let tail = json_escaped(s.drop_first());
        assert(forall|i: int| 0 <= i < head.len() ==> head[i] != '<');
        assert(json_escaped(s) == head + tail);
        assert forall|i: int| 0 <= i < json_escaped(s).len() implies json_escaped(s)[i] != '<' by {
            if i < head.len() {
                assert(json_escaped(s)[i] == head[i]);
            } else {
                assert(json_escaped(s)[i] == tail[i - head.len()]);
            }
        }
    }
}

} // verus!
