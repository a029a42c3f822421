//! Character-level text utilities: HTML escaping, single-character
//! replacement, marker stripping, and decimal digit rendering.

use vstd::prelude::*;
use vstd::string::StrSliceExecFns;
use vstd::string::StringExecFns;

verus! {

/// Relies on std's `String::push`: appends exactly one character at the end.
#[verifier::external_body]
pub(crate) fn push_char(s: &mut String, c: char)
    ensures
        final(s)@ == old(s)@ + seq![c],
{
    s.push(c);
}

/// How one character is rendered inside HTML text or a quoted attribute:
/// the four characters with markup meaning become entities, everything
/// else stands for itself.
pub open spec fn html_escape_char(c: char) -> Seq<char> {
    if c == '&' {
        "&amp;"@
    } else if c == '<' {
        "&lt;"@
    } else if c == '>' {
        "&gt;"@
    } else if c == '"' {
        "&quot;"@
    } else {
        seq![c]
    }
}

/// The HTML-escaped form of a text: each character replaced by its
/// rendering under `html_escape_char`.
pub open spec fn html_escaped(s: Seq<char>) -> Seq<char>
    decreases s.len(),
{
    if s.len() == 0 {
        Seq::empty()
    } else {
        html_escape_char(s[0]) + html_escaped(s.drop_first())
    }
}

pub proof fn lemma_html_escaped_push(s: Seq<char>, c: char)
    ensures
        html_escaped(s.push(c)) == html_escaped(s) + html_escape_char(c),
    decreases s.len(),
{
    if s.len() == 0 {
        assert(s.push(c).drop_first() =~= Seq::<char>::empty());
        assert(s.push(c)[0] == c);
        assert(html_escaped(Seq::<char>::empty()) =~= Seq::<char>::empty());
        assert(s =~= Seq::<char>::empty());
        assert(html_escape_char(c) + Seq::<char>::empty() =~= html_escape_char(c));
        assert(Seq::<char>::empty() + html_escape_char(c) =~= html_escape_char(c));
    } else {
        lemma_html_escaped_push(s.drop_first(), c);
        assert(s.push(c).drop_first() =~= s.drop_first().push(c));
        assert(html_escape_char(s[0]) + (html_escaped(s.drop_first()) + html_escape_char(c)) =~= (
        html_escape_char(s[0]) + html_escaped(s.drop_first())) + html_escape_char(c));
        assert(s.push(c)[0] == s[0]);
    }
}

/// HTML-escapes a text for safe interpolation into markup.
pub fn escape_html(s: &str) -> (r: String)
    ensures
        r@ == html_escaped(s@),
{
    let n = s.unicode_len();
    let mut out = String::new();
    let mut i: usize = 0;
    while i < n
        invariant
            i <= n,
            n == s@.len(),
            out@ == html_escaped(s@.take(i as int)),
        decreases n - i,
    {
        let c = s.get_char(i);
        if c == '&' {
            out.append("&amp;");
        } else if c == '<' {
            out.append("&lt;");
        } else if c == '>' {
            out.append("&gt;");
        } else if c == '"' {
            out.append("&quot;");
        } else {
            push_char(&mut out, c);
        }
        proof {
            lemma_html_escaped_push(s@.take(i as int), s@[i as int]);
            assert(s@.take(i + 1 as int) =~= s@.take(i as int).push(s@[i as int]));
        }
        i = i + 1;
    }
    proof {
        assert(s@.take(n as int) =~= s@);
    }
    out
}

/// A name for what std's `str::to_lowercase` returns: the lowercase form
/// of a text, a function of its characters alone.
pub uninterp spec fn lower_of(s: Seq<char>) -> Seq<char>;

/// Relies on std's `str::to_lowercase`: the result depends on the
/// characters of the input alone.
#[verifier::external_body]
pub(crate) fn to_lower(s: &str) -> (r: String)
    ensures
        r@ == lower_of(s@),
{
    s.to_lowercase()
}

/// The decimal digit character for a value below ten.
pub open spec fn dec_digit(d: int) -> char {
    if d == 0 {
        '0'
    } else if d == 1 {
        '1'
    } else if d == 2 {
        '2'
    } else if d == 3 {
        '3'
    } else if d == 4 {
        '4'
    } else if d == 5 {
        '5'
    } else if d == 6 {
        '6'
    } else if d == 7 {
        '7'
    } else if d == 8 {
        '8'
    } else {
        '9'
    }
}

fn dec_digit_char(d: u8) -> (c: char)
    requires
        d < 10,
    ensures
        c == dec_digit(d as int),
{
    if d == 0 {
        '0'
    } else if d == 1 {
        '1'
    } else if d == 2 {
        '2'
    } else if d == 3 {
        '3'
    } else if d == 4 {
        '4'
    } else if d == 5 {
        '5'
    } else if d == 6 {
        '6'
    } else if d == 7 {
        '7'
    } else if d == 8 {
        '8'
    } else {
        '9'
    }
}

/// A value below one hundred as two decimal digits.
pub open spec fn pad2(n: int) -> Seq<char> {
    seq![dec_digit(n / 10), dec_digit(n % 10)]
}

/// A value below ten thousand as four decimal digits.
pub open spec fn pad4(n: int) -> Seq<char> {
    seq![
        dec_digit(n / 1000),
        dec_digit((n / 100) % 10),
        dec_digit((n / 10) % 10),
        dec_digit(n % 10),
    ]
}

pub(crate) fn push_pad2(out: &mut String, n: u8)
    requires
        n < 100,
    ensures
        final(out)@ == old(out)@ + pad2(n as int),
{
    push_char(out, dec_digit_char(n / 10));
    push_char(out, dec_digit_char(n % 10));
    proof {
        assert(old(out)@ + seq![dec_digit(n as int / 10)] + seq![dec_digit(n as int % 10)] =~= old(
            out,
        )@ + pad2(n as int));
    }
}

pub(crate) fn push_pad4(out: &mut String, n: u16)
    requires
        n < 10000,
    ensures
        final(out)@ == old(out)@ + pad4(n as int),
{
    push_char(out, dec_digit_char((n / 1000) as u8));
    push_char(out, dec_digit_char(((n / 100) % 10) as u8));
    push_char(out, dec_digit_char(((n / 10) % 10) as u8));
    push_char(out, dec_digit_char((n % 10) as u8));
    proof {
        assert(old(out)@ + seq![dec_digit(n as int / 1000)] + seq![dec_digit((n as int / 100) % 10)]
            + seq![dec_digit((n as int / 10) % 10)] + seq![dec_digit(n as int % 10)] =~= old(out)@
            + pad4(n as int));
    }
}

/// The text with every underscore replaced by a space.
pub open spec fn underscored(s: Seq<char>) -> Seq<char> {
    Seq::new(
        s.len(),
        |i: int|
            if s[i] == '_' {
                ' '
            } else {
                s[i]
            },
    )
}

/// Replaces every underscore with a space.
pub fn replace_underscores(s: &str) -> (r: String)
    ensures
        r@ == underscored(s@),
{
    let n = s.unicode_len();
    let mut out = String::new();
    let mut i: usize = 0;
    while i < n
        invariant
            i <= n,
            n == s@.len(),
            out@ =~= underscored(s@).take(i as int),
        decreases n - i,
    {
        let c = s.get_char(i);
        if c == '_' {
            push_char(&mut out, ' ');
        } else {
            push_char(&mut out, c);
        }
        proof {
            assert(out@ =~= underscored(s@).take(i + 1 as int));
        }
        i = i + 1;
    }
    proof {
        assert(underscored(s@).take(n as int) =~= underscored(s@));
    }
    out
}

/// Whether `p` is a prefix of `s`.
pub open spec fn has_prefix(s: Seq<char>, p: Seq<char>) -> bool {
    p.len() <= s.len() && s.subrange(0, p.len() as int) == p
}

/// Decides whether `p` is a prefix of `s`.
pub fn str_has_prefix(s: &str, p: &str) -> (b: bool)
    ensures
        b == has_prefix(s@, p@),
{
    let sn = s.unicode_len();
    let pn = p.unicode_len();
    if pn > sn {
        return false;
    }
    let mut i: usize = 0;
    while i < pn
        invariant
            i <= pn,
            pn == p@.len(),
            sn == s@.len(),
            pn <= sn,
            forall|j: int| 0 <= j < i ==> s@[j] == p@[j],
        decreases pn - i,
    {
        if s.get_char(i) != p.get_char(i) {
            proof {
                if has_prefix(s@, p@) {
                    assert(s@.subrange(0, pn as int)[i as int] == p@[i as int]);
                }
            }
            return false;
        }
        i = i + 1;
    }
    proof {
        assert(s@.subrange(0, pn as int) =~= p@);
    }
    true
}

/// The marker token that a display name may carry to ask for a verified
/// badge; it is stripped from the rendered name.
pub open spec fn verified_marker() -> Seq<char> {
    seq![':', 'v', 'e', 'r', 'i', 'f', 'i', 'e', 'd', ':']
}

/// The text with every occurrence of the verified marker removed,
/// scanning left to right without overlap.
pub open spec fn marker_stripped(s: Seq<char>) -> Seq<char>
    decreases s.len(),
{
    if has_prefix(s, verified_marker()) {
        marker_stripped(s.skip(verified_marker().len() as int))
    } else if s.len() == 0 {
        Seq::empty()
    } else {
        seq![s[0]] + marker_stripped(s.drop_first())
    }
}

fn marker_at(s: &str, i: usize, n: usize) -> (b: bool)
    requires
        i < n,
        n == s@.len(),
    ensures
        b == has_prefix(s@.skip(i as int), verified_marker()),
{
    if n - i < 10 {
        proof {
            assert(s@.skip(i as int).len() < verified_marker().len());
        }
        return false;
    }
    let b = s.get_char(i) == ':' && s.get_char(i + 1) == 'v' && s.get_char(i + 2) == 'e'
        && s.get_char(i + 3) == 'r' && s.get_char(i + 4) == 'i' && s.get_char(i + 5) == 'f'
        && s.get_char(i + 6) == 'i' && s.get_char(i + 7) == 'e' && s.get_char(i + 8) == 'd'
        && s.get_char(i + 9) == ':';
    proof {
        let t = s@.skip(i as int);
        if b {
            assert(t.subrange(0, verified_marker().len() as int) =~= verified_marker());
        }
        if has_prefix(t, verified_marker()) {
            assert(forall|j: int|
                0 <= j < 10 ==> t[j] == #[trigger] t.subrange(0, 10)[j] == verified_marker()[j]);
            assert(s@[i as int] == ':' && s@[i + 1 as int] == 'v' && s@[i + 2 as int] == 'e' && s@[i
                + 3 as int] == 'r' && s@[i + 4 as int] == 'i' && s@[i + 5 as int] == 'f' && s@[i
                + 6 as int] == 'i' && s@[i + 7 as int] == 'e' && s@[i + 8 as int] == 'd' && s@[i
                + 9 as int] == ':');
        }
    }
    b
}

/// Removes every occurrence of the verified marker from a display name.
pub fn strip_verified(s: &str) -> (r: String)
    ensures
        r@ == marker_stripped(s@),
{
    let n = s.unicode_len();
    let mut out = String::new();
    let mut i: usize = 0;
    proof {
        assert(s@.skip(0) =~= s@);
        assert(Seq::<char>::empty() + marker_stripped(s@) =~= marker_stripped(s@));
    }
    while i < n
        invariant
            i <= n,
            n == s@.len(),
            marker_stripped(s@) == out@ + marker_stripped(s@.skip(i as int)),
        decreases n - i,
    {
        if marker_at(s, i, n) {
            proof {
                assert(s@.skip(i as int).skip(verified_marker().len() as int) =~= s@.skip(
                    i + 10 as int,
                ));
            }
            i = i + 10;
        } else {
            let c = s.get_char(i);
            push_char(&mut out, c);
            proof {
                let t = s@.skip(i as int);
                assert(t[0] == s@[i as int]);
                assert(t.drop_first() =~= s@.skip(i + 1 as int));
                assert(out@ + (seq![s@[i as int]] + marker_stripped(s@.skip(i + 1 as int))) =~= (
                out@ + seq![s@[i as int]]) + marker_stripped(s@.skip(i + 1 as int)));
            }
            i = i + 1;
        }
    }
    proof {
        assert(s@.skip(n as int) =~= Seq::<char>::empty());
        assert(!has_prefix(Seq::<char>::empty(), verified_marker()));
        assert(marker_stripped(Seq::<char>::empty()) == Seq::<char>::empty());
        assert(out@ + Seq::<char>::empty() =~= out@);
    }
    out
}

} // verus!
