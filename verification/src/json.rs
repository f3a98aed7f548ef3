//! The wire encoding of a scan response: a JSON object whose single field
//! `virus` is `null` for a benign verdict and an array of infection-type
//! identifiers, in backend order, for a malignant one. The encoder is exact:
//! its result is pinned character by character by the spec functions here,
//! including the escaping JSON requires inside string literals.

use vstd::prelude::*;
use vstd::string::StrSliceExecFns;
use vstd::string::StringExecFns;
use crate::verdict::ScanResponse;

verus! {

/// The lower-case hexadecimal digit for a value below sixteen.
pub open spec fn hex_digit(n: u32) -> char {
    if n == 0 {
        '0'
    } else if n == 1 {
        '1'
    } else if n == 2 {
        '2'
    } else if n == 3 {
        '3'
    } else if n == 4 {
        '4'
    } else if n == 5 {
        '5'
    } else if n == 6 {
        '6'
    } else if n == 7 {
        '7'
    } else if n == 8 {
        '8'
    } else if n == 9 {
        '9'
    } else if n == 10 {
        'a'
    } else if n == 11 {
        'b'
    } else if n == 12 {
        'c'
    } else if n == 13 {
        'd'
    } else if n == 14 {
        'e'
    } else {
        'f'
    }
}

/// How one character appears inside a JSON string literal: quote and
/// backslash get a backslash escape, the named control characters their
/// short escapes, every other control character a `\u00XX` escape, and
/// everything else stands for itself.
pub open spec fn escaped_char(c: char) -> Seq<char> {
    if c == '"' {
        seq!['\\', '"']
    } else if c == '\\' {
        seq!['\\', '\\']
    } else if c == '\u{8}' {
        seq!['\\', 'b']
    } else if c == '\u{c}' {
        seq!['\\', 'f']
    } else if c == '\n' {
        seq!['\\', 'n']
    } else if c == '\r' {
        seq!['\\', 'r']
    } else if c == '\t' {
        seq!['\\', 't']
    } else if (c as u32) < 0x20 {
        seq!['\\', 'u', '0', '0', hex_digit((c as u32) / 16), hex_digit((c as u32) % 16)]
    } else {
        seq![c]
    }
}

/// The body of a JSON string literal: each character escaped in order.
pub open spec fn escaped(s: Seq<char>) -> Seq<char>
    decreases s.len(),
{
    if s.len() == 0 {
        Seq::<char>::empty()
    } else {
        escaped(s.drop_last()) + escaped_char(s.last())
    }
}

/// A JSON string literal: the escaped characters between double quotes.
pub open spec fn quoted(s: Seq<char>) -> Seq<char> {
    seq!['"'] + escaped(s) + seq!['"']
}

/// The members of a JSON array of string literals, comma-separated,
/// in the order given.
pub open spec fn joined_items(l: Seq<Seq<char>>) -> Seq<char>
    decreases l.len(),
{
    if l.len() == 0 {
        Seq::<char>::empty()
    } else if l.len() == 1 {
        quoted(l[0])
    } else {
        joined_items(l.drop_last()) + seq![','] + quoted(l.last())
    }
}

/// The full wire body for a given `virus` field: `null` when the field is
/// absent, otherwise the identifier array in order.
pub open spec fn response_json(virus: Option<Seq<Seq<char>>>) -> Seq<char> {
    match virus {
        None => "{\"virus\":null}"@,
        Some(l) => "{\"virus\":["@ + joined_items(l) + "]}"@,
    }
}

/// Relies on `String::push` of std: appends exactly the given character
/// to the end of the string.
#[verifier::external_body]
fn push_char(out: &mut String, c: char)
    ensures
        final(out)@ == old(out)@.push(c),
{
    out.push(c);
}

/// Appends the digit character for a value below sixteen.
fn push_hex_digit(out: &mut String, n: u32)
    requires
        n < 16,
    ensures
        final(out)@ == old(out)@.push(hex_digit(n)),
{
    if n == 0 {
        push_char(out, '0')
    } else if n == 1 {
        push_char(out, '1')
    } else if n == 2 {
        push_char(out, '2')
    } else if n == 3 {
        push_char(out, '3')
    } else if n == 4 {
        push_char(out, '4')
    } else if n == 5 {
        push_char(out, '5')
    } else if n == 6 {
        push_char(out, '6')
    } else if n == 7 {
        push_char(out, '7')
    } else if n == 8 {
        push_char(out, '8')
    } else if n == 9 {
        push_char(out, '9')
    } else if n == 10 {
        push_char(out, 'a')
    } else if n == 11 {
        push_char(out, 'b')
    } else if n == 12 {
        push_char(out, 'c')
    } else if n == 13 {
        push_char(out, 'd')
    } else if n == 14 {
        push_char(out, 'e')
    } else {
        push_char(out, 'f')
    }
}

/// Appends the escape of one character.
fn push_escaped_char(out: &mut String, c: char)
    ensures
        final(out)@ == old(out)@ + escaped_char(c),
{
    if c == '"' {
        push_char(out, '\\');
        push_char(out, '"');
    } else if c == '\\' {
        push_char(out, '\\');
        push_char(out, '\\');
    } else if c == '\u{8}' {
        push_char(out, '\\');
        push_char(out, 'b');
    } else if c == '\u{c}' {
        push_char(out, '\\');
        push_char(out, 'f');
    } else if c == '\n' {
        push_char(out, '\\');
        push_char(out, 'n');
    } else if c == '\r' {
        push_char(out, '\\');
        push_char(out, 'r');
    } else if c == '\t' {
        push_char(out, '\\');
        push_char(out, 't');
    } else if (c as u32) < 0x20 {
        push_char(out, '\\');
        push_char(out, 'u');
        push_char(out, '0');
        push_char(out, '0');
        push_hex_digit(out, (c as u32) / 16);
        push_hex_digit(out, (c as u32) % 16);
    } else {
        push_char(out, c);
    }
    proof {
        assert(out@ =~= old(out)@ + escaped_char(c));
    }
}

/// Appends the escaped body of a JSON string literal for `s`.
fn push_escaped(out: &mut String, s: &str)
    ensures
        final(out)@ == old(out)@ + escaped(s@),
{
    let n = s.unicode_len();
    let mut i: usize = 0;
    proof {
        assert(out@ =~= old(out)@ + escaped(s@.subrange(0, 0)));
    }
    while i < n
        invariant
            i <= n,
            n == s@.len(),
            out@ == old(out)@ + escaped(s@.subrange(0, i as int)),
        decreases n - i,
    {
        let c = s.get_char(i);
        push_escaped_char(out, c);
        proof {
            let pre = s@.subrange(0, i as int);
            let post = s@.subrange(0, i + 1 as int);
            assert(post.drop_last() =~= pre);
            assert(post.last() == c);
            assert(out@ =~= old(out)@ + escaped(post));
        }
        i = i + 1;
    }
    proof {
        assert(s@.subrange(0, n as int) =~= s@);
    }
}

/// Appends a whole JSON string literal for `s`.
fn push_quoted(out: &mut String, s: &str)
    ensures
        final(out)@ == old(out)@ + quoted(s@),
{
    push_char(out, '"');
    push_escaped(out, s);
    push_char(out, '"');
    proof {
        assert(out@ =~= old(out)@ + quoted(s@));
    }
}

/// Encodes a scan response as its exact JSON wire body.
pub fn encode_response(r: &ScanResponse) -> (out: String)
    ensures
        out@ == response_json(r.virus_view()),
{
    match &r.virus {
        None => {
            let mut out = String::new();
            out.append("{\"virus\":null}");
            out
        },
        Some(types) => {
            let ghost vs = types@.map_values(|s: String| s@);
            let mut out = String::new();
            out.append("{\"virus\":[");
            let mut j: usize = 0;
            proof {
                assert(out@ =~= "{\"virus\":["@ + joined_items(vs.subrange(0, 0)));
            }
            while j < types.len()
                invariant
                    j <= types.len(),
                    vs == types@.map_values(|s: String| s@),
                    vs.len() == types@.len(),
                    out@ == "{\"virus\":["@ + joined_items(vs.subrange(0, j as int)),
                decreases types.len() - j,
            {
                if j > 0 {
                    push_char(&mut out, ',');
                }
                push_quoted(&mut out, (&types[j]).as_str());
                proof {
                    let pre = vs.subrange(0, j as int);
                    let post = vs.subrange(0, j + 1 as int);
                    assert(post.drop_last() =~= pre);
                    assert(post.last() == vs[j as int]);
                    assert(vs[j as int] == types@[j as int]@);
                    assert(out@ =~= "{\"virus\":["@ + joined_items(post));
                }
                j = j + 1;
            }
            out.append("]}");
            proof {
                assert(vs.subrange(0, types@.len() as int) =~= vs);
                assert(out@ =~= response_json(r.virus_view()));
            }
            out
        },
    }
}

} // verus!
