//! The JSON request body: string escaping and the rendering of a
//! [`RequestDescriptor`] into the object text
//! `{"prompt":…,"model":…,"temperature":…,"max_tokens":…}`.

use vstd::prelude::*;

use crate::args::{DescView, RequestDescriptor};
use crate::numbers::{dec_rep, render_usize};

verus! {

/// The hexadecimal digit character for `d` (meaningful for `d < 16`).
pub open spec fn hex_digit(d: nat) -> char {
    if d == 0 {
        '0'
    } else if d == 1 {
        '1'
    } else if d == 2 {
        '2'
    } else if d == 3 {
        '3'
    } else if d == 4 {
        '4'
    } else if d == 5 {
        '5'
    } else if d == 6 {
        '6'
    } else if d == 7 {
        '7'
    } else if d == 8 {
        '8'
    } else if d == 9 {
        '9'
    } else if d == 10 {
        'a'
    } else if d == 11 {
        'b'
    } else if d == 12 {
        'c'
    } else if d == 13 {
        'd'
    } else if d == 14 {
        'e'
    } else {
        'f'
    }
}

/// What a character contributes to a JSON string literal: quote and
/// backslash are escaped, a control character takes the `\u00XY` form,
/// every other character stands as itself.
pub open spec fn escape_char(c: char) -> Seq<char> {
    if c == '"' {
        "\\\""@
    } else if c == '\\' {
        "\\\\"@
    } else if (c as u32) < 32 {
        "\\u00"@ + seq![hex_digit((c as u32 / 16) as nat), hex_digit((c as u32 % 16) as nat)]
    } else {
        seq![c]
    }
}

/// The inside of a JSON string literal for `s`: each character escaped.
pub open spec fn escape_string(s: Seq<char>) -> Seq<char>
    decreases s.len(),
{
    if s.len() == 0 {
        Seq::empty()
    } else {
        escape_char(s[0]) + escape_string(s.skip(1))
    }
}

/// A JSON string literal for `s`: the escaped characters in quotes.
pub open spec fn quoted(s: Seq<char>) -> Seq<char> {
    "\""@ + escape_string(s) + "\""@
}

/// Escaping distributes over concatenation.
pub proof fn lemma_escape_append(a: Seq<char>, b: Seq<char>)
    ensures
        escape_string(a + b) == escape_string(a) + escape_string(b),
    decreases a.len(),
{
    if a.len() == 0 {
        assert(a + b =~= b);
        assert(escape_string(a) + escape_string(b) =~= escape_string(b));
    } else {
        assert((a + b)[0] == a[0]);
        assert((a + b).skip(1) =~= a.skip(1) + b);
        lemma_escape_append(a.skip(1), b);
        assert(escape_char(a[0]) + (escape_string(a.skip(1)) + escape_string(b)) =~= (escape_char(
            a[0],
        ) + escape_string(a.skip(1))) + escape_string(b));
    }
}

/// The hexadecimal digit character for `d`.
fn hex_char(d: u32) -> (r: char)
    requires
        d < 16,
    ensures
        r == hex_digit(d as nat),
{
    if d == 0 {
        '0'
    } else if d == 1 {
        '1'
    } else if d == 2 {
        '2'
    } else if d == 3 {
        '3'
    } else if d == 4 {
        '4'
    } else if d == 5 {
        '5'
    } else if d == 6 {
        '6'
    } else if d == 7 {
        '7'
    } else if d == 8 {
        '8'
    } else if d == 9 {
        '9'
    } else if d == 10 {
        'a'
    } else if d == 11 {
        'b'
    } else if d == 12 {
        'c'
    } else if d == 13 {
        'd'
    } else if d == 14 {
        'e'
    } else {
        'f'
    }
}

/// Relies on `String::push`: appends exactly the one character.
#[verifier::external_body]
fn push_char(s: &mut String, c: char)
    ensures
        final(s)@ == old(s)@ + seq![c],
{
    s.push(c);
}

/// Appends the escaped form of `s` to `out`.
fn escape_into(out: &mut String, s: &str)
    ensures
        final(out)@ == old(out)@ + escape_string(s@),
{
    let n = s.unicode_len();
    let mut i: usize = 0;
    while i < n
        invariant
            0 <= i <= n,
            n == s@.len(),
            out@ == old(out)@ + escape_string(s@.take(i as int)),
        decreases n - i,
    {
        let c = s.get_char(i);
        proof {
            assert(s@.take(i + 1) =~= s@.take(i as int) + seq![c]);
            lemma_escape_append(s@.take(i as int), seq![c]);
            assert(seq![c].skip(1) =~= Seq::<char>::empty());
            assert(escape_string(Seq::<char>::empty()) == Seq::<char>::empty());
            assert(escape_string(seq![c]) =~= escape_char(c));
        }
        let v = c as u32;
        if c == '"' {
            out.append("\\\"");
        } else if c == '\\' {
            out.append("\\\\");
        } else if v < 32 {
            out.append("\\u00");
            push_char(out, hex_char(v / 16));
            push_char(out, hex_char(v % 16));
        } else {
            push_char(out, c);
        }
        proof {
            assert(out@ =~= old(out)@ + escape_string(s@.take(i + 1)));
        }
        i += 1;
    }
    proof {
        assert(s@.take(n as int) =~= s@);
    }
}

/// Appends a JSON string literal for `s` to `out`.
fn append_quoted(out: &mut String, s: &str)
    ensures
        final(out)@ == old(out)@ + quoted(s@),
{
    out.append("\"");
    escape_into(out, s);
    out.append("\"");
    proof {
        assert(out@ =~= old(out)@ + quoted(s@));
    }
}

/// The canonical JSON request body for `d`: an object with the keys
/// `prompt`, `model`, `temperature` and `max_tokens`, in that order, the
/// two texts as escaped string literals, the temperature text and the
/// decimal form of `max_tokens` standing bare.
pub open spec fn body_text(d: DescView) -> Seq<char> {
    "{\"prompt\":"@ + quoted(d.prompt) + ",\"model\":"@ + quoted(d.model) + ",\"temperature\":"@
        + d.temperature + ",\"max_tokens\":"@ + dec_rep(d.max_tokens) + "}"@
}

/// Renders the JSON request body for `d`.
pub fn render_body(d: &RequestDescriptor) -> (r: String)
    ensures
        r@ == body_text(d@),
{
    let mut out = String::from_str("{\"prompt\":");
    append_quoted(&mut out, d.prompt.as_str());
    out.append(",\"model\":");
    append_quoted(&mut out, d.model.as_str());
    out.append(",\"temperature\":");
    out.append(d.temperature.as_str());
    out.append(",\"max_tokens\":");
    let digits = render_usize(d.max_tokens);
    out.append(digits.as_str());
    out.append("}");
    proof {
        assert(out@ =~= body_text(d@));
    }
    out
}

} // verus!
