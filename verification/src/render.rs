//! Verified JSON text framing for output records.
//!
//! Every record is serialized by this module into one line of JSON.
//! The specification functions below define the exact character
//! sequence produced, so serialization is total: no record can fail to
//! serialize.

use vstd::prelude::*;
use vstd::string::StrSliceExecFns;

use crate::fields::{EntryView, FieldMap, FieldValue, FieldValueView};
use crate::strutil::{join_comma, lemma_join_comma_snoc, push_str_chars};

verus! {

/// The lower-case hexadecimal digit for `n` in `0..16`.
pub open spec fn hex_digit(n: int) -> char {
    if n == 0 {
        '0'
    } else if n == 1 {
        '1'
    } else if n == 2 {
        '2'
    } else if n == 3 {
        '3'
    } else if n == 4 {
        '4'
    } else if n == 5 {
        '5'
    } else if n == 6 {
        '6'
    } else if n == 7 {
        '7'
    } else if n == 8 {
        '8'
    } else if n == 9 {
        '9'
    } else if n == 10 {
        'a'
    } else if n == 11 {
        'b'
    } else if n == 12 {
        'c'
    } else if n == 13 {
        'd'
    } else if n == 14 {
        'e'
    } else {
        'f'
    }
}

/// The decimal digit for `n` in `0..10`.
pub open spec fn digit_char(n: int) -> char {
    hex_digit(
        if 0 <= n < 10 {
            n
        } else {
            0
        },
    )
}

/// The JSON string-escape expansion of one character: quotes,
/// backslashes and control characters are escaped, everything else
/// stands for itself.
pub open spec fn escape_char(c: char) -> Seq<char> {
    if c == '"' {
        "\\\""@
    } else if c == '\\' {
        "\\\\"@
    } else if c == '\u{8}' {
        "\\b"@
    } else if c == '\u{c}' {
        "\\f"@
    } else if c == '\n' {
        "\\n"@
    } else if c == '\r' {
        "\\r"@
    } else if c == '\t' {
        "\\t"@
    } else if (c as u32) < 32 {
        "\\u00"@ + seq![hex_digit((c as u32) as int / 16), hex_digit((c as u32) as int % 16)]
    } else {
        seq![c]
    }
}

/// The JSON string-escape expansion of a whole string.
pub open spec fn spec_escape(s: Seq<char>) -> Seq<char>
    decreases s.len(),
{
    if s.len() == 0 {
        Seq::empty()
    } else {
        escape_char(s[0]) + spec_escape(s.drop_first())
    }
}

/// Escaping one more character appends its expansion.
pub proof fn lemma_escape_snoc(s: Seq<char>, c: char)
    ensures
        spec_escape(s.push(c)) == spec_escape(s) + escape_char(c),
    decreases s.len(),
{
    let pushed = s.push(c);
    if s.len() == 0 {
        assert(pushed.drop_first() =~= s);
        assert(spec_escape(s) =~= Seq::<char>::empty());
        assert(spec_escape(pushed) =~= spec_escape(s) + escape_char(c));
    } else {
        assert(pushed.drop_first() =~= s.drop_first().push(c));
        lemma_escape_snoc(s.drop_first(), c);
        assert(spec_escape(pushed) =~= spec_escape(s) + escape_char(c));
    }
}

/// The decimal digits of `n`, most significant first, without sign or
/// leading zeros (`0` itself is `"0"`).
pub open spec fn dec_digits(n: nat) -> Seq<char>
    decreases n,
{
    if n < 10 {
        seq![digit_char(n as int)]
    } else {
        dec_digits(n / 10).push(digit_char((n % 10) as int))
    }
}

/// The decimal rendering of `n`, with a leading minus sign when `n` is
/// negative.
pub open spec fn int_digits(n: int) -> Seq<char> {
    if n < 0 {
        seq!['-'] + dec_digits((-n) as nat)
    } else {
        dec_digits(n as nat)
    }
}

/// The JSON rendering of one field value.
pub open spec fn spec_render_value(v: FieldValueView) -> Seq<char> {
    match v {
        FieldValueView::Null => "null"@,
        FieldValueView::Bool(b) => if b {
            "true"@
        } else {
            "false"@
        },
        FieldValueView::Int(n) => int_digits(n),
        FieldValueView::Str(s) => "\""@ + spec_escape(s) + "\""@,
    }
}

/// The JSON rendering of one `"key":value` member.
pub open spec fn spec_render_entry(e: EntryView) -> Seq<char> {
    "\""@ + spec_escape(e.0) + "\""@ + ":"@ + spec_render_value(e.1)
}

/// The JSON object holding the given members, in order.
pub open spec fn spec_render_fields(entries: Seq<EntryView>) -> Seq<char> {
    "{"@ + join_comma(entries.map_values(|e: EntryView| spec_render_entry(e))) + "}"@
}

fn hex_digit_exec(n: u32) -> (c: char)
    requires
        n < 16,
    ensures
        c == hex_digit(n as int),
{
    if n == 0 {
        '0'
    } else if n == 1 {
        '1'
    } else if n == 2 {
        '2'
    } else if n == 3 {
        '3'
    } else if n == 4 {
        '4'
    } else if n == 5 {
        '5'
    } else if n == 6 {
        '6'
    } else if n == 7 {
        '7'
    } else if n == 8 {
        '8'
    } else if n == 9 {
        '9'
    } else if n == 10 {
        'a'
    } else if n == 11 {
        'b'
    } else if n == 12 {
        'c'
    } else if n == 13 {
        'd'
    } else if n == 14 {
        'e'
    } else {
        'f'
    }
}

/// Append the escape expansion of one character.
fn push_escaped_char(out: &mut Vec<char>, c: char)
    ensures
        final(out)@ == old(out)@ + escape_char(c),
{
    if c == '"' {
        push_str_chars(out, "\\\"");
    } else if c == '\\' {
        push_str_chars(out, "\\\\");
    } else if c == '\u{8}' {
        push_str_chars(out, "\\b");
    } else if c == '\u{c}' {
        push_str_chars(out, "\\f");
    } else if c == '\n' {
        push_str_chars(out, "\\n");
    } else if c == '\r' {
        push_str_chars(out, "\\r");
    } else if c == '\t' {
        push_str_chars(out, "\\t");
    } else if (c as u32) < 32 {
        let code = c as u32;
        push_str_chars(out, "\\u00");
        out.push(hex_digit_exec(code / 16));
        out.push(hex_digit_exec(code % 16));
        proof {
            assert(out@ =~= old(out)@ + escape_char(c));
        }
    } else {
        out.push(c);
        proof {
            assert(out@ =~= old(out)@ + escape_char(c));
        }
    }
}

/// Append the escaped form of `s`.
pub(crate) fn push_escaped(out: &mut Vec<char>, s: &str)
    ensures
        final(out)@ == old(out)@ + spec_escape(s@),
{
    let n = s.unicode_len();
    proof {
        assert(out@ =~= old(out)@ + spec_escape(s@.subrange(0, 0)));
    }
    for i in 0..n
        invariant
            n == s@.len(),
            out@ == old(out)@ + spec_escape(s@.subrange(0, i as int)),
    {
        let c = s.get_char(i);
        push_escaped_char(out, c);
        proof {
            lemma_escape_snoc(s@.subrange(0, i as int), c);
            assert(s@.subrange(0, i + 1) =~= s@.subrange(0, i as int).push(c));
            assert(out@ =~= old(out)@ + spec_escape(s@.subrange(0, i + 1)));
        }
    }
    proof {
        assert(s@.subrange(0, n as int) =~= s@);
    }
}

/// Append a quoted, escaped JSON string.
pub(crate) fn push_json_string(out: &mut Vec<char>, s: &str)
    ensures
        final(out)@ == old(out)@ + "\""@ + spec_escape(s@) + "\""@,
{
    push_str_chars(out, "\"");
    push_escaped(out, s);
    push_str_chars(out, "\"");
}

/// Append the decimal digits of `n`.
pub(crate) fn push_u64_dec(out: &mut Vec<char>, n: u64)
    ensures
        final(out)@ == old(out)@ + dec_digits(n as nat),
    decreases n,
{
    if n >= 10 {
        push_u64_dec(out, n / 10);
    }
    let d = n % 10;
    out.push(hex_digit_exec(d as u32));
    proof {
        assert(out@ =~= old(out)@ + dec_digits(n as nat));
    }
}

/// Append the decimal rendering of `n`, sign included.
pub(crate) fn push_i64_dec(out: &mut Vec<char>, n: i64)
    ensures
        final(out)@ == old(out)@ + int_digits(n as int),
{
    if n >= 0 {
        push_u64_dec(out, n as u64);
    } else {
        out.push('-');
        let m: u64 = ((-(n + 1)) as u64) + 1;
        proof {
            assert(m as nat == (-(n as int)) as nat);
        }
        push_u64_dec(out, m);
        proof {
            assert(out@ =~= old(out)@ + int_digits(n as int));
        }
    }
}

/// Append the JSON rendering of one field value.
fn push_value(out: &mut Vec<char>, v: &FieldValue)
    ensures
        final(out)@ == old(out)@ + spec_render_value(v@),
{
    match v {
        FieldValue::Null => push_str_chars(out, "null"),
        FieldValue::Bool(b) => {
            if *b {
                push_str_chars(out, "true");
            } else {
                push_str_chars(out, "false");
            }
        },
        FieldValue::Int(i) => push_i64_dec(out, *i),
        FieldValue::UInt(u) => push_u64_dec(out, *u),
        FieldValue::Str(s) => {
            push_json_string(out, s.as_str());
            proof {
                assert(out@ =~= old(out)@ + spec_render_value(v@));
            }
        },
    }
}

/// Append the JSON object rendering of a field map.
pub(crate) fn push_fields(out: &mut Vec<char>, m: &FieldMap)
    ensures
        final(out)@ == old(out)@ + spec_render_fields(m@),
{
    let ghost rendered = m@.map_values(|e: EntryView| spec_render_entry(e));
    push_str_chars(out, "{");
    proof {
        assert(out@ =~= old(out)@ + "{"@ + join_comma(rendered.subrange(0, 0)));
    }
    let n = m.len();
    for i in 0..n
        invariant
            n == m@.len(),
            rendered == m@.map_values(|e: EntryView| spec_render_entry(e)),
            out@ == old(out)@ + "{"@ + join_comma(rendered.subrange(0, i as int)),
    {
        if i > 0 {
            push_str_chars(out, ",");
        }
        let entry = m.entry_at(i);
        push_json_string(out, entry.0.as_str());
        push_str_chars(out, ":");
        push_value(out, &entry.1);
        proof {
            let prefix = rendered.subrange(0, i as int);
            let this = spec_render_entry(m@[i as int]);
            if i > 0 {
                lemma_join_comma_snoc(prefix, this);
            }
            assert(rendered.subrange(0, i + 1) =~= prefix.push(this));
            assert(out@ =~= old(out)@ + "{"@ + join_comma(rendered.subrange(0, i + 1)));
        }
    }
    push_str_chars(out, "}");
    proof {
        assert(rendered.subrange(0, n as int) =~= rendered);
        assert(out@ =~= old(out)@ + spec_render_fields(m@));
    }
}

} // verus!
