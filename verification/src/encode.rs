//! Verified construction of the JSON bodies this client sends.
//!
//! A request body is a flat JSON object whose values are strings or
//! booleans. The object is rendered directly: keys in the order given,
//! a key present exactly when the caller supplied the field, string
//! values escaped per the JSON grammar.

use vstd::prelude::*;

use crate::text::spec_bool_string;

verus! {

/// A value of one field of an outgoing request object.
#[derive(Clone, Debug)]
pub enum FieldValue {
    Text(String),
    Flag(bool),
}

/// The character for one lowercase hexadecimal digit.
pub open spec fn spec_hex_digit(d: int) -> char {
    if d == 0 {
        '0'
    } else if d == 1 {
        '1'
    } else if d == 2 {
        '2'
    } else if d == 3 {
        '3'
    } else if d == 4 {
        '4'
    } else if d == 5 {
        '5'
    } else if d == 6 {
        '6'
    } else if d == 7 {
        '7'
    } else if d == 8 {
        '8'
    } else if d == 9 {
        '9'
    } else if d == 10 {
        'a'
    } else if d == 11 {
        'b'
    } else if d == 12 {
        'c'
    } else if d == 13 {
        'd'
    } else if d == 14 {
        'e'
    } else {
        'f'
    }
}

/// How one character appears inside a JSON string literal: quote and
/// backslash escaped, common control characters by their short escapes,
/// other control characters as `\u00XX`, everything else verbatim.
pub open spec fn spec_escape_char(c: char) -> Seq<char> {
    if c == '"' {
        "\\\""@
    } else if c == '\\' {
        "\\\\"@
    } else if c == '\n' {
        "\\n"@
    } else if c == '\r' {
        "\\r"@
    } else if c == '\t' {
        "\\t"@
    } else if (c as u32) < 0x20 {
        "\\u00"@ + seq![
            spec_hex_digit((c as u32) as int / 16),
            spec_hex_digit((c as u32) as int % 16),
        ]
    } else {
        seq![c]
    }
}

/// The body of a JSON string literal for the given characters.
pub open spec fn spec_escape_string(s: Seq<char>) -> Seq<char>
    decreases s.len(),
{
    if s.len() == 0 {
        Seq::empty()
    } else {
        spec_escape_string(s.drop_last()) + spec_escape_char(s.last())
    }
}

fn hex_digit_str(d: u32) -> (r: &'static str)
    requires
        d < 16,
    ensures
        r@ == seq![spec_hex_digit(d as int)],
{
    proof {
        reveal_strlit("0");
        reveal_strlit("1");
        reveal_strlit("2");
        reveal_strlit("3");
        reveal_strlit("4");
        reveal_strlit("5");
        reveal_strlit("6");
        reveal_strlit("7");
        reveal_strlit("8");
        reveal_strlit("9");
        reveal_strlit("a");
        reveal_strlit("b");
        reveal_strlit("c");
        reveal_strlit("d");
        reveal_strlit("e");
        reveal_strlit("f");
    }
    let r = if d == 0 {
        "0"
    } else if d == 1 {
        "1"
    } else if d == 2 {
        "2"
    } else if d == 3 {
        "3"
    } else if d == 4 {
        "4"
    } else if d == 5 {
        "5"
    } else if d == 6 {
        "6"
    } else if d == 7 {
        "7"
    } else if d == 8 {
        "8"
    } else if d == 9 {
        "9"
    } else if d == 10 {
        "a"
    } else if d == 11 {
        "b"
    } else if d == 12 {
        "c"
    } else if d == 13 {
        "d"
    } else if d == 14 {
        "e"
    } else {
        "f"
    };
    proof {
        assert(r@ =~= seq![spec_hex_digit(d as int)]);
    }
    r
}

/// Appends the escaped form of `s` to `out`.
fn append_escaped(out: &mut String, s: &str)
    ensures
        final(out)@ == old(out)@ + spec_escape_string(s@),
{
    let len = s.unicode_len();
    let mut i: usize = 0;
    while i < len
        invariant
            len == s@.len(),
            i <= len,
            out@ == old(out)@ + spec_escape_string(s@.take(i as int)),
        decreases len - i,
    {
        let c = s.get_char(i);
        proof {
            assert(s@.take(i as int + 1).drop_last() =~= s@.take(i as int));
            assert(s@.take(i as int + 1).last() == c);
        }
        if c == '"' {
            out.append("\\\"");
        } else if c == '\\' {
            out.append("\\\\");
        } else if c == '\n' {
            out.append("\\n");
        } else if c == '\r' {
            out.append("\\r");
        } else if c == '\t' {
            out.append("\\t");
        } else if (c as u32) < 0x20 {
            let code = c as u32;
            out.append("\\u00");
            out.append(hex_digit_str(code / 16));
            out.append(hex_digit_str(code % 16));
            proof {
                assert(seq![spec_hex_digit(code as int / 16)] + seq![
                    spec_hex_digit(code as int % 16),
                ] =~= seq![spec_hex_digit(code as int / 16), spec_hex_digit(code as int % 16)]);
            }
        } else {
            let piece = s.substring_char(i, i + 1);
            proof {
                assert(piece@ =~= seq![c]);
            }
            out.append(piece);
        }
        proof {
            assert(out@ =~= old(out)@ + spec_escape_string(s@.take(i as int + 1)));
        }
        i = i + 1;
    }
    proof {
        assert(s@.take(len as int) =~= s@);
    }
}

/// A JSON string literal (quotes included) holding `s`.
pub open spec fn spec_string_literal(s: Seq<char>) -> Seq<char> {
    "\""@ + spec_escape_string(s) + "\""@
}

/// The rendering of one field value.
pub open spec fn spec_encode_value(v: FieldValue) -> Seq<char> {
    match v {
        FieldValue::Text(s) => spec_string_literal(s@),
        FieldValue::Flag(b) => spec_bool_string(b),
    }
}

/// The rendering of one `"key":value` member.
pub open spec fn spec_encode_entry(e: (Seq<char>, FieldValue)) -> Seq<char> {
    spec_string_literal(e.0) + ":"@ + spec_encode_value(e.1)
}

/// The comma-separated members of an object, in order.
pub open spec fn spec_encode_entries(s: Seq<(Seq<char>, FieldValue)>) -> Seq<char>
    decreases s.len(),
{
    if s.len() == 0 {
        Seq::empty()
    } else if s.len() == 1 {
        spec_encode_entry(s[0])
    } else {
        spec_encode_entries(s.drop_last()) + ","@ + spec_encode_entry(s.last())
    }
}

/// A whole JSON object over the given members.
pub open spec fn spec_encode_object(s: Seq<(Seq<char>, FieldValue)>) -> Seq<char> {
    "{"@ + spec_encode_entries(s) + "}"@
}

/// The keys and values of a field list, as sequences of characters.
pub open spec fn entries_view(s: Seq<(String, FieldValue)>) -> Seq<(Seq<char>, FieldValue)> {
    s.map_values(|e: (String, FieldValue)| (e.0@, e.1))
}

/// Whether a field list carries the given key.
pub open spec fn spec_has_key(s: Seq<(Seq<char>, FieldValue)>, key: Seq<char>) -> bool {
    exists|i: int| 0 <= i < s.len() && s[i].0 == key
}

/// A key is in a concatenation of field lists exactly when it is in one
/// of the two parts.
pub proof fn lemma_has_key_concat(
    a: Seq<(Seq<char>, FieldValue)>,
    b: Seq<(Seq<char>, FieldValue)>,
    key: Seq<char>,
)
    ensures
        spec_has_key(a + b, key) <==> (spec_has_key(a, key) || spec_has_key(b, key)),
{
    if spec_has_key(a + b, key) {
        let i = choose|i: int| 0 <= i < (a + b).len() && (a + b)[i].0 == key;
        if i < a.len() {
            assert(a[i].0 == key);
        } else {
            assert(b[i - a.len()].0 == key);
        }
    }
    if spec_has_key(a, key) {
        let i = choose|i: int| 0 <= i < a.len() && a[i].0 == key;
        assert((a + b)[i].0 == key);
    }
    if spec_has_key(b, key) {
        let i = choose|i: int| 0 <= i < b.len() && b[i].0 == key;
        assert((a + b)[a.len() + i].0 == key);
    }
}

/// Renders a flat JSON object from the given fields, in order.
pub fn encode_object(entries: &Vec<(String, FieldValue)>) -> (r: String)
    ensures
        r@ == spec_encode_object(entries_view(entries@)),
{
    proof {
        reveal_strlit("{");
        reveal_strlit("}");
        reveal_strlit(",");
        reveal_strlit("\"");
        reveal_strlit("\":");
        reveal_strlit(":");
    }
    let ghost all = entries_view(entries@);
    let mut out = String::from_str("{");
    let n = entries.len();
    let mut i: usize = 0;
    while i < n
        invariant
            n == entries@.len(),
            all == entries_view(entries@),
            all.len() == n,
            i <= n,
            out@ == "{"@ + spec_encode_entries(all.take(i as int)),
        decreases n - i,
    {
        proof {
            reveal_strlit("{");
            reveal_strlit(",");
            reveal_strlit("\"");
            reveal_strlit("\":");
            reveal_strlit(":");
        }
        let ghost o0 = out@;
        let ghost sep: Seq<char> = if i == 0 {
            Seq::empty()
        } else {
            ","@
        };
        if i > 0 {
            out.append(",");
        }
        out.append("\"");
        append_escaped(&mut out, entries[i].0.as_str());
        out.append("\":");
        proof {
            assert(out@ =~= o0 + sep + spec_string_literal(entries@[i as int].0@) + ":"@);
        }
        let ghost o1 = out@;
        match &entries[i].1 {
            FieldValue::Text(s) => {
                out.append("\"");
                append_escaped(&mut out, s.as_str());
                out.append("\"");
            },
            FieldValue::Flag(b) => {
                if *b {
                    out.append("true");
                } else {
                    out.append("false");
                }
            },
        }
        proof {
            assert(out@ =~= o1 + spec_encode_value(entries@[i as int].1));
            let prev = all.take(i as int);
            let cur = all.take(i as int + 1);
            assert(all[i as int] == (entries@[i as int].0@, entries@[i as int].1));
            assert(cur.drop_last() =~= prev);
            assert(cur.last() == all[i as int]);
            if i == 0 {
                assert(spec_encode_entries(cur) == spec_encode_entry(all[0]));
            } else {
                assert(spec_encode_entries(cur) == spec_encode_entries(prev) + ","@
                    + spec_encode_entry(all[i as int]));
            }
            assert(out@ =~= "{"@ + spec_encode_entries(cur));
        }
        i = i + 1;
    }
    proof {
        assert(all.take(n as int) =~= all);
    }
    out.append("}");
    proof {
        assert(out@ =~= spec_encode_object(all));
    }
    out
}

} // verus!
