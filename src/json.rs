//! Compact JSON text: decimal numbers, quoted strings, objects.

use vstd::prelude::*;

verus! {

/// The sixteen lower-case hexadecimal digit characters, in order.
pub open spec fn hex_chars() -> Seq<char> {
    seq!['0', '1', '2', '3', '4', '5', '6', '7', '8', '9', 'a', 'b', 'c', 'd', 'e', 'f']
}

/// How one character stands inside a JSON string: the quote and the
/// backslash behind a backslash, five control characters by their short
/// escapes, the other characters below U+0020 as `\u00XX`, all else as is.
pub open spec fn escaped_char(c: char) -> Seq<char> {
    if c == '"' {
        seq!['\\', '"']
    } else if c == '\\' {
        seq!['\\', '\\']
    } else if c == '\u{8}' {
        seq!['\\', 'b']
    } else if c == '\t' {
        seq!['\\', 't']
    } else if c == '\n' {
        seq!['\\', 'n']
    } else if c == '\u{c}' {
        seq!['\\', 'f']
    } else if c == '\r' {
        seq!['\\', 'r']
    } else if (c as int) < 0x20 {
        seq!['\\', 'u', '0', '0', hex_chars()[(c as int) / 16], hex_chars()[(c as int) % 16]]
    } else {
        seq![c]
    }
}

/// The characters of `s`, each escaped.
pub open spec fn escaped(s: Seq<char>) -> Seq<char>
    decreases s.len(),
{
    if s.len() == 0 {
        Seq::empty()
    } else {
        escaped(s.drop_last()) + escaped_char(s.last())
    }
}

/// The JSON string holding the characters `s`: its escaped characters
/// between two quotes.
pub open spec fn json_string_of(s: Seq<char>) -> Seq<char> {
    seq!['"'] + escaped(s) + seq!['"']
}

/// Characters that stand as they are inside a JSON string.
pub open spec fn plain(s: Seq<char>) -> bool {
    forall|i: int| 0 <= i < s.len() ==> (s[i] as int) >= 0x20 && s[i] != '"' && s[i] != '\\'
}

/// Text without quotes, backslashes or control characters is written
/// between quotes unchanged.
pub proof fn lemma_plain_string(s: Seq<char>)
    requires
        plain(s),
    ensures
        escaped(s) == s,
        json_string_of(s) == seq!['"'] + s + seq!['"'],
    decreases s.len(),
{
    if s.len() > 0 {
        lemma_plain_string(s.drop_last());
        assert(s.drop_last().push(s.last()) =~= s);
    }
}

/// Relies on serde_json's compact `Display` of `Value::String`, which writes
/// the string between quotes with the escapes of `escaped_char` (its
/// `format_escaped_str_contents` and the `ESCAPE` table).
#[verifier::external_body]
fn quote_json(s: &str) -> (r: String)
    ensures
        r@ == json_string_of(s@),
{
    serde_json::Value::String(s.to_string()).to_string()
}

/// The ten decimal digit characters, in order.
pub open spec fn digit_chars() -> Seq<char> {
    seq!['0', '1', '2', '3', '4', '5', '6', '7', '8', '9']
}

/// Decimal text of a natural number, without leading zeros.
pub open spec fn decimal(n: nat) -> Seq<char>
    decreases n,
{
    if n < 10 {
        seq![digit_chars()[n as int]]
    } else {
        decimal(n / 10).push(digit_chars()[(n % 10) as int])
    }
}

/// Decimal text of an integer, with a leading `-` when negative.
pub open spec fn signed_decimal(i: int) -> Seq<char> {
    if i < 0 {
        seq!['-'] + decimal((-i) as nat)
    } else {
        decimal(i as nat)
    }
}

/// The text `true` or `false`.
pub open spec fn bool_text(b: bool) -> Seq<char> {
    if b {
        seq!['t', 'r', 'u', 'e']
    } else {
        seq!['f', 'a', 'l', 's', 'e']
    }
}

/// The text `null`.
pub open spec fn null_text() -> Seq<char> {
    seq!['n', 'u', 'l', 'l']
}

/// One object member: the quoted key, a colon and the value's text.
pub open spec fn member(key: Seq<char>, value: Seq<char>) -> Seq<char> {
    json_string_of(key) + seq![':'] + value
}

/// Member texts joined by commas.
pub open spec fn joined(ms: Seq<Seq<char>>) -> Seq<char>
    decreases ms.len(),
{
    if ms.len() == 0 {
        Seq::empty()
    } else if ms.len() == 1 {
        ms[0]
    } else {
        joined(ms.drop_last()) + seq![','] + ms.last()
    }
}

/// A JSON object made of the given member texts, in order.
pub open spec fn object(ms: Seq<Seq<char>>) -> Seq<char> {
    seq!['{'] + joined(ms) + seq!['}']
}

fn digit_str(d: u64) -> (r: &'static str)
    requires
        d < 10,
    ensures
        r@ == seq![digit_chars()[d as int]],
{
    let r = if d == 0 {
        "0"
    } else if d == 1 {
        "1"
    } else if d == 2 {
        "2"
    } else if d == 3 {
        "3"
    } else if d == 4 {
        "4"
    } else if d == 5 {
        "5"
    } else if d == 6 {
        "6"
    } else if d == 7 {
        "7"
    } else if d == 8 {
        "8"
    } else {
        "9"
    };
    proof {
        reveal_strlit("0");
        reveal_strlit("1");
        reveal_strlit("2");
        reveal_strlit("3");
        reveal_strlit("4");
        reveal_strlit("5");
        reveal_strlit("6");
        reveal_strlit("7");
        reveal_strlit("8");
        reveal_strlit("9");
    }
    assert(r@ =~= seq![digit_chars()[d as int]]);
    r
}

/// Appends the decimal text of `n` to `out`.
pub fn push_unsigned(out: &mut String, n: u64)
    ensures
        final(out)@ == old(out)@ + decimal(n as nat),
    decreases n,
{
    if n >= 10 {
        push_unsigned(out, n / 10);
    }
    out.append(digit_str(n % 10));
    proof {
        if n >= 10 {
            assert(decimal(n as nat) == decimal((n / 10) as nat).push(digit_chars()[(n % 10) as int]));
        }
    }
    assert(out@ =~= old(out)@ + decimal(n as nat));
}

/// Appends the decimal text of `i` to `out`, with a `-` when it is negative.
pub fn push_signed(out: &mut String, i: i64)
    ensures
        final(out)@ == old(out)@ + signed_decimal(i as int),
{
    if i < 0 {
        out.append("-");
        proof {
            reveal_strlit("-");
        }
        let m: u64 = (-(i + 1)) as u64 + 1;
        push_unsigned(out, m);
        assert(out@ =~= old(out)@ + signed_decimal(i as int));
    } else {
        push_unsigned(out, i as u64);
    }
}

/// Appends the quoted JSON text of `s` to `out`.
pub fn push_string(out: &mut String, s: &str)
    ensures
        final(out)@ == old(out)@ + json_string_of(s@),
{
    let q = quote_json(s);
    out.append(q.as_str());
}

/// Appends `true` or `false` to `out`.
pub fn push_bool(out: &mut String, b: bool)
    ensures
        final(out)@ == old(out)@ + bool_text(b),
{
    if b {
        out.append("true");
        proof {
            reveal_strlit("true");
        }
    } else {
        out.append("false");
        proof {
            reveal_strlit("false");
        }
    }
    assert(out@ =~= old(out)@ + bool_text(b));
}

/// Appends `null` to `out`.
pub fn push_null(out: &mut String)
    ensures
        final(out)@ == old(out)@ + null_text(),
{
    out.append("null");
    proof {
        reveal_strlit("null");
    }
    assert(out@ =~= old(out)@ + null_text());
}


/// Writes the object whose member texts are `ms`, in order.
pub fn write_object(ms: &Vec<String>) -> (r: String)
    ensures
        r@ == object(ms@.map_values(|m: String| m@)),
{
    let ghost texts = ms@.map_values(|m: String| m@);
    let mut out = String::new();
    out.append("{");
    proof {
        reveal_strlit("{");
    }
    let mut i: usize = 0;
    while i < ms.len()
        invariant
            i <= ms.len(),
            texts == ms@.map_values(|m: String| m@),
            out@ == seq!['{'] + joined(texts.take(i as int)),
        decreases ms.len() - i,
    {
        if i > 0 {
            out.append(",");
            proof {
                reveal_strlit(",");
            }
        }
        out.append(ms[i].as_str());
        proof {
            let t = texts.take(i as int + 1);
            assert(t.drop_last() =~= texts.take(i as int));
            assert(t.last() == texts[i as int]);
            if i == 0 {
                assert(joined(texts.take(0)) =~= Seq::empty());
            }
        }
        i = i + 1;
        assert(out@ =~= seq!['{'] + joined(texts.take(i as int)));
    }
    out.append("}");
    proof {
        reveal_strlit("}");
        assert(texts.take(ms.len() as int) =~= texts);
    }
    assert(out@ =~= object(texts));
    out
}

} // verus!
