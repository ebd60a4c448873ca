//! The JSON text under which an access token carries its claims: ids as
//! hyphenated UUIDs, instants as whole seconds since the Unix epoch.
use crate::config::{all_decimal_digits, decimal_value};
use crate::encoding::{hex_digit, uuid_hyphenated, uuid_to_string};
use crate::instant::NANOS_PER_SECOND;
use crate::model::Claims;
use vstd::prelude::*;

verus! {

/// A character inside a JSON string, as `serde_json` writes it: `"` and
/// `\` behind a backslash, backspace, tab, line feed, form feed and carriage
/// return as `\b`, `\t`, `\n`, `\f`, `\r`, other control characters as
/// `\u00XX` in lower-case hex, every other character as it is.
pub open spec fn json_char(c: char) -> Seq<char> {
    if c == '"' {
        seq!['\\', '"']
    } else if c == '\\' {
        seq!['\\', '\\']
    } else if c == '\x08' {
        seq!['\\', 'b']
    } else if c == '\t' {
        seq!['\\', 't']
    } else if c == '\n' {
        seq!['\\', 'n']
    } else if c == '\x0c' {
        seq!['\\', 'f']
    } else if c == '\r' {
        seq!['\\', 'r']
    } else if (c as u32) < 0x20 {
        seq!['\\', 'u', '0', '0', hex_digit((c as u32) as int / 16), hex_digit((c as u32) as int % 16)]
    } else {
        seq![c]
    }
}

/// The characters of a text, each as it stands inside a JSON string.
pub open spec fn json_escaped(s: Seq<char>) -> Seq<char>
    decreases s.len(),
{
    if s.len() == 0 {
        Seq::empty()
    } else {
        json_escaped(s.drop_last()) + json_char(s.last())
    }
}

/// A text as a JSON string literal.
pub open spec fn json_string(s: Seq<char>) -> Seq<char> {
    seq!['"'] + json_escaped(s) + seq!['"']
}

/// The decimal digits of a natural number, most significant first.
pub open spec fn decimal_digits(n: nat) -> Seq<char>
    decreases n,
{
    if n < 10 {
        seq![hex_digit(n as int)]
    } else {
        decimal_digits(n / 10) + seq![hex_digit((n % 10) as int)]
    }
}

/// An integer in decimal, with a minus sign when negative.
pub open spec fn decimal_text(n: int) -> Seq<char> {
    if n < 0 {
        seq!['-'] + decimal_digits((-n) as nat)
    } else {
        decimal_digits(n as nat)
    }
}

/// The whole seconds of an instant given in nanoseconds (rounded down).
pub open spec fn whole_seconds(nanos: int) -> int {
    nanos / (NANOS_PER_SECOND as int)
}

/// The claims as JSON:
/// `{"jti":"…","iss":"…","sub":"…","iat":…,"exp":…,"aud":"…","sid":"…","is_admin":…}`.
pub open spec fn claims_text(c: Claims) -> Seq<char> {
    "{\"jti\":"@ + json_string(uuid_hyphenated(c.jti)) + ",\"iss\":"@ + json_string(c.iss@)
        + ",\"sub\":"@ + json_string(uuid_hyphenated(c.sub)) + ",\"iat\":"@ + decimal_text(
        whole_seconds(c.iat as int),
    ) + ",\"exp\":"@ + decimal_text(whole_seconds(c.exp as int)) + ",\"aud\":"@ + json_string(
        c.aud@,
    ) + ",\"sid\":"@ + json_string(uuid_hyphenated(c.sid)) + ",\"is_admin\":"@ + (if c.is_admin {
        "true"@
    } else {
        "false"@
    }) + "}"@
}

/// The hexadecimal digit for `v` as text.
fn digit_text(v: u32) -> (s: &'static str)
    requires
        v < 16,
    ensures
        s@ == seq![hex_digit(v as int)],
{
    proof {
        reveal_strlit("0");
        reveal_strlit("1");
        reveal_strlit("2");
        reveal_strlit("3");
        reveal_strlit("4");
        reveal_strlit("5");
        reveal_strlit("6");
        reveal_strlit("7");
        reveal_strlit("8");
        reveal_strlit("9");
        reveal_strlit("a");
        reveal_strlit("b");
        reveal_strlit("c");
        reveal_strlit("d");
        reveal_strlit("e");
        reveal_strlit("f");
    }
    if v == 0 {
        "0"
    } else if v == 1 {
        "1"
    } else if v == 2 {
        "2"
    } else if v == 3 {
        "3"
    } else if v == 4 {
        "4"
    } else if v == 5 {
        "5"
    } else if v == 6 {
        "6"
    } else if v == 7 {
        "7"
    } else if v == 8 {
        "8"
    } else if v == 9 {
        "9"
    } else if v == 10 {
        "a"
    } else if v == 11 {
        "b"
    } else if v == 12 {
        "c"
    } else if v == 13 {
        "d"
    } else if v == 14 {
        "e"
    } else {
        "f"
    }
}

/// Appends the JSON string literal of `s`.
fn push_json_string(out: &mut String, s: &str)
    ensures
        final(out)@ == old(out)@ + json_string(s@),
{
    proof {
        reveal_strlit("\"");
    }
    let ghost start = out@;
    out.append("\"");
    let n = s.unicode_len();
    let mut i: usize = 0;
    while i < n
        invariant
            n == s@.len(),
            i <= n,
            out@ == start + seq!['"'] + json_escaped(s@.subrange(0, i as int)),
        decreases n - i,
    {
        let c = s.get_char(i);
        proof {
            assert(s@.subrange(0, i + 1).drop_last() =~= s@.subrange(0, i as int));
            assert(s@.subrange(0, i + 1).last() == c);
        }
        let ghost before = out@;
        proof {
            reveal_strlit("\\\"");
            reveal_strlit("\\\\");
            reveal_strlit("\\b");
            reveal_strlit("\\t");
            reveal_strlit("\\n");
            reveal_strlit("\\f");
            reveal_strlit("\\r");
            reveal_strlit("\\u00");
        }
        if c == '"' {
            out.append("\\\"");
            assert(out@ =~= before + json_char(c));
        } else if c == '\\' {
            out.append("\\\\");
            assert(out@ =~= before + json_char(c));
        } else if c == '\x08' {
            out.append("\\b");
            assert(out@ =~= before + json_char(c));
        } else if c == '\t' {
            out.append("\\t");
            assert(out@ =~= before + json_char(c));
        } else if c == '\n' {
            out.append("\\n");
            assert(out@ =~= before + json_char(c));
        } else if c == '\x0c' {
            out.append("\\f");
            assert(out@ =~= before + json_char(c));
        } else if c == '\r' {
            out.append("\\r");
            assert(out@ =~= before + json_char(c));
        } else if (c as u32) < 0x20 {
            out.append("\\u00");
            out.append(digit_text((c as u32) / 16));
            out.append(digit_text((c as u32) % 16));
            assert(out@ =~= before + json_char(c));
        } else {
            out.append(s.substring_char(i, i + 1));
            assert(out@ =~= before + json_char(c));
        }
        i = i + 1;
    }
    assert(s@.subrange(0, n as int) =~= s@);
    out.append("\"");
    assert(out@ =~= start + json_string(s@));
}

/// The decimal digits of `n`.
fn decimal_string(n: u128) -> (s: String)
    ensures
        s@ == decimal_digits(n as nat),
    decreases n,
{
    if n < 10 {
        let mut s = String::new();
        s.append(digit_text(n as u32));
        s
    } else {
        let mut s = decimal_string(n / 10);
        s.append(digit_text((n % 10) as u32));
        s
    }
}

/// Appends the whole seconds of an instant given in nanoseconds, in
/// decimal.
fn push_whole_seconds(out: &mut String, nanos: i128)
    ensures
        final(out)@ == old(out)@ + decimal_text(whole_seconds(nanos as int)),
{
    proof {
        reveal_strlit("-");
    }
    let ns: u128 = 1_000_000_000;
    if nanos >= 0 {
        let secs = (nanos as u128) / ns;
        assert(secs as int == whole_seconds(nanos as int));
        out.append(decimal_string(secs).as_str());
    } else {
        let m: u128 = ((-(nanos + 1)) as u128) + 1;
        assert(m as int == -(nanos as int));
        let q = m / ns;
        let r = m % ns;
        let secs: u128 = if r == 0 {
            q
        } else {
            q + 1
        };
        assert(-(secs as int) == whole_seconds(nanos as int)) by (nonlinear_arith)
            requires
                m as int == -(nanos as int),
                m > 0,
                q as int == m as int / 1_000_000_000,
                r as int == m as int % 1_000_000_000,
                secs as int == if r == 0 {
                    q as int
                } else {
                    q + 1
                },
                whole_seconds(nanos as int) == (nanos as int) / 1_000_000_000,
        ;
        assert(secs > 0) by (nonlinear_arith)
            requires
                m > 0,
                q as int == m as int / 1_000_000_000,
                r as int == m as int % 1_000_000_000,
                secs as int == if r == 0 {
                    q as int
                } else {
                    q + 1
                },
        ;
        out.append("-");
        out.append(decimal_string(secs).as_str());
    }
}

/// The claims as the JSON text an access token carries.
pub fn claims_json(c: &Claims) -> (s: String)
    ensures
        s@ == claims_text(*c),
{
    proof {
        reveal_strlit("{\"jti\":");
        reveal_strlit(",\"iss\":");
        reveal_strlit(",\"sub\":");
        reveal_strlit(",\"iat\":");
        reveal_strlit(",\"exp\":");
        reveal_strlit(",\"aud\":");
        reveal_strlit(",\"sid\":");
        reveal_strlit(",\"is_admin\":");
        reveal_strlit("true");
        reveal_strlit("false");
        reveal_strlit("}");
    }
    let mut s = String::new();
    s.append("{\"jti\":");
    push_json_string(&mut s, uuid_to_string(c.jti).as_str());
    s.append(",\"iss\":");
    push_json_string(&mut s, c.iss.as_str());
    s.append(",\"sub\":");
    push_json_string(&mut s, uuid_to_string(c.sub).as_str());
    s.append(",\"iat\":");
    push_whole_seconds(&mut s, c.iat);
    s.append(",\"exp\":");
    push_whole_seconds(&mut s, c.exp);
    s.append(",\"aud\":");
    push_json_string(&mut s, c.aud.as_str());
    s.append(",\"sid\":");
    push_json_string(&mut s, uuid_to_string(c.sid).as_str());
    s.append(",\"is_admin\":");
    if c.is_admin {
        s.append("true");
    } else {
        s.append("false");
    }
    s.append("}");
    assert(s@ =~= claims_text(*c));
    s
}

/// What a JSON reader makes of an integer numeral: an optional minus sign
/// followed by decimal digits, read in base ten.
pub open spec fn numeral_value(s: Seq<char>) -> int {
    if s.len() > 0 && s[0] == '-' {
        -decimal_value(s.drop_first())
    } else {
        decimal_value(s)
    }
}

/// The numeral written for a natural number is made of decimal digits and
/// reads back, in base ten, as that number.
pub proof fn law_decimal_digits_read_back(n: nat)
    ensures
        all_decimal_digits(decimal_digits(n)),
        decimal_value(decimal_digits(n)) == n,
    decreases n,
{
    let d = decimal_digits(n);
    if n < 10 {
        assert(d.drop_last() =~= Seq::<char>::empty());
        assert(d.last() == hex_digit(n as int));
        assert(d.last() as int == 48 + n);
        assert(decimal_value(d) == decimal_value(d.drop_last()) * 10 + (d.last() as int - '0' as int));
    } else {
        law_decimal_digits_read_back(n / 10);
        let init = decimal_digits(n / 10);
        assert(d.drop_last() =~= init);
        assert(d.last() == hex_digit((n % 10) as int));
        assert(d.last() as int == 48 + n % 10);
        assert(decimal_value(d) == decimal_value(init) * 10 + (d.last() as int - '0' as int));
        assert(n == (n / 10) * 10 + n % 10);
        assert forall|i: int| 0 <= i < d.len() implies '0' <= #[trigger] d[i] && d[i] <= '9' by {
            if i < init.len() {
                assert(d[i] == init[i]);
            }
        }
    }
}

/// The numeral written for any integer reads back as that integer; in
/// particular the `iat` and `exp` a JWT reader takes from `claims_text` are
/// the whole seconds of the claims' instants.
pub proof fn law_decimal_text_reads_back(n: int)
    ensures
        numeral_value(decimal_text(n)) == n,
{
    if n < 0 {
        law_decimal_digits_read_back((-n) as nat);
        let t = decimal_text(n);
        assert(t.drop_first() =~= decimal_digits((-n) as nat));
    } else {
        law_decimal_digits_read_back(n as nat);
        let d = decimal_digits(n as nat);
        assert(d[0] != '-');
    }
}

} // verus!
