//! JSON encoding of the result record: the wire payload delivered to the
//! remote endpoint, built and proved character by character.
//!
//! Strings are escaped as JSON requires: quote, backslash and the common
//! control characters get two-character escapes, any other control
//! character a `\u00XX` escape; everything else passes through unchanged.

use crate::record::{ResultModel, TestResult};
use vstd::prelude::*;
use vstd::string::*;

verus! {

/// The lower-case hexadecimal digit for `n`.
pub open spec fn hex_digit(n: int) -> char
    recommends
        0 <= n < 16,
{
    if n == 0 {
        '0'
    } else if n == 1 {
        '1'
    } else if n == 2 {
        '2'
    } else if n == 3 {
        '3'
    } else if n == 4 {
        '4'
    } else if n == 5 {
        '5'
    } else if n == 6 {
        '6'
    } else if n == 7 {
        '7'
    } else if n == 8 {
        '8'
    } else if n == 9 {
        '9'
    } else if n == 10 {
        'a'
    } else if n == 11 {
        'b'
    } else if n == 12 {
        'c'
    } else if n == 13 {
        'd'
    } else if n == 14 {
        'e'
    } else {
        'f'
    }
}

/// The decimal digits of `n`, most significant first.
pub open spec fn dec_digits(n: int) -> Seq<char>
    recommends
        n >= 0,
    decreases n,
{
    if n < 10 {
        seq![hex_digit(n)]
    } else {
        dec_digits(n / 10) + seq![hex_digit(n % 10)]
    }
}

/// The JSON escape of one character.
pub open spec fn json_escape_char(c: char) -> Seq<char> {
    if c == '"' {
        seq!['\\', '"']
    } else if c == '\\' {
        seq!['\\', '\\']
    } else if c == '\n' {
        seq!['\\', 'n']
    } else if c == '\r' {
        seq!['\\', 'r']
    } else if c == '\t' {
        seq!['\\', 't']
    } else if (c as u32) < 32 {
        seq!['\\', 'u', '0', '0', hex_digit(((c as u32) / 16) as int), hex_digit(
            ((c as u32) % 16) as int,
        )]
    } else {
        seq![c]
    }
}

/// The JSON escape of a whole character sequence.
pub open spec fn json_escaped(s: Seq<char>) -> Seq<char>
    decreases s.len(),
{
    if s.len() == 0 {
        Seq::<char>::empty()
    } else {
        json_escaped(s.drop_last()) + json_escape_char(s.last())
    }
}

/// `s` escaped and wrapped in double quotes: a JSON string literal.
pub open spec fn json_quoted(s: Seq<char>) -> Seq<char> {
    seq!['"'] + json_escaped(s) + seq!['"']
}

/// A JSON boolean literal.
pub open spec fn json_bool(b: bool) -> Seq<char> {
    if b {
        "true"@
    } else {
        "false"@
    }
}

/// The comma-separated JSON string literals for `names`, without brackets.
pub open spec fn json_quoted_list(names: Seq<Seq<char>>) -> Seq<char>
    decreases names.len(),
{
    if names.len() == 0 {
        Seq::<char>::empty()
    } else if names.len() == 1 {
        json_quoted(names[0])
    } else {
        json_quoted_list(names.drop_last()) + seq![','] + json_quoted(names.last())
    }
}

/// A JSON array of string literals.
pub open spec fn json_array(names: Seq<Seq<char>>) -> Seq<char> {
    seq!['['] + json_quoted_list(names) + seq![']']
}

/// The complete JSON encoding of a result record, with its fields in the
/// fixed wire order.
pub open spec fn json_of_result(r: ResultModel) -> Seq<char> {
    "{\"build\":"@ + json_bool(r.build.succeeded) + ",\"build_stdout\":"@ + json_quoted(
        r.build.stdout,
    ) + ",\"build_stderr\":"@ + json_quoted(r.build.stderr) + ",\"test\":"@ + json_bool(
        r.test.succeeded,
    ) + ",\"test_stdout\":"@ + json_quoted(r.test.stdout) + ",\"test_stderr\":"@ + json_quoted(
        r.test.stderr,
    ) + ",\"features\":"@ + json_array(r.features) + "}"@
}

/// The one-character string holding the lower-case hexadecimal digit `n`.
fn hex_digit_str(n: u32) -> (r: &'static str)
    requires
        n < 16,
    ensures
        r@ == seq![hex_digit(n as int)],
{
    let r: &'static str = if n == 0 {
        "0"
    } else if n == 1 {
        "1"
    } else if n == 2 {
        "2"
    } else if n == 3 {
        "3"
    } else if n == 4 {
        "4"
    } else if n == 5 {
        "5"
    } else if n == 6 {
        "6"
    } else if n == 7 {
        "7"
    } else if n == 8 {
        "8"
    } else if n == 9 {
        "9"
    } else if n == 10 {
        "a"
    } else if n == 11 {
        "b"
    } else if n == 12 {
        "c"
    } else if n == 13 {
        "d"
    } else if n == 14 {
        "e"
    } else {
        "f"
    };
    proof {
        reveal_strlit("0");
        reveal_strlit("1");
        reveal_strlit("2");
        reveal_strlit("3");
        reveal_strlit("4");
        reveal_strlit("5");
        reveal_strlit("6");
        reveal_strlit("7");
        reveal_strlit("8");
        reveal_strlit("9");
        reveal_strlit("a");
        reveal_strlit("b");
        reveal_strlit("c");
        reveal_strlit("d");
        reveal_strlit("e");
        reveal_strlit("f");
        assert(r@ =~= seq![hex_digit(n as int)]);
    }
    r
}

/// Appends the decimal digits of `n` to `out`.
pub fn append_dec(out: &mut String, n: u16)
    ensures
        final(out)@ == old(out)@ + dec_digits(n as int),
    decreases n,
{
    if n < 10 {
        out.append(hex_digit_str(n as u32));
    } else {
        append_dec(out, n / 10);
        out.append(hex_digit_str((n % 10) as u32));
    }
}

/// Appends the JSON escape of every character of `s` to `out`.
fn append_escaped(out: &mut String, s: &str)
    ensures
        final(out)@ == old(out)@ + json_escaped(s@),
{
    let len = s.unicode_len();
    let mut i: usize = 0;
    proof {
        assert(s@.subrange(0, 0) =~= Seq::<char>::empty());
    }
    while i < len
        invariant
            0 <= i <= len,
            len == s@.len(),
            out@ == old(out)@ + json_escaped(s@.subrange(0, i as int)),
        decreases len - i,
    {
        let c = s.get_char(i);
        if c == '"' {
            out.append("\\\"");
            proof {
                reveal_strlit("\\\"");
                assert("\\\""@ =~= json_escape_char(c));
            }
        } else if c == '\\' {
            out.append("\\\\");
            proof {
                reveal_strlit("\\\\");
                assert("\\\\"@ =~= json_escape_char(c));
            }
        } else if c == '\n' {
            out.append("\\n");
            proof {
                reveal_strlit("\\n");
                assert("\\n"@ =~= json_escape_char(c));
            }
        } else if c == '\r' {
            out.append("\\r");
            proof {
                reveal_strlit("\\r");
                assert("\\r"@ =~= json_escape_char(c));
            }
        } else if c == '\t' {
            out.append("\\t");
            proof {
                reveal_strlit("\\t");
                assert("\\t"@ =~= json_escape_char(c));
            }
        } else {
            let code = c as u32;
            if code < 32 {
                out.append("\\u00");
                out.append(hex_digit_str(code / 16));
                out.append(hex_digit_str(code % 16));
                proof {
                    reveal_strlit("\\u00");
                    assert("\\u00"@ + seq![hex_digit((code / 16) as int)] + seq![hex_digit(
                        (code % 16) as int,
                    )] =~= json_escape_char(c));
                }
            } else {
                let piece = s.substring_char(i, i + 1);
                out.append(piece);
                proof {
                    assert(piece@ =~= seq![c]);
                    assert(seq![c] =~= json_escape_char(c));
                }
            }
        }
        proof {
            let pre = s@.subrange(0, i as int);
            let post = s@.subrange(0, (i + 1) as int);
            assert(post.drop_last() =~= pre);
            assert(post.last() == s@[i as int]);
            assert(out@ =~= old(out)@ + json_escaped(post));
        }
        i = i + 1;
    }
    proof {
        assert(s@.subrange(0, s@.len() as int) =~= s@);
    }
}

/// Appends `s` as a JSON string literal (escaped, in double quotes).
fn append_quoted(out: &mut String, s: &str)
    ensures
        final(out)@ == old(out)@ + json_quoted(s@),
{
    out.append("\"");
    append_escaped(out, s);
    out.append("\"");
    proof {
        reveal_strlit("\"");
        assert("\""@ =~= seq!['"']);
        assert(out@ =~= old(out)@ + json_quoted(s@));
    }
}

/// Appends a JSON boolean literal.
fn append_bool(out: &mut String, b: bool)
    ensures
        final(out)@ == old(out)@ + json_bool(b),
{
    if b {
        out.append("true");
    } else {
        out.append("false");
    }
}

/// Appends the JSON array of the string values of `names`.
fn append_array(out: &mut String, names: &Vec<String>)
    ensures
        final(out)@ == old(out)@ + json_array(names.deep_view()),
{
    out.append("[");
    proof {
        reveal_strlit("[");
        assert("["@ =~= seq!['[']);
        assert(names.deep_view().subrange(0, 0) =~= Seq::<Seq<char>>::empty());
    }
    let mut i: usize = 0;
    while i < names.len()
        invariant
            0 <= i <= names.len(),
            names.deep_view().len() == names@.len(),
            forall|j: int| 0 <= j < names@.len() ==> names.deep_view()[j] == #[trigger] names@[j]@,
            out@ == old(out)@ + seq!['['] + json_quoted_list(
                names.deep_view().subrange(0, i as int),
            ),
        decreases names.len() - i,
    {
        if i > 0 {
            out.append(",");
        }
        append_quoted(out, names[i].as_str());
        proof {
            reveal_strlit(",");
            let pre = names.deep_view().subrange(0, i as int);
            let post = names.deep_view().subrange(0, (i + 1) as int);
            assert(post.drop_last() =~= pre);
            assert(post.last() == names.deep_view()[i as int]);
            if i == 0 {
                assert(json_quoted_list(post) =~= json_quoted(post[0]));
            }
            assert(out@ =~= old(out)@ + seq!['['] + json_quoted_list(post));
        }
        i = i + 1;
    }
    out.append("]");
    proof {
        reveal_strlit("]");
        assert("]"@ =~= seq![']']);
        assert(names.deep_view().subrange(0, names.deep_view().len() as int)
            =~= names.deep_view());
        assert(out@ =~= old(out)@ + json_array(names.deep_view()));
    }
}

/// The JSON wire payload for a finished result record.
pub fn encode_result(r: &TestResult) -> (s: String)
    ensures
        s@ == json_of_result(r@),
{
    let mut out = String::new();
    out.append("{\"build\":");
    append_bool(&mut out, r.build.succeeded);
    out.append(",\"build_stdout\":");
    append_quoted(&mut out, r.build.stdout.as_str());
    out.append(",\"build_stderr\":");
    append_quoted(&mut out, r.build.stderr.as_str());
    out.append(",\"test\":");
    append_bool(&mut out, r.test.succeeded);
    out.append(",\"test_stdout\":");
    append_quoted(&mut out, r.test.stdout.as_str());
    out.append(",\"test_stderr\":");
    append_quoted(&mut out, r.test.stderr.as_str());
    out.append(",\"features\":");
    append_array(&mut out, &r.features);
    out.append("}");
    proof {
        assert(out@ =~= json_of_result(r@));
    }
    out
}

} // verus!
