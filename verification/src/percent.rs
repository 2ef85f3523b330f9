//! Decimal text for volume percentages.
//!
//! The control plane edits volumes and limits as text. These functions give
//! the exact semantics of that text: what parses as an unsigned byte, what
//! value it denotes, and how a value renders back to text.

use vstd::prelude::*;

verus! {

/// A decimal digit character.
pub open spec fn is_dec_digit(c: char) -> bool {
    '0' <= c && c <= '9'
}

/// The numeric value of a decimal digit character.
pub open spec fn digit_val(c: char) -> nat {
    (c as int - '0' as int) as nat
}

/// Every character of `s` is a decimal digit.
pub open spec fn all_dec_digits(s: Seq<char>) -> bool {
    forall|i: int| 0 <= i < s.len() ==> is_dec_digit(#[trigger] s[i])
}

/// The value of a digit string, most significant digit first.
pub open spec fn dec_val(s: Seq<char>) -> nat
    decreases s.len(),
{
    if s.len() == 0 {
        0
    } else {
        dec_val(s.drop_last()) * 10 + digit_val(s.last())
    }
}

/// The digit part of an integer string: an optional leading `+` is dropped.
pub open spec fn u8_body(s: Seq<char>) -> Seq<char> {
    if s.len() > 0 && s[0] == '+' {
        s.skip(1)
    } else {
        s
    }
}

/// `s` is accepted by `u8` parsing: an optional `+`, then at least one
/// decimal digit, denoting a value that fits in a byte.
pub open spec fn parses_as_u8(s: Seq<char>) -> bool {
    &&& u8_body(s).len() > 0
    &&& all_dec_digits(u8_body(s))
    &&& dec_val(u8_body(s)) <= 255
}

/// The value such a string denotes.
pub open spec fn u8_value(s: Seq<char>) -> nat {
    dec_val(u8_body(s))
}

/// Dropping trailing characters never increases the value of a digit string.
proof fn lemma_dec_val_prefix_le(s: Seq<char>, k: int)
    requires
        0 <= k <= s.len(),
    ensures
        dec_val(s.subrange(0, k)) <= dec_val(s),
    decreases s.len() - k,
{
    if k == s.len() {
        assert(s.subrange(0, k) == s);
    } else {
        lemma_dec_val_prefix_le(s, k + 1);
        let t = s.subrange(0, k + 1);
        assert(t.drop_last() == s.subrange(0, k));
        assert(dec_val(t) == dec_val(t.drop_last()) * 10 + digit_val(t.last()));
        assert(dec_val(t.drop_last()) * 10 >= dec_val(t.drop_last())) by (nonlinear_arith);
    }
}

/// Parse a string as a byte, with the exact acceptance and value of `u8`
/// decimal parsing: an optional `+`, then decimal digits, value at most 255.
pub fn parse_u8_str(s: &str) -> (r: Option<u8>)
    ensures
        r is Some <==> parses_as_u8(s@),
        r is Some ==> r->0 as nat == u8_value(s@),
{
    let n = s.unicode_len();
    let mut i: usize = 0;
    if n > 0 && s.get_char(0) == '+' {
        i = 1;
    }
    let ghost start = i as int;
    let ghost body = u8_body(s@);
    proof {
        assert(body == s@.skip(start));
    }
    if i >= n {
        return None;
    }
    let mut acc: u32 = 0;
    while i < n
        invariant
            0 <= start <= i <= n,
            n == s@.len(),
            0 < body.len(),
            body == u8_body(s@),
            body == s@.skip(start),
            all_dec_digits(body.subrange(0, i - start)),
            acc as nat == dec_val(body.subrange(0, i - start)),
            acc <= 255,
        decreases n - i,
    {
        let c = s.get_char(i);
        let cv = c as u32;
        proof {
            assert(body[i - start] == s@.skip(start)[i - start]);
            assert(s@.skip(start)[i - start] == s@[i as int]);
        }
        if cv < 48 || cv > 57 {
            proof {
                assert(body.len() == n - start);
                assert(!is_dec_digit(body[i - start]));
            }
            return None;
        }
        let d = cv - 48;
        proof {
            assert(is_dec_digit(body[i - start]));
            assert(digit_val(body[i - start]) == d as nat);
        }
        let next = acc * 10 + d;
        proof {
            let p = body.subrange(0, i - start + 1);
            assert(p.drop_last() == body.subrange(0, i - start));
            assert(p.last() == body[i - start]);
            assert(dec_val(p) == next as nat);
        }
        if next > 255 {
            proof {
                lemma_dec_val_prefix_le(body, i - start + 1);
                assert(body.len() == n - start);
                if all_dec_digits(body) {
                    assert(dec_val(body) >= dec_val(body.subrange(0, i - start + 1)));
                }
            }
            return None;
        }
        acc = next;
        i = i + 1;
    }
    proof {
        assert(body.subrange(0, i - start) == body);
    }
    Some(acc as u8)
}

/// The digit character of a value below ten.
pub open spec fn dec_digit_char(d: nat) -> char {
    if d == 0 {
        '0'
    } else if d == 1 {
        '1'
    } else if d == 2 {
        '2'
    } else if d == 3 {
        '3'
    } else if d == 4 {
        '4'
    } else if d == 5 {
        '5'
    } else if d == 6 {
        '6'
    } else if d == 7 {
        '7'
    } else if d == 8 {
        '8'
    } else {
        '9'
    }
}

/// The decimal rendering of a value: no sign, no leading zero except for
/// zero itself. Agrees with how the standard library displays integers.
pub open spec fn dec_seq(v: nat) -> Seq<char>
    decreases v,
{
    if v < 10 {
        seq![dec_digit_char(v)]
    } else {
        dec_seq(v / 10).push(dec_digit_char(v % 10))
    }
}

/// The one-character string of a digit value.
fn dec_digit_str(d: u8) -> (r: &'static str)
    requires
        d < 10,
    ensures
        r@ == seq![dec_digit_char(d as nat)],
{
    proof {
        reveal_strlit("0");
        reveal_strlit("1");
        reveal_strlit("2");
        reveal_strlit("3");
        reveal_strlit("4");
        reveal_strlit("5");
        reveal_strlit("6");
        reveal_strlit("7");
        reveal_strlit("8");
        reveal_strlit("9");
    }
    match d {
        0 => "0",
        1 => "1",
        2 => "2",
        3 => "3",
        4 => "4",
        5 => "5",
        6 => "6",
        7 => "7",
        8 => "8",
        _ => "9",
    }
}

/// Render a byte in decimal, as the standard library would display it.
pub fn u8_to_string(v: u8) -> (s: String)
    ensures
        s@ == dec_seq(v as nat),
{
    if v < 10 {
        String::from_str(dec_digit_str(v))
    } else if v < 100 {
        let mut s = String::from_str(dec_digit_str(v / 10));
        s.append(dec_digit_str(v % 10));
        proof {
            assert(dec_seq(v as nat) == dec_seq(v as nat / 10).push(
                dec_digit_char(v as nat % 10),
            ));
            assert(v as nat / 10 < 10);
        }
        s
    } else {
        let mut s = String::from_str(dec_digit_str(v / 100));
        s.append(dec_digit_str((v / 10) % 10));
        s.append(dec_digit_str(v % 10));
        proof {
            assert(v as nat / 10 / 10 == v as nat / 100) by (nonlinear_arith);
            assert(dec_seq(v as nat) == dec_seq(v as nat / 10).push(
                dec_digit_char(v as nat % 10),
            ));
            assert(dec_seq(v as nat / 10) == dec_seq(v as nat / 10 / 10).push(
                dec_digit_char(v as nat / 10 % 10),
            ));
            assert(v as nat / 100 < 10);
        }
        s
    }
}

/// A rendered value is a plain digit string: non-empty, all digits, no sign,
/// and it denotes the value it was rendered from.
proof fn lemma_dec_seq_props(v: nat)
    ensures
        dec_seq(v).len() > 0,
        all_dec_digits(dec_seq(v)),
        dec_val(dec_seq(v)) == v,
        dec_seq(v)[0] != '+',
    decreases v,
{
    if v < 10 {
        assert(dec_val(dec_seq(v)) == dec_val(Seq::<char>::empty()) * 10 + digit_val(
            dec_digit_char(v),
        )) by {
            assert(dec_seq(v).drop_last() =~= Seq::<char>::empty());
        }
    } else {
        lemma_dec_seq_props(v / 10);
        let s = dec_seq(v);
        assert(s.drop_last() =~= dec_seq(v / 10));
        assert(s.last() == dec_digit_char(v % 10));
        assert(forall|i: int| 0 <= i < s.len() ==> is_dec_digit(#[trigger] s[i])) by {
            assert(forall|i: int|
                0 <= i < s.len() - 1 ==> #[trigger] s[i] == dec_seq(v / 10)[i]);
        }
        assert(s[0] == dec_seq(v / 10)[0]);
    }
}

/// Rendering a byte and parsing it back yields the byte again: the decimal
/// text of a value always parses, and to that same value.
pub proof fn lemma_render_parse_round_trip(v: u8)
    ensures
        parses_as_u8(dec_seq(v as nat)),
        u8_value(dec_seq(v as nat)) == v as nat,
{
    lemma_dec_seq_props(v as nat);
    assert(u8_body(dec_seq(v as nat)) == dec_seq(v as nat));
}

/// A percent input is valid when it parses as a byte no greater than 100.
pub open spec fn spec_percent_input_ok(s: Seq<char>) -> bool {
    parses_as_u8(s) && u8_value(s) <= 100
}

/// Whether `s` is a valid percent: text that parses as a byte at most 100.
pub fn percent_input_ok(s: &str) -> (r: bool)
    ensures
        r == spec_percent_input_ok(s@),
{
    match parse_u8_str(s) {
        Some(v) => v <= 100,
        None => false,
    }
}

} // verus!
