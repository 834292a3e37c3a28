//! The decimal form of a timestamp: its raw value in base 10.
//!
//! Writing gives the digits without sign or leading zero, so each value has
//! one text. Reading takes any non-empty run of decimal digits whose value
//! fits in 64 bits, and gives back the value that was written.

use crate::error::ParseNTP64Error;
use crate::timestamp::NTP64;
use vstd::prelude::*;
use vstd::string::*;

verus! {

/// Whether `c` is one of the ten decimal digits.
pub open spec fn is_digit(c: char) -> bool {
    '0' <= c <= '9'
}

/// The number that the decimal digit `c` stands for.
pub open spec fn digit_value(c: char) -> nat {
    (c as nat - '0' as nat) as nat
}

/// The character that stands for `d`, a number below ten.
pub open spec fn digit_char(d: nat) -> char {
    ('0' as nat + d) as char
}

/// The decimal digits of `n`, most significant first, with no leading zero
/// (`0` itself is the one digit `0`).
pub open spec fn decimal_text(n: nat) -> Seq<char>
    decreases n,
{
    if n < 10 {
        seq![digit_char(n)]
    } else {
        decimal_text(n / 10).push(digit_char(n % 10))
    }
}

/// Whether `text` is a non-empty run of decimal digits.
pub open spec fn is_decimal(text: Seq<char>) -> bool {
    text.len() > 0 && forall|i: int| 0 <= i < text.len() ==> is_digit(#[trigger] text[i])
}

/// The number that a run of decimal digits spells, most significant first.
pub open spec fn decimal_value(text: Seq<char>) -> nat
    decreases text.len(),
{
    if text.len() == 0 {
        0
    } else {
        decimal_value(text.drop_last()) * 10 + digit_value(text.last())
    }
}

/// What reading `text` as a 64-bit decimal comes to: its value where it is a
/// run of digits that spells at most 2^64 - 1, and nothing otherwise.
pub open spec fn decimal_parse(text: Seq<char>) -> Option<u64> {
    if is_decimal(text) && decimal_value(text) <= u64::MAX {
        Some(decimal_value(text) as u64)
    } else {
        None
    }
}

/// The cause given when `text` is refused as a decimal timestamp.
pub open spec fn invalid_decimal_cause(text: Seq<char>) -> Seq<char> {
    "Invalid NTP64 time : '"@ + text + "' (must be a u64)"@
}

/// Written digits are digits, and spell the number they were written from.
pub proof fn lemma_decimal_text_value(n: nat)
    ensures
        is_decimal(decimal_text(n)),
        decimal_value(decimal_text(n)) == n,
    decreases n,
{
    let text = decimal_text(n);
    if n < 10 {
        assert(text.drop_last() =~= Seq::<char>::empty());
        assert(decimal_value(text) == decimal_value(text.drop_last()) * 10 + digit_value(
            text.last(),
        ));
    } else {
        lemma_decimal_text_value(n / 10);
        assert(text.drop_last() =~= decimal_text(n / 10));
    }
}

/// Reading what was written gives back the value: for every raw value `v`,
/// the decimal text of `v` parses, and parses to `v`.
pub proof fn lemma_decimal_round_trip(v: u64)
    ensures
        decimal_parse(decimal_text(v as nat)) == Some(v),
{
    lemma_decimal_text_value(v as nat);
}

/// A prefix of a run of digits spells no more than the whole run.
proof fn lemma_prefix_value_le(text: Seq<char>, k: int)
    requires
        0 <= k <= text.len(),
    ensures
        decimal_value(text.take(k)) <= decimal_value(text),
    decreases text.len() - k,
{
    if k == text.len() {
        assert(text.take(k) =~= text);
    } else {
        lemma_prefix_value_le(text, k + 1);
        assert(text.take(k + 1).drop_last() =~= text.take(k));
    }
}

/// The one-character text of a digit.
fn digit_str(d: u64) -> (r: &'static str)
    requires
        d < 10,
    ensures
        r@ == seq![digit_char(d as nat)],
{
    proof {
        reveal_strlit("0");
        reveal_strlit("1");
        reveal_strlit("2");
        reveal_strlit("3");
        reveal_strlit("4");
        reveal_strlit("5");
        reveal_strlit("6");
        reveal_strlit("7");
        reveal_strlit("8");
        reveal_strlit("9");
    }
    let r = if d == 0 {
        "0"
    } else if d == 1 {
        "1"
    } else if d == 2 {
        "2"
    } else if d == 3 {
        "3"
    } else if d == 4 {
        "4"
    } else if d == 5 {
        "5"
    } else if d == 6 {
        "6"
    } else if d == 7 {
        "7"
    } else if d == 8 {
        "8"
    } else {
        "9"
    };
    assert(r@ =~= seq![digit_char(d as nat)]);
    r
}

/// Appends the decimal digits of `n` to `out`.
fn push_decimal(n: u64, out: &mut String)
    ensures
        final(out)@ == old(out)@ + decimal_text(n as nat),
    decreases n,
{
    if n >= 10 {
        push_decimal(n / 10, out);
    }
    out.append(digit_str(n % 10));
    assert(out@ =~= old(out)@ + decimal_text(n as nat));
}

/// Reads `s` as a decimal number of at most 64 bits.
fn parse_u64(s: &str) -> (r: Option<u64>)
    ensures
        r == decimal_parse(s@),
{
    if !s.is_ascii() {
        return None;
    }
    let bytes = s.as_bytes();
    proof {
        is_ascii_spec_bytes(s);
    }
    let n: usize = bytes.len();
    if n == 0 {
        return None;
    }
    let mut value: u64 = 0;
    let mut i: usize = 0;
    while i < n
        invariant
            0 <= i <= n,
            n == s@.len(),
            n == bytes@.len(),
            is_ascii(s),
            forall|j: int| 0 <= j < n ==> bytes@[j] == s@[j] as u8,
            forall|j: int| 0 <= j < i ==> is_digit(#[trigger] s@[j]),
            value == decimal_value(s@.take(i as int)),
        decreases n - i,
    {
        let b: u8 = bytes[i];
        assert(b == s@[i as int] as u8 && s@[i as int] <= '\u{7f}');
        if b < 48 || b > 57 {
            return None;
        }
        let digit: u64 = (b - 48) as u64;
        proof {
            assert(s@.take(i + 1).drop_last() =~= s@.take(i as int));
            lemma_prefix_value_le(s@, i + 1);
        }
        let next = match value.checked_mul(10) {
            Some(tens) => tens.checked_add(digit),
            None => None,
        };
        match next {
            Some(v) => {
                value = v;
            },
            None => {
                return None;
            },
        }
        i = i + 1;
    }
    assert(s@.take(n as int) =~= s@);
    Some(value)
}

impl NTP64 {
    /// Writes the timestamp in decimal form: the digits of its raw value.
    pub fn to_string(&self) -> (text: String)
        ensures
            text@ == decimal_text(self@),
            decimal_parse(text@) == Some(self.0),
    {
        let mut text = String::new();
        push_decimal(self.0, &mut text);
        proof {
            assert(text@ =~= decimal_text(self@));
            lemma_decimal_round_trip(self.0);
        }
        text
    }

    /// Writes the timestamp for a debugging reader: always in decimal form,
    /// whichever form the ordinary rendering has been asked for.
    pub fn fmt_debug(&self) -> (text: String)
        ensures
            text@ == decimal_text(self@),
    {
        self.to_string()
    }
}

/// Reads a timestamp from its decimal form.
///
/// Succeeds exactly on a non-empty run of decimal digits whose value is at
/// most 2^64 - 1; leading zeros are taken. Anything else (the empty text, a
/// sign, a blank, any other character, a value too large) is refused with a
/// cause that quotes the text.
impl std::str::FromStr for NTP64 {
    type Err = ParseNTP64Error;

    fn from_str(s: &str) -> (r: Result<NTP64, ParseNTP64Error>)
        ensures
            match decimal_parse(s@) {
                Some(raw) => r matches Ok(t) && t == NTP64(raw),
                None => r matches Err(e) && e@ == invalid_decimal_cause(s@),
            },
    {
        match parse_u64(s) {
            Some(raw) => Ok(NTP64(raw)),
            None => Err(invalid_decimal(s)),
        }
    }
}

/// The error for a text `s` refused as a decimal timestamp.
fn invalid_decimal(s: &str) -> (e: ParseNTP64Error)
    ensures
        e@ == invalid_decimal_cause(s@),
{
    let mut cause = "Invalid NTP64 time : '".to_owned();
    cause.append(s);
    cause.append("' (must be a u64)");
    assert(cause@ =~= invalid_decimal_cause(s@));
    ParseNTP64Error { cause }
}

} // verus!
