//! Rendering a number within a width.
//!
//! A number is written in at most `limit` characters where that can be done
//! without misstating its magnitude: as it is where that fits, else with fewer
//! digits behind the point, else as a mantissa and a power of ten. This module
//! holds what is decided and what is done to the text; the digits themselves
//! come from whoever holds the number. The caller tells `notation` how long the
//! number's plain text is, its sign and its power of ten, writes the number in
//! the notation that it names, and hands the text to `finish`.

use vstd::prelude::*;
use vstd::string::StrSliceExecFns;
use vstd::string::StringExecFns;
use crate::text::to_chars;

verus! {

/// How a number is to be written.
#[derive(Debug, Copy, Clone, PartialEq, Eq)]
pub enum Notation {
    /// As it is written without a width.
    Plain,
    /// Rounded to a whole number, without a point.
    Rounded,
    /// With this many digits behind the point.
    Fixed(usize),
    /// As a mantissa with this many digits behind its point, the letter `e` and
    /// the power of ten.
    Scientific(usize),
}

/// The width that counts: `limit`, and one where `limit` is zero.
pub open spec fn width(limit: usize) -> int {
    if limit == 0 {
        1
    } else {
        limit as int
    }
}

/// The characters that a power of ten takes behind the letter `e`: one to three
/// digits, and a sign where it is negative.
pub open spec fn power_len(power: i32) -> int {
    (if power <= -100 || power >= 100 {
        3int
    } else if power <= -10 || power >= 10 {
        2int
    } else {
        1int
    }) + (if power < 0 {
        1int
    } else {
        0int
    })
}

/// `a - b`, and zero where `b` is the greater.
pub open spec fn minus_or_zero(a: int, b: int) -> int {
    if a >= b {
        a - b
    } else {
        0
    }
}

/// The notation for a number whose plain text has `plain_len` characters,
/// whose sign is `negative` and whose magnitude lies between ten to the
/// `power` and ten times that; `power` is `None` for zero and for what has no
/// magnitude.
///
/// One character of the width is kept for the point. A number that fits is
/// written as it is. One without a power is rounded: zero is never written with
/// a power of ten. One whose whole digits and sign leave room is written with
/// the digits that fit behind the point, unless it is less than one and the
/// first digit that is not zero would not be among them. Every other number is
/// written with a power of ten, with as many digits as are left beside the sign,
/// the first digit, the point, the letter `e` and the power.
pub open spec fn notation_spec(plain_len: usize, negative: bool, power: Option<i32>, limit: usize) -> Notation {
    let room = width(limit) - 1;
    let sign = if negative {
        1int
    } else {
        0int
    };
    if plain_len <= width(limit) {
        Notation::Plain
    } else {
        match power {
            None => Notation::Rounded,
            Some(p) => {
                let whole = if p > 0 {
                    p + 1
                } else {
                    1int
                };
                let digits = minus_or_zero(room, whole + sign);
                if p + sign < room && (p >= 0 || digits >= -p) {
                    if digits == 0 {
                        Notation::Rounded
                    } else {
                        Notation::Fixed(digits as usize)
                    }
                } else {
                    Notation::Scientific(minus_or_zero(room, power_len(p) + sign + 2) as usize)
                }
            },
        }
    }
}

/// Whether the text holds a point.
pub open spec fn has_point(s: Seq<char>) -> bool {
    exists|i: int| 0 <= i < s.len() && s[i] == '.'
}

/// The number of zeros that the text ends with.
pub open spec fn trailing_zeros(s: Seq<char>) -> nat
    decreases s.len(),
{
    if s.len() > 0 && s.last() == '0' {
        1 + trailing_zeros(s.drop_last())
    } else {
        0
    }
}

/// The text without the zeros at the end of its fraction, and without the point
/// where nothing is left behind it. A text without a point stays as it is.
pub open spec fn trim_fraction_spec(s: Seq<char>) -> Seq<char> {
    if !has_point(s) {
        s
    } else {
        let t = s.take(s.len() - trailing_zeros(s));
        if t.len() > 0 && t.last() == '.' {
            t.drop_last()
        } else {
            t
        }
    }
}

/// The text without its sign where it starts with `-0` and no point follows:
/// the sign of a number that was rounded to zero.
pub open spec fn strip_negative_zero_spec(s: Seq<char>) -> Seq<char> {
    if s.len() >= 1 && s[0] == '-' && (s.len() < 2 || s[1] == '0') && (s.len() < 3 || s[2] != '.') {
        s.drop_first()
    } else {
        s
    }
}

/// The text with spaces behind it up to the width; a longer text is not cut.
pub open spec fn pad_spec(s: Seq<char>, limit: usize) -> Seq<char> {
    s + Seq::new(minus_or_zero(width(limit), s.len() as int) as nat, |i: int| ' ')
}

/// What becomes of the text of a number written in `notation`: the fraction is
/// trimmed where the notation is `Fixed`, the sign of a zero is taken off, and
/// the text is padded where `pad` asks for it.
pub open spec fn finish_spec(text: Seq<char>, notation: Notation, limit: usize, pad: bool) -> Seq<char> {
    let trimmed = if notation is Fixed {
        trim_fraction_spec(text)
    } else {
        text
    };
    let stripped = strip_negative_zero_spec(trimmed);
    if pad {
        pad_spec(stripped, limit)
    } else {
        stripped
    }
}

/// The trailing zeros start where zeros stand behind and none stands before,
/// or at the start of the text.
proof fn lemma_trailing_zeros(s: Seq<char>, n: int)
    requires
        0 <= n <= s.len(),
        forall|k: int| s.len() - n <= k < s.len() ==> s[k] == '0',
        n == s.len() || s[s.len() - n - 1] != '0',
    ensures
        trailing_zeros(s) == n,
    decreases s.len(),
{
    if n > 0 {
        lemma_trailing_zeros(s.drop_last(), n - 1);
    }
}

/// Says how the number is to be written; see [`notation_spec`].
pub fn notation(plain_len: usize, negative: bool, power: Option<i32>, limit: usize) -> (r: Notation)
    ensures
        r == notation_spec(plain_len, negative, power, limit),
{
    let width: usize = if limit == 0 {
        1
    } else {
        limit
    };
    if plain_len <= width {
        return Notation::Plain;
    }
    let room: usize = width - 1;
    let sign: usize = if negative {
        1
    } else {
        0
    };
    match power {
        None => Notation::Rounded,
        Some(p) => {
            // the whole digits before the point, at most eleven
            let whole: usize = if p > 0 {
                p as usize + 1
            } else {
                1
            };
            let digits: usize = if room >= whole + sign {
                room - (whole + sign)
            } else {
                0
            };
            let leaves_room = if p < 0 {
                p < -1 || !negative || room > 0
            } else {
                (p as usize) + sign < room
            };
            let shows_a_digit = p >= 0 || digits as u64 >= (-(p as i64)) as u64;
            if leaves_room && shows_a_digit {
                if digits == 0 {
                    Notation::Rounded
                } else {
                    Notation::Fixed(digits)
                }
            } else {
                let power_len: usize = (if p <= -100 || p >= 100 {
                    3
                } else if p <= -10 || p >= 10 {
                    2
                } else {
                    1
                }) + (if p < 0 {
                    1
                } else {
                    0
                });
                let taken: usize = power_len + sign + 2;
                Notation::Scientific(
                    if room >= taken {
                        room - taken
                    } else {
                        0
                    },
                )
            }
        },
    }
}

/// Takes the zeros off the end of a fraction, and the point where nothing is
/// left behind it; see [`trim_fraction_spec`].
pub fn trim_fraction(text: &str) -> (r: String)
    ensures
        r@ == trim_fraction_spec(text@),
{
    let chars = to_chars(text);
    let n = chars.len();
    let mut found = false;
    let mut i: usize = 0;
    while i < n
        invariant
            i <= n,
            n == chars.len(),
            found <==> exists|k: int| 0 <= k < i && chars@[k] == '.',
        decreases n - i,
    {
        if chars[i] == '.' {
            found = true;
        }
        i = i + 1;
    }
    if !found {
        return text.to_owned();
    }
    let mut end = n;
    while end > 0 && chars[end - 1] == '0'
        invariant
            end <= n,
            n == chars.len(),
            forall|k: int| end <= k < n ==> chars@[k] == '0',
        decreases end,
    {
        end = end - 1;
    }
    proof {
        lemma_trailing_zeros(chars@, n - end);
    }
    if end > 0 && chars[end - 1] == '.' {
        end = end - 1;
    }
    proof {
        let t = text@.take(n - trailing_zeros(text@));
        assert(text@.subrange(0, end as int) =~= trim_fraction_spec(text@));
    }
    text.substring_char(0, end).to_owned()
}

/// Takes the sign off a text that starts with `-0` without a point behind it;
/// see [`strip_negative_zero_spec`].
pub fn strip_negative_zero(text: &str) -> (r: String)
    ensures
        r@ == strip_negative_zero_spec(text@),
{
    let chars = to_chars(text);
    let n = chars.len();
    if n >= 1 && chars[0] == '-' && (n < 2 || chars[1] == '0') && (n < 3 || chars[2] != '.') {
        proof {
            assert(text@.subrange(1, n as int) =~= text@.drop_first());
        }
        text.substring_char(1, n).to_owned()
    } else {
        text.to_owned()
    }
}

/// Puts spaces behind the text until it is as long as the width; see
/// [`pad_spec`].
pub fn pad_to(text: &str, limit: usize) -> (r: String)
    ensures
        r@ == pad_spec(text@, limit),
{
    let width: usize = if limit == 0 {
        1
    } else {
        limit
    };
    let mut out = text.to_owned();
    let mut len = text.unicode_len();
    proof {
        reveal_strlit(" ");
    }
    while len < width
        invariant
            width == self::width(limit),
            len <= width || len == text@.len(),
            text@.len() <= len,
            out@.len() == len,
            out@ == text@ + Seq::new((len - text@.len()) as nat, |i: int| ' '),
        decreases width - len,
    {
        out.append(" ");
        len = len + 1;
        proof {
            reveal_strlit(" ");
            assert(out@ =~= text@ + Seq::new((len - text@.len()) as nat, |i: int| ' '));
        }
    }
    proof {
        assert(out@ =~= pad_spec(text@, limit));
    }
    out
}

/// Finishes the text of a number that was written in `notation`; see
/// [`finish_spec`].
pub fn finish(text: &str, notation: Notation, limit: usize, pad: bool) -> (r: String)
    ensures
        r@ == finish_spec(text@, notation, limit, pad),
{
    let trimmed = match notation {
        Notation::Fixed(_) => trim_fraction(text),
        _ => text.to_owned(),
    };
    let stripped = strip_negative_zero(trimmed.as_str());
    if pad {
        pad_to(stripped.as_str(), limit)
    } else {
        stripped
    }
}

} // verus!
