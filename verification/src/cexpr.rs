//! The literals that the registry embeds as expressions.
//!
//! Two forms are read, the first that fits: a float literal (a signed decimal
//! number directly followed by `f`) and an inverted integer (`(~` digits, `U` or
//! `ULL`, optionally `-` digits, `)`).  Text after the literal is not looked at.
//! The number of a float literal is read by `nom`; the rest is read here.

use crate::text::{chars_of, is_digit, is_digit_char, string_of_range};
use vstd::prelude::*;
use vstd::string::StringExecFns;

verus! {

/// The scalar type of a constant.
#[derive(Copy, Clone, Debug, PartialEq, Eq, Structural)]
pub enum CType {
    USize,
    U32,
    U64,
    Float,
}

impl CType {
    /// The name of the type in the generated bindings.
    pub open spec fn name(self) -> Seq<char> {
        match self {
            CType::USize => "usize"@,
            CType::U32 => "u32"@,
            CType::U64 => "u64"@,
            CType::Float => "f32"@,
        }
    }

    /// The name of the type, as text.
    pub fn to_tokens(&self) -> (r: String)
        ensures
            r@ == self.name(),
    {
        match self {
            CType::USize => String::from_str("usize"),
            CType::U32 => String::from_str("u32"),
            CType::U64 => String::from_str("u64"),
            CType::Float => String::from_str("f32"),
        }
    }
}

/// How many decimal digits stand in `s` from index `from` on.
pub open spec fn digits_len(s: Seq<char>, from: int) -> nat
    decreases s.len() - from,
{
    if 0 <= from < s.len() && is_digit(s[from]) {
        1 + digits_len(s, from + 1)
    } else {
        0
    }
}

/// The inverted integer that `s` begins with: its width and the text `!a` or
/// `!a-b`.
pub open spec fn inverse_number(s: Seq<char>) -> Option<(CType, Seq<char>)> {
    let d: int = digits_len(s, 2) as int;
    let u: int = 2 + d;
    if !(s.len() >= 2 && s[0] == '(' && s[1] == '~' && d > 0) {
        None
    } else if !(u < s.len() && s[u] == 'U') {
        None
    } else {
        let wide = u + 2 < s.len() && s[u + 1] == 'L' && s[u + 2] == 'L';
        let ty = if wide {
            CType::U64
        } else {
            CType::U32
        };
        let m: int = if wide {
            u + 3
        } else {
            u + 1
        };
        let d2: int = digits_len(s, m + 1) as int;
        let minus = m < s.len() && s[m] == '-' && d2 > 0;
        let close: int = if minus {
            m + 1 + d2
        } else {
            m
        };
        if !(close < s.len() && s[close] == ')') {
            None
        } else if minus {
            Some((ty, seq!['!'] + s.subrange(2, u) + seq!['-'] + s.subrange(m + 1, m + 1 + d2)))
        } else {
            Some((ty, seq!['!'] + s.subrange(2, u)))
        }
    }
}

/// What `nom` reads as a float at the start of a text: the number read,
/// written with exactly two digits after the point as Rust formats it, and the
/// text left unread after it; `None` where `nom` reads no float there.
pub uninterp spec fn float_read(s: Seq<char>) -> Option<(Seq<char>, Seq<char>)>;

/// Whether a text begins as a number does: with a sign, a point or a digit.
pub open spec fn begins_number(s: Seq<char>) -> bool {
    s.len() > 0 && (s[0] == '+' || s[0] == '-' || s[0] == '.' || is_digit(s[0]))
}

/// What an expression stands for, given what was read of it as a float: a
/// float where a number was read and the suffix `f` follows it directly,
/// otherwise what it is as an inverted integer.
pub open spec fn parse(s: Seq<char>, read: Option<(Seq<char>, Seq<char>)>) -> Option<
    (CType, Seq<char>),
> {
    match read {
        Some((text, rest)) => if rest.len() > 0 && rest[0] == 'f' {
            Some((CType::Float, text))
        } else {
            inverse_number(s)
        },
        None => inverse_number(s),
    }
}

/// The type and text of a parsed expression, as plain values.
pub open spec fn parsed_view(r: Option<(CType, String)>) -> Option<(CType, Seq<char>)> {
    match r {
        Some((ty, text)) => Some((ty, text@)),
        None => None,
    }
}

/// A float as read, as plain values.
pub open spec fn read_view(r: Option<(String, String)>) -> Option<(Seq<char>, Seq<char>)> {
    match r {
        Some((text, rest)) => Some((text@, rest@)),
        None => None,
    }
}

/// Calls `nom::float_s`, which reads a float at the start of the text, and
/// formats the number with `{:.2}`; hands back that text and the rest that
/// `nom` left unread.  Both depend on the text alone and are what
/// [`float_read`] names.  `nom` reads a float only from a text that begins
/// with a sign, a point or a digit.
#[verifier::external_body]
fn read_float(s: &str) -> (r: Option<(String, String)>)
    ensures
        read_view(r) == float_read(s@),
        r is Some ==> begins_number(s@),
{
    match nom::float_s(s) {
        Ok((rest, number)) => Some((format!("{:.2}", number), rest.to_string())),
        Err(_) => None,
    }
}

fn count_digits(s: &Vec<char>, from: usize) -> (n: usize)
    requires
        from <= s.len(),
    ensures
        n == digits_len(s@, from as int),
        from + n <= s.len(),
{
    let mut i: usize = from;
    while i < s.len() && is_digit_char(s[i])
        invariant
            from <= i <= s.len(),
            digits_len(s@, from as int) == (i - from) + digits_len(s@, i as int),
        decreases s.len() - i,
    {
        i += 1;
    }
    i - from
}

fn char_at_is(s: &Vec<char>, i: usize, c: char) -> (r: bool)
    ensures
        r == (i < s.len() && s@[i as int] == c),
{
    i < s.len() && s[i] == c
}

/// Reads an inverted integer at the start of the text.
pub fn parse_inverse_number(s: &Vec<char>) -> (r: Option<(CType, String)>)
    ensures
        parsed_view(r) == inverse_number(s@),
{
    if !(char_at_is(s, 0, '(') && char_at_is(s, 1, '~')) {
        return None;
    }
    let d = count_digits(s, 2);
    if d == 0 {
        return None;
    }
    let u: usize = 2 + d;
    if !char_at_is(s, u, 'U') {
        return None;
    }
    let wide = u < s.len() - 2 && s[u + 1] == 'L' && s[u + 2] == 'L';
    let ty = if wide {
        CType::U64
    } else {
        CType::U32
    };
    let m: usize = if wide {
        u + 3
    } else {
        u + 1
    };
    let mut minus = false;
    let mut close: usize = m;
    if char_at_is(s, m, '-') {
        let d2 = count_digits(s, m + 1);
        if d2 > 0 {
            minus = true;
            close = m + 1 + d2;
        }
    }
    if !char_at_is(s, close, ')') {
        return None;
    }
    let mut text = String::from_str("!");
    proof {
        reveal_strlit("!");
        assert("!"@ == seq!['!']);
    }
    let first = string_of_range(s, 2, u);
    text.append(first.as_str());
    if minus {
        text.push('-');
        let second = string_of_range(s, m + 1, close);
        text.append(second.as_str());
    }
    Some((ty, text))
}

/// Reads an expression, given what was read of it as a float.
///
/// The result is a float exactly when a number was read and the rest after
/// it begins with `f`; otherwise it is the inverted integer that the text
/// begins with, or `None` where it begins with none.
pub fn cexpr_with(s: &str, read: Option<(String, String)>) -> (r: Option<(CType, String)>)
    ensures
        parsed_view(r) == parse(s@, read_view(read)),
{
    match read {
        Some((text, rest)) => {
            let after = chars_of(rest.as_str());
            if char_at_is(&after, 0, 'f') {
                return Some((CType::Float, text));
            }
        },
        None => {},
    }
    parse_inverse_number(&chars_of(s))
}

/// Reads an expression: its scalar type and the text that stands for it in the
/// bindings.  `None` where the text is in neither form.  A text that begins
/// with an inverted integer is always read as that.
pub fn cexpr(s: &str) -> (r: Option<(CType, String)>)
    ensures
        parsed_view(r) == parse(s@, float_read(s@)),
        inverse_number(s@) is Some ==> parsed_view(r) == inverse_number(s@),
{
    let read = read_float(s);
    cexpr_with(s, read)
}

} // verus!
