//! Text helpers for widget keys and labels: Unicode-aware sanitizing and
//! capitalizing, and decimal rendering for the timestamp fallback key.
//!
//! The Unicode case mappings and the whitespace property come from the
//! standard library through trusted wrappers; everything around them is
//! verified.

use vstd::prelude::*;

verus! {

/// What str::to_lowercase returns: the Unicode lowercase mapping of the
/// string, a function of its characters alone.
pub uninterp spec fn lower_of(s: Seq<char>) -> Seq<char>;

/// Relies on str::to_lowercase: returns the string's Unicode lowercase
/// mapping, which depends on the characters alone; an empty string stays
/// empty.
#[verifier::external_body]
pub(crate) fn to_lowercase_string(s: &str) -> (r: String)
    ensures
        r@ == lower_of(s@),
        s@.len() == 0 ==> r@.len() == 0,
{
    s.to_lowercase()
}

/// What char::to_uppercase yields: the Unicode uppercase mapping of one
/// character, as the sequence of characters it expands to.
pub uninterp spec fn upper_of(c: char) -> Seq<char>;

/// Relies on char::to_uppercase: yields the character's Unicode uppercase
/// mapping, a function of the character alone; it yields at least one
/// character, since a character with no mapping yields itself.
#[verifier::external_body]
pub(crate) fn char_to_uppercase(c: char) -> (r: String)
    ensures
        r@ == upper_of(c),
        r@.len() >= 1,
{
    c.to_uppercase().collect()
}

/// Whether char::is_whitespace holds of the character.
pub uninterp spec fn whitespace_char(c: char) -> bool;

/// Relies on char::is_whitespace: whether the character has the Unicode
/// White_Space property, a function of the character alone.
#[verifier::external_body]
pub(crate) fn char_is_whitespace(c: char) -> (r: bool)
    ensures
        r == whitespace_char(c),
{
    c.is_whitespace()
}

/// Relies on String's FromIterator impl: collecting characters yields a
/// string of exactly those characters.
#[verifier::external_body]
pub(crate) fn string_from_chars(chars: &Vec<char>) -> (r: String)
    ensures
        r@ == chars@,
{
    chars.iter().collect()
}

/// Relies on std::time::SystemTime: the wall clock now, as milliseconds
/// since the Unix epoch, or zero on a clock that reads before the epoch.
/// Nothing is assumed of the value.
#[verifier::external_body]
pub(crate) fn now_unix_millis() -> (r: u128) {
    std::time::SystemTime::now().duration_since(std::time::SystemTime::UNIX_EPOCH).map(
        |d| d.as_millis(),
    ).unwrap_or(0)
}

/// The character for one decimal digit.
pub open spec fn digit_char(d: nat) -> char {
    if d == 0 {
        '0'
    } else if d == 1 {
        '1'
    } else if d == 2 {
        '2'
    } else if d == 3 {
        '3'
    } else if d == 4 {
        '4'
    } else if d == 5 {
        '5'
    } else if d == 6 {
        '6'
    } else if d == 7 {
        '7'
    } else if d == 8 {
        '8'
    } else {
        '9'
    }
}

/// The decimal digits of a number, most significant first, with no leading
/// zero except for zero itself.
pub open spec fn decimal_digits(n: nat) -> Seq<char>
    decreases n,
{
    if n < 10 {
        seq![digit_char(n)]
    } else {
        decimal_digits(n / 10).push(digit_char(n % 10))
    }
}

/// One decimal digit as a string slice.
fn digit_str(d: u128) -> (r: &'static str)
    requires
        d < 10,
    ensures
        r@ == seq![digit_char(d as nat)],
{
    proof {
        reveal_strlit("0");
        reveal_strlit("1");
        reveal_strlit("2");
        reveal_strlit("3");
        reveal_strlit("4");
        reveal_strlit("5");
        reveal_strlit("6");
        reveal_strlit("7");
        reveal_strlit("8");
        reveal_strlit("9");
    }
    let r = if d == 0 {
        "0"
    } else if d == 1 {
        "1"
    } else if d == 2 {
        "2"
    } else if d == 3 {
        "3"
    } else if d == 4 {
        "4"
    } else if d == 5 {
        "5"
    } else if d == 6 {
        "6"
    } else if d == 7 {
        "7"
    } else if d == 8 {
        "8"
    } else {
        "9"
    };
    proof {
        assert(r@ =~= seq![digit_char(d as nat)]);
    }
    r
}

/// Render a number in decimal.
pub fn decimal_string(n: u128) -> (r: String)
    ensures
        r@ == decimal_digits(n as nat),
    decreases n,
{
    if n < 10 {
        digit_str(n).to_owned()
    } else {
        let mut prefix = decimal_string(n / 10);
        prefix.append(digit_str(n % 10));
        proof {
            assert(prefix@ =~= decimal_digits(n as nat));
        }
        prefix
    }
}

/// A character kept by the key sanitizer: an ASCII letter or digit, a
/// hyphen, or an underscore.
pub open spec fn sanitize_keep(c: char) -> bool {
    ('a' as u32) <= (c as u32) <= ('z' as u32) || ('A' as u32) <= (c as u32) <= ('Z' as u32) || (
    '0' as u32) <= (c as u32) <= ('9' as u32) || c == '-' || c == '_'
}

fn sanitize_keep_exec(c: char) -> (r: bool)
    ensures
        r == sanitize_keep(c),
{
    let u = c as u32;
    (('a' as u32) <= u && u <= ('z' as u32)) || (('A' as u32) <= u && u <= ('Z' as u32)) || (('0'
        as u32) <= u && u <= ('9' as u32)) || c == '-' || c == '_'
}

/// What the sanitizer makes of one character: whitespace becomes a hyphen,
/// a keepable character stays, anything else is dropped.
pub open spec fn sanitized_char(c: char) -> Seq<char> {
    if whitespace_char(c) {
        seq!['-']
    } else if sanitize_keep(c) {
        seq![c]
    } else {
        Seq::empty()
    }
}

/// The sanitized form of a text, character by character.
pub open spec fn sanitized_text(s: Seq<char>) -> Seq<char>
    decreases s.len(),
{
    if s.len() == 0 {
        Seq::empty()
    } else {
        sanitized_text(s.drop_last()) + sanitized_char(s.last())
    }
}

/// Holds of a character that is not a hyphen.
pub open spec fn non_hyphen_pred() -> spec_fn(char) -> bool {
    |c: char| c != '-'
}

/// Holds of a string that reads as a decimal number.
pub open spec fn is_decimal_text(s: Seq<char>) -> bool {
    exists|n: nat| s == decimal_digits(n)
}

/// How a sanitized key relates to its input: the cleaned text wherever
/// anything but hyphens survives the cleaning, and otherwise some decimal
/// timestamp.
pub open spec fn sanitize_relation(input: Seq<char>, out: Seq<char>) -> bool {
    let cleaned = sanitized_text(lower_of(input));
    if cleaned.filter(non_hyphen_pred()).len() > 0 {
        out == cleaned
    } else {
        is_decimal_text(out)
    }
}

/// Whether the string occurs in the list.
pub fn string_list_contains(list: &Vec<String>, s: &String) -> (r: bool)
    ensures
        r == list.deep_view().contains(s@),
{
    let n = list.len();
    let mut i: usize = 0;
    while i < n
        invariant
            n == list@.len(),
            0 <= i <= n,
            forall|j: int| 0 <= j < i ==> list.deep_view()[j] != s@,
        decreases n - i,
    {
        if list[i] == *s {
            proof {
                assert(list.deep_view()[i as int] == s@);
            }
            return true;
        }
        i += 1;
    }
    false
}

/// Sanitize a widget key: lowercase it, replace whitespace with hyphens,
/// drop everything that is not an ASCII letter, digit, hyphen or
/// underscore. Should nothing but hyphens survive, the key falls back to
/// the current time in milliseconds, rendered in decimal, so that it is
/// never effectively empty.
#[verifier::loop_isolation(false)]
pub fn sanitize_string(input: &str) -> (r: String)
    ensures
        sanitize_relation(input@, r@),
{
    let lowered = to_lowercase_string(input);
    let lower = lowered.as_str();
    let n = lower.unicode_len();
    let mut kept: Vec<char> = Vec::new();
    let mut i: usize = 0;
    while i < n
        invariant
            0 <= i <= n,
            kept@ == sanitized_text(lower@.take(i as int)),
        decreases n - i,
    {
        let c = lower.get_char(i);
        if char_is_whitespace(c) {
            kept.push('-');
        } else if sanitize_keep_exec(c) {
            kept.push(c);
        }
        proof {
            assert(lower@.take(i + 1).drop_last() =~= lower@.take(i as int));
            assert(lower@.take(i + 1).last() == lower@[i as int]);
            assert(kept@ =~= sanitized_text(lower@.take(i as int)) + sanitized_char(
                lower@[i as int],
            ));
        }
        i += 1;
    }
    proof {
        assert(lower@.take(n as int) =~= lower@);
    }
    let kept_len = kept.len();
    let mut non_hyphen: usize = 0;
    let mut j: usize = 0;
    while j < kept_len
        invariant
            0 <= j <= kept_len,
            non_hyphen == kept@.take(j as int).filter(non_hyphen_pred()).len(),
            non_hyphen <= j,
        decreases kept_len - j,
    {
        proof {
            reveal(Seq::filter);
            assert(kept@.take(j + 1).drop_last() =~= kept@.take(j as int));
            assert(kept@.take(j + 1).last() == kept@[j as int]);
        }
        if kept[j] != '-' {
            non_hyphen = non_hyphen + 1;
        }
        j += 1;
    }
    proof {
        assert(kept@.take(kept_len as int) =~= kept@);
    }
    if non_hyphen == 0 {
        decimal_string(now_unix_millis())
    } else {
        string_from_chars(&kept)
    }
}

/// Capitalize the first character of a text, leaving the rest as it is; an
/// empty text stays empty. A first character whose uppercase mapping
/// expands to several characters contributes all of them.
pub fn capitalize_first_letter(s: &str) -> (r: String)
    ensures
        s@.len() == 0 ==> r@ == Seq::<char>::empty(),
        s@.len() > 0 ==> r@ == upper_of(s@[0]) + s@.skip(1),
{
    let n = s.unicode_len();
    if n == 0 {
        return String::new();
    }
    let first = s.get_char(0);
    let upper = char_to_uppercase(first);
    let rest = s.substring_char(1, n);
    proof {
        assert(rest@ =~= s@.skip(1));
    }
    upper.concat(rest)
}

} // verus!
