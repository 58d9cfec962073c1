//! Text helpers the handlers rest on: string equality, the blank-text test
//! that guards chat posting, and the lenient decimal parse applied to the
//! movie-id path parameter (anything unparsable counts as id 0).

use vstd::prelude::*;

verus! {

use vstd::string::StrSliceExecFns;

/// The characters the blank-text test discounts: Unicode `White_Space`.
pub open spec fn is_space_char(c: char) -> bool {
    let u = c as u32;
    ||| u == 0x09
    ||| u == 0x0A
    ||| u == 0x0B
    ||| u == 0x0C
    ||| u == 0x0D
    ||| u == 0x20
    ||| u == 0x85
    ||| u == 0xA0
    ||| u == 0x1680
    ||| (0x2000 <= u && u <= 0x200A)
    ||| u == 0x2028
    ||| u == 0x2029
    ||| u == 0x202F
    ||| u == 0x205F
    ||| u == 0x3000
}

/// Text that trims to nothing: every character is whitespace.
pub open spec fn is_blank(s: Seq<char>) -> bool {
    forall|i: int| 0 <= i < s.len() ==> is_space_char(s[i])
}

/// Whether this character is whitespace.
pub fn char_is_space(c: char) -> (b: bool)
    ensures
        b == is_space_char(c),
{
    let u: u32 = c as u32;
    u == 0x09 || u == 0x0A || u == 0x0B || u == 0x0C || u == 0x0D || u == 0x20 || u == 0x85
        || u == 0xA0 || u == 0x1680 || (0x2000 <= u && u <= 0x200A) || u == 0x2028 || u == 0x2029
        || u == 0x202F || u == 0x205F || u == 0x3000
}

/// Whether this text trims to nothing.
pub fn is_blank_text(s: &str) -> (r: bool)
    ensures
        r == is_blank(s@),
{
    let n = s.unicode_len();
    for i in 0..n
        invariant
            n == s@.len(),
            forall|j: int| 0 <= j < i ==> is_space_char(s@[j]),
    {
        let c = s.get_char(i);
        if !char_is_space(c) {
            assert(!is_blank(s@));
            return false;
        }
    }
    true
}

/// Whether two strings hold the same characters.
pub fn str_eq(a: &str, b: &str) -> (r: bool)
    ensures
        r == (a@ == b@),
{
    let na = a.unicode_len();
    let nb = b.unicode_len();
    if na != nb {
        return false;
    }
    for i in 0..na
        invariant
            na == a@.len(),
            na == b@.len(),
            forall|j: int| 0 <= j < i ==> a@[j] == b@[j],
    {
        if a.get_char(i) != b.get_char(i) {
            assert(a@[i as int] != b@[i as int]);
            return false;
        }
    }
    proof {
        assert(a@ =~= b@);
    }
    true
}

/// A decimal digit.
pub open spec fn is_digit_char(c: char) -> bool {
    48 <= (c as u32) && (c as u32) <= 57
}

/// The value of a decimal digit.
pub open spec fn digit_val(c: char) -> int {
    (c as u32) - 48
}

/// Every character is a decimal digit.
pub open spec fn all_digits(s: Seq<char>) -> bool {
    forall|i: int| 0 <= i < s.len() ==> is_digit_char(s[i])
}

/// The number a string of decimal digits denotes.
pub open spec fn digits_value(s: Seq<char>) -> int
    decreases s.len(),
{
    if s.len() == 0 {
        0
    } else {
        10 * digits_value(s.drop_last()) + digit_val(s.last())
    }
}

/// The digit part of an optionally signed decimal string.
pub open spec fn int_digits(s: Seq<char>) -> Seq<char> {
    if s.len() > 0 && (s[0] == '+' || s[0] == '-') {
        s.subrange(1, s.len() as int)
    } else {
        s
    }
}

/// The string opens with a minus sign.
pub open spec fn has_minus(s: Seq<char>) -> bool {
    s.len() > 0 && s[0] == '-'
}

/// An optionally signed, all-digit, non-empty decimal string.
pub open spec fn well_formed_int(s: Seq<char>) -> bool {
    int_digits(s).len() > 0 && all_digits(int_digits(s))
}

/// The signed value a well-formed decimal string denotes.
pub open spec fn parsed_int(s: Seq<char>) -> int {
    if has_minus(s) {
        -digits_value(int_digits(s))
    } else {
        digits_value(int_digits(s))
    }
}

/// What the movie-id path parameter selects: its value when it is a decimal
/// integer in 32-bit range, and 0 for anything else.
pub open spec fn movie_id_of(s: Seq<char>) -> int {
    if well_formed_int(s) && i32::MIN <= parsed_int(s) <= i32::MAX {
        parsed_int(s)
    } else {
        0
    }
}

/// A string of digits denotes a non-negative number.
proof fn lemma_digits_value_nonneg(s: Seq<char>)
    requires
        all_digits(s),
    ensures
        digits_value(s) >= 0,
    decreases s.len(),
{
    if s.len() > 0 {
        assert(all_digits(s.drop_last()));
        lemma_digits_value_nonneg(s.drop_last());
    }
}

/// Parses the movie-id path parameter, selecting 0 for anything unparsable.
pub fn parse_movie_id(s: &str) -> (r: i32)
    ensures
        r as int == movie_id_of(s@),
{
    let n = s.unicode_len();
    if n == 0 {
        return 0;
    }
    let first = s.get_char(0);
    let neg = first == '-';
    let has_sign = neg || first == '+';
    let start: usize = if has_sign { 1 } else { 0 };
    proof {
        assert(int_digits(s@) =~= s@.subrange(start as int, n as int));
    }
    if start == n {
        return 0;
    }
    let mut acc: i64 = 0;
    let mut over: bool = false;
    let mut i: usize = start;
    while i < n
        invariant
            start <= i <= n,
            n == s@.len(),
            start < n,
            int_digits(s@) =~= s@.subrange(start as int, n as int),
            all_digits(s@.subrange(start as int, i as int)),
            !over ==> 0 <= acc <= 0x8000_0000i64 && acc == digits_value(
                s@.subrange(start as int, i as int),
            ),
            over ==> digits_value(s@.subrange(start as int, i as int)) > 0x8000_0000,
        decreases n - i,
    {
        let c = s.get_char(i);
        if !char_is_digit(c) {
            proof {
                assert(int_digits(s@)[i - start] == s@[i as int]);
                assert(!all_digits(int_digits(s@)));
            }
            return 0;
        }
        let d = char_digit_val(c);
        proof {
            let pre = s@.subrange(start as int, i as int);
            let cur = s@.subrange(start as int, i as int + 1);
            assert(cur.drop_last() =~= pre);
            assert(cur.last() == c);
            assert(digits_value(cur) == 10 * digits_value(pre) + digit_val(c));
        }
        if !over {
            acc = acc * 10 + d as i64;
            if acc > 0x8000_0000i64 {
                over = true;
            }
        }
        i += 1;
    }
    proof {
        assert(s@.subrange(start as int, n as int) =~= int_digits(s@));
        assert(well_formed_int(s@));
    }
    if over {
        return 0;
    }
    if neg {
        if acc == 0x8000_0000i64 {
            return i32::MIN;
        }
        return -(acc as i32);
    }
    if acc > 0x7FFF_FFFFi64 {
        return 0;
    }
    acc as i32
}

/// Whether this character is a decimal digit.
fn char_is_digit(c: char) -> (b: bool)
    ensures
        b == is_digit_char(c),
{
    let u: u32 = c as u32;
    48 <= u && u <= 57
}

/// The value of a decimal digit character.
fn char_digit_val(c: char) -> (d: u32)
    requires
        is_digit_char(c),
    ensures
        d as int == digit_val(c),
{
    c as u32 - 48
}

} // verus!
