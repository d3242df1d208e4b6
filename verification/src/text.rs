//! Decimal rendering of integers, as the protocol's error texts print them.

use vstd::prelude::*;
use vstd::string::StringExecFns;
use vstd::string::StrSliceExecFns;

verus! {

/// The character of a decimal digit.
pub open spec fn digit_char(d: nat) -> char {
    if d == 0 { '0' }
    else if d == 1 { '1' }
    else if d == 2 { '2' }
    else if d == 3 { '3' }
    else if d == 4 { '4' }
    else if d == 5 { '5' }
    else if d == 6 { '6' }
    else if d == 7 { '7' }
    else if d == 8 { '8' }
    else { '9' }
}

/// The decimal digits of a natural number, most significant first, no leading zeros.
pub open spec fn nat_text(n: nat) -> Seq<char>
    decreases n,
{
    if n < 10 {
        seq![digit_char(n)]
    } else {
        nat_text(n / 10).push(digit_char(n % 10))
    }
}

/// The decimal text of an integer, with a leading minus sign when it is negative.
pub open spec fn int_text(n: int) -> Seq<char> {
    if n < 0 {
        seq!['-'] + nat_text((-n) as nat)
    } else {
        nat_text(n as nat)
    }
}

fn digit_str(d: u64) -> (s: &'static str)
    requires
        d < 10,
    ensures
        s@ == seq![digit_char(d as nat)],
{
    proof {
        reveal_strlit("0");
        reveal_strlit("1");
        reveal_strlit("2");
        reveal_strlit("3");
        reveal_strlit("4");
        reveal_strlit("5");
        reveal_strlit("6");
        reveal_strlit("7");
        reveal_strlit("8");
        reveal_strlit("9");
    }
    if d == 0 { "0" }
    else if d == 1 { "1" }
    else if d == 2 { "2" }
    else if d == 3 { "3" }
    else if d == 4 { "4" }
    else if d == 5 { "5" }
    else if d == 6 { "6" }
    else if d == 7 { "7" }
    else if d == 8 { "8" }
    else { "9" }
}

/// Renders a natural number in decimal.
pub fn u64_text(n: u64) -> (s: String)
    ensures
        s@ == nat_text(n as nat),
    decreases n,
{
    if n < 10 {
        String::from_str(digit_str(n))
    } else {
        let high = u64_text(n / 10);
        high.concat(digit_str(n % 10))
    }
}

/// Renders an integer in decimal, as `{}` formats it.
pub fn i32_text(n: i32) -> (s: String)
    ensures
        s@ == int_text(n as int),
{
    if n < 0 {
        proof {
            reveal_strlit("-");
        }
        let magnitude: u64 = (0i64 - (n as i64)) as u64;
        let digits = u64_text(magnitude);
        let mut s = String::from_str("-");
        s.append(digits.as_str());
        s
    } else {
        u64_text(n as u64)
    }
}

/// Whether two texts are the same, character by character.
pub fn str_eq(a: &str, b: &str) -> (r: bool)
    ensures
        r == (a@ == b@),
{
    let n = a.unicode_len();
    let m = b.unicode_len();
    if n != m {
        return false;
    }
    let mut i: usize = 0;
    while i < n
        invariant
            n == a@.len(),
            m == b@.len(),
            n == m,
            i <= n,
            forall|j: int| 0 <= j < i ==> a@[j] == b@[j],
        decreases n - i,
    {
        if a.get_char(i) != b.get_char(i) {
            return false;
        }
        i = i + 1;
    }
    assert(a@ =~= b@);
    true
}

/// Whether a character has Unicode's White_Space property, which is what
/// `char::is_whitespace` and `str::trim` go by: the controls U+0009 to U+000D,
/// the space, U+0085, the no-break space U+00A0, U+1680, the spaces U+2000 to
/// U+200A, the separators U+2028 and U+2029, U+202F, U+205F and U+3000.
pub open spec fn is_whitespace_char(c: char) -> bool {
    let n = c as u32;
    (0x9 <= n <= 0xD) || n == 0x20 || n == 0x85 || n == 0xA0 || n == 0x1680 || (0x2000 <= n
        <= 0x200A) || n == 0x2028 || n == 0x2029 || n == 0x202F || n == 0x205F || n == 0x3000
}

/// Whether a character is whitespace.
pub fn char_is_whitespace(c: char) -> (b: bool)
    ensures
        b == is_whitespace_char(c),
{
    let n = c as u32;
    (0x9 <= n && n <= 0xD) || n == 0x20 || n == 0x85 || n == 0xA0 || n == 0x1680 || (0x2000 <= n
        && n <= 0x200A) || n == 0x2028 || n == 0x2029 || n == 0x202F || n == 0x205F || n == 0x3000
}

/// Whether a text holds nothing but whitespace.
pub open spec fn is_blank_text(s: Seq<char>) -> bool {
    forall|i: int| 0 <= i < s.len() ==> is_whitespace_char(#[trigger] s[i])
}

/// Whether a text holds nothing but whitespace, so that trimming it leaves it empty.
pub fn is_blank(line: &str) -> (r: bool)
    ensures
        r == is_blank_text(line@),
{
    broadcast use vstd::string::group_string_axioms;
    for c in it: line.chars()
        invariant
            it.seq() == line@,
            forall|j: int| 0 <= j < it.index() ==> is_whitespace_char(#[trigger] line@[j]),
    {
        if !char_is_whitespace(c) {
            return false;
        }
    }
    true
}

/// The visible ASCII characters (letters, digits, braces, quotes and the other
/// punctuation of JSON) are no whitespace, nor is NUL; space, tab, line feed
/// and carriage return are; and no character above U+3000 is.
pub proof fn law_whitespace_chars(c: char)
    ensures
        0x21 <= c as u32 <= 0x7E ==> !is_whitespace_char(c),
        c as u32 == 0 ==> !is_whitespace_char(c),
        (c == ' ' || c == '\t' || c == '\n' || c == '\r') ==> is_whitespace_char(c),
        c as u32 > 0x3000 ==> !is_whitespace_char(c),
{
}

/// A text is blank exactly when none of its characters is other than
/// whitespace: one non-whitespace character anywhere makes it not blank.
pub proof fn law_blank_text(s: Seq<char>, i: int)
    requires
        0 <= i < s.len(),
        !is_whitespace_char(s[i]),
    ensures
        !is_blank_text(s),
        !is_blank_text(s.subrange(0, i) + s.subrange(i, s.len() as int)),
{
    assert(s.subrange(0, i) + s.subrange(i, s.len() as int) =~= s);
}

} // verus!
