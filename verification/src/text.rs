//! Verified text helpers: Unicode-whitespace trimming and decimal rendering
//! of unsigned numbers, used by the metadata reader and the date formatter.

use vstd::prelude::*;
use vstd::string::*;

verus! {

/// The Unicode `White_Space` code points: the characters that `trim` removes
/// from the ends of a string.
pub open spec fn spec_is_wspace(c: char) -> bool {
    let u = c as u32;
    (9 <= u && u <= 13) || u == 32 || u == 0x85 || u == 0xa0 || u == 0x1680
        || (0x2000 <= u && u <= 0x200a) || u == 0x2028 || u == 0x2029 || u == 0x202f
        || u == 0x205f || u == 0x3000
}

pub fn is_wspace(c: char) -> (r: bool)
    ensures
        r == spec_is_wspace(c),
{
    let u = c as u32;
    (9 <= u && u <= 13) || u == 32 || u == 0x85 || u == 0xa0 || u == 0x1680
        || (0x2000 <= u && u <= 0x200a) || u == 0x2028 || u == 0x2029 || u == 0x202f
        || u == 0x205f || u == 0x3000
}

/// Index of the first character at or after `i` that is not whitespace, or
/// the length of `s` when every character from `i` on is whitespace.
pub open spec fn first_non_wspace_from(s: Seq<char>, i: int) -> int
    decreases s.len() - i,
{
    if i < 0 || i >= s.len() {
        s.len() as int
    } else if !spec_is_wspace(s[i]) {
        i
    } else {
        first_non_wspace_from(s, i + 1)
    }
}

/// One past the index of the last non-whitespace character strictly before
/// `i`, or `0` when every character before `i` is whitespace.
pub open spec fn end_of_non_wspace_before(s: Seq<char>, i: int) -> int
    decreases i,
{
    if i <= 0 {
        0
    } else if !spec_is_wspace(s[i - 1]) {
        i
    } else {
        end_of_non_wspace_before(s, i - 1)
    }
}

/// What `trim` returns: `s` without leading and trailing whitespace.
pub open spec fn spec_trim(s: Seq<char>) -> Seq<char> {
    let a = first_non_wspace_from(s, 0);
    let b = end_of_non_wspace_before(s, s.len() as int);
    if a < b {
        s.subrange(a, b)
    } else {
        Seq::empty()
    }
}

proof fn lemma_all_wspace_end(s: Seq<char>, i: int)
    requires
        0 <= i <= s.len(),
        forall|k: int| 0 <= k < i ==> spec_is_wspace(s[k]),
    ensures
        end_of_non_wspace_before(s, i) == 0,
    decreases i,
{
    if i > 0 {
        lemma_all_wspace_end(s, i - 1);
    }
}

/// Returns `s` with leading and trailing whitespace removed.
pub fn trim(s: &str) -> (r: String)
    ensures
        r@ == spec_trim(s@),
{
    let n = s.unicode_len();
    let mut a: usize = 0;
    while a < n && is_wspace(s.get_char(a))
        invariant
            0 <= a <= n == s@.len(),
            forall|k: int| 0 <= k < a ==> spec_is_wspace(s@[k]),
            first_non_wspace_from(s@, 0) == first_non_wspace_from(s@, a as int),
        decreases n - a,
    {
        a = a + 1;
    }
    assert(first_non_wspace_from(s@, 0) == a as int);
    if a == n {
        proof {
            lemma_all_wspace_end(s@, n as int);
        }
        return String::new();
    }
    let mut b: usize = n;
    while b > a + 1 && is_wspace(s.get_char(b - 1))
        invariant
            a + 1 <= b <= n == s@.len(),
            a < s@.len() && !spec_is_wspace(s@[a as int]),
            end_of_non_wspace_before(s@, n as int) == end_of_non_wspace_before(s@, b as int),
        decreases b,
    {
        b = b - 1;
    }
    assert(!spec_is_wspace(s@[b - 1]));
    assert(end_of_non_wspace_before(s@, n as int) == b as int);
    let t = s.substring_char(a, b);
    t.to_owned()
}

/// The character for a single decimal digit.
pub open spec fn spec_digit(d: int) -> char {
    if d == 0 {
        '0'
    } else if d == 1 {
        '1'
    } else if d == 2 {
        '2'
    } else if d == 3 {
        '3'
    } else if d == 4 {
        '4'
    } else if d == 5 {
        '5'
    } else if d == 6 {
        '6'
    } else if d == 7 {
        '7'
    } else if d == 8 {
        '8'
    } else {
        '9'
    }
}

/// The decimal rendering of a non-negative number, without padding.
pub open spec fn spec_dec(n: int) -> Seq<char>
    decreases n,
{
    if n < 10 {
        seq![spec_digit(n)]
    } else {
        spec_dec(n / 10) + seq![spec_digit(n % 10)]
    }
}

fn digit_str(d: u64) -> (r: &'static str)
    requires
        d < 10,
    ensures
        r@ == seq![spec_digit(d as int)],
{
    let r: &'static str = if d == 0 {
        "0"
    } else if d == 1 {
        "1"
    } else if d == 2 {
        "2"
    } else if d == 3 {
        "3"
    } else if d == 4 {
        "4"
    } else if d == 5 {
        "5"
    } else if d == 6 {
        "6"
    } else if d == 7 {
        "7"
    } else if d == 8 {
        "8"
    } else {
        "9"
    };
    proof {
        reveal_strlit("0");
        reveal_strlit("1");
        reveal_strlit("2");
        reveal_strlit("3");
        reveal_strlit("4");
        reveal_strlit("5");
        reveal_strlit("6");
        reveal_strlit("7");
        reveal_strlit("8");
        reveal_strlit("9");
        assert(r@ =~= seq![spec_digit(d as int)]);
    }
    r
}

/// Renders `n` in decimal, without padding.
pub fn dec_string(n: u64) -> (r: String)
    ensures
        r@ == spec_dec(n as int),
    decreases n,
{
    if n < 10 {
        digit_str(n).to_owned()
    } else {
        let mut r = dec_string(n / 10);
        r.append(digit_str(n % 10));
        r
    }
}

} // verus!
