//! Small operations on text, counted in characters.

use vstd::prelude::*;
use vstd::string::*;

verus! {

/// Whether two texts hold the same characters.
pub fn same_text(a: &str, b: &str) -> (r: bool)
    ensures
        r == (a@ == b@),
{
    let left = a.to_owned();
    let right = b.to_owned();
    left == right
}

/// Whether `text` begins with the characters of `lower`, each of which may
/// stand as it is or as the character at its place in `upper`: with `upper`
/// the upper-case spelling of `lower`, a prefix without regard to case.
pub open spec fn begins_in_either_case(
    text: Seq<char>,
    lower: Seq<char>,
    upper: Seq<char>,
) -> bool {
    &&& lower.len() == upper.len()
    &&& lower.len() <= text.len()
    &&& forall|i: int| 0 <= i < lower.len() ==> text[i] == lower[i] || text[i] == upper[i]
}

/// Whether `text` begins with `lower` or `upper`, or with a mix of the
/// two, character by character.
pub fn starts_with_either_case(text: &str, lower: &str, upper: &str) -> (r: bool)
    ensures
        r == begins_in_either_case(text@, lower@, upper@),
{
    let n = lower.unicode_len();
    if upper.unicode_len() != n || text.unicode_len() < n {
        return false;
    }
    let mut i: usize = 0;
    while i < n
        invariant
            i <= n,
            n == lower@.len(),
            n == upper@.len(),
            n <= text@.len(),
            forall|j: int| 0 <= j < i ==> text@[j] == lower@[j] || text@[j] == upper@[j],
        decreases n - i,
    {
        let c = text.get_char(i);
        if c != lower.get_char(i) && c != upper.get_char(i) {
            return false;
        }
        i += 1;
    }
    true
}

/// Whether `text` ends with `suffix`.
pub fn ends_with(text: &str, suffix: &str) -> (r: bool)
    ensures
        r == suffix@.is_suffix_of(text@),
{
    let n = suffix.unicode_len();
    let len = text.unicode_len();
    if len < n {
        return false;
    }
    same_text(text.substring_char(len - n, len), suffix)
}

/// `text` without its first `n` characters; nothing is left of a text
/// that is no longer than that.
pub fn without_first(text: &str, n: usize) -> (r: String)
    ensures
        n <= text@.len() ==> r@ == text@.skip(n as int),
        n > text@.len() ==> r@ == Seq::<char>::empty(),
{
    let len = text.unicode_len();
    if n <= len {
        text.substring_char(n, len).to_owned()
    } else {
        String::new()
    }
}

/// `text` without its last `n` characters; nothing is left of a text that
/// is no longer than that.
pub fn without_last(text: &str, n: usize) -> (r: String)
    ensures
        n <= text@.len() ==> r@ == text@.take(text@.len() - n),
        n > text@.len() ==> r@ == Seq::<char>::empty(),
{
    let len = text.unicode_len();
    if n <= len {
        text.substring_char(0, len - n).to_owned()
    } else {
        String::new()
    }
}

/// The decimal digit that stands for `d`.
pub open spec fn digit(d: nat) -> char
    recommends
        d < 10,
{
    if d == 0 {
        '0'
    } else if d == 1 {
        '1'
    } else if d == 2 {
        '2'
    } else if d == 3 {
        '3'
    } else if d == 4 {
        '4'
    } else if d == 5 {
        '5'
    } else if d == 6 {
        '6'
    } else if d == 7 {
        '7'
    } else if d == 8 {
        '8'
    } else {
        '9'
    }
}

/// The decimal numeral of `n`, without leading zeros.
pub open spec fn decimal(n: nat) -> Seq<char>
    decreases n,
{
    if n < 10 {
        seq![digit(n)]
    } else {
        decimal(n / 10).push(digit(n % 10))
    }
}

fn digit_text(d: u16) -> (r: &'static str)
    requires
        d < 10,
    ensures
        r@ == seq![digit(d as nat)],
{
    proof {
        reveal_strlit("0");
        reveal_strlit("1");
        reveal_strlit("2");
        reveal_strlit("3");
        reveal_strlit("4");
        reveal_strlit("5");
        reveal_strlit("6");
        reveal_strlit("7");
        reveal_strlit("8");
        reveal_strlit("9");
    }
    let r = if d == 0 {
        "0"
    } else if d == 1 {
        "1"
    } else if d == 2 {
        "2"
    } else if d == 3 {
        "3"
    } else if d == 4 {
        "4"
    } else if d == 5 {
        "5"
    } else if d == 6 {
        "6"
    } else if d == 7 {
        "7"
    } else if d == 8 {
        "8"
    } else {
        "9"
    };
    assert(r@ =~= seq![digit(d as nat)]);
    r
}

/// Writes `n` as a decimal numeral.
pub fn decimal_text(n: u16) -> (r: String)
    ensures
        r@ == decimal(n as nat),
    decreases n,
{
    if n < 10 {
        String::from_str(digit_text(n))
    } else {
        let mut text = decimal_text(n / 10);
        text.append(digit_text(n % 10));
        assert(decimal((n / 10) as nat) + seq![digit((n % 10) as nat)] =~= decimal(
            (n / 10) as nat,
        ).push(digit((n % 10) as nat)));
        text
    }
}

} // verus!
