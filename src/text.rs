use vstd::prelude::*;
use vstd::string::{StrSliceExecFns, StringExecFns};

verus! {

pub open spec fn is_digit(c: char) -> bool {
    '0' <= c && c <= '9'
}

pub open spec fn digit_value(c: char) -> nat {
    ((c as u32) - ('0' as u32)) as nat
}

/// `c` stands for `k`; with `fold`, an ASCII upper-case letter also stands
/// for its lower-case form.
pub open spec fn char_matches(c: char, k: char, fold: bool) -> bool {
    c == k || (fold && 'A' <= c && c <= 'Z' && (c as u32) + 32 == (k as u32))
}

/// `needle` occurs in `hay` starting at position `i`.
pub open spec fn occurs_at(hay: Seq<char>, needle: Seq<char>, i: int, fold: bool) -> bool {
    &&& 0 <= i
    &&& i + needle.len() <= hay.len()
    &&& forall|j: int| 0 <= j < needle.len() ==> char_matches(#[trigger] hay[i + j], needle[j], fold)
}

/// `needle` occurs somewhere in `hay`.
pub open spec fn contains_text(hay: Seq<char>, needle: Seq<char>, fold: bool) -> bool {
    exists|i: int| occurs_at(hay, needle, i, fold)
}

/// The characters of `s`, one by one.
pub fn chars_of(s: &str) -> (r: Vec<char>)
    ensures
        r@ == s@,
{
    let n = s.unicode_len();
    let mut out: Vec<char> = Vec::new();
    let mut i: usize = 0;
    while i < n
        invariant
            n == s@.len(),
            0 <= i <= n,
            out@ == s@.take(i as int),
        decreases n - i,
    {
        out.push(s.get_char(i));
        i = i + 1;
        assert(out@ =~= s@.take(i as int));
    }
    assert(s@.take(n as int) =~= s@);
    out
}

fn char_matches_exec(c: char, k: char, fold: bool) -> (r: bool)
    ensures
        r == char_matches(c, k, fold),
{
    if c == k {
        true
    } else if fold && 'A' <= c && c <= 'Z' {
        (c as u32) + 32 == (k as u32)
    } else {
        false
    }
}

/// Whether `needle` occurs in `hay` at `i`.
pub fn occurs_at_exec(hay: &Vec<char>, needle: &Vec<char>, i: usize, fold: bool) -> (r: bool)
    ensures
        r == occurs_at(hay@, needle@, i as int, fold),
{
    if i > hay.len() || needle.len() > hay.len() - i {
        return false;
    }
    let mut j: usize = 0;
    while j < needle.len()
        invariant
            i + needle@.len() <= hay@.len(),
            hay@.len() <= usize::MAX,
            0 <= j <= needle@.len(),
            forall|t: int| 0 <= t < j ==> char_matches(#[trigger] hay@[i + t], needle@[t], fold),
        decreases needle@.len() - j,
    {
        if !char_matches_exec(hay[i + j], needle[j], fold) {
            assert(!char_matches(hay@[i + j as int], needle@[j as int], fold));
            return false;
        }
        j = j + 1;
    }
    true
}

/// Whether `needle` occurs anywhere in `hay`; with `fold`, ASCII upper-case
/// letters of `hay` match the lower-case letters of `needle`.
pub fn contains_exec(hay: &Vec<char>, needle: &Vec<char>, fold: bool) -> (r: bool)
    ensures
        r == contains_text(hay@, needle@, fold),
{
    if needle.len() > hay.len() {
        assert forall|i: int| !occurs_at(hay@, needle@, i, fold) by {}
        return false;
    }
    let last = hay.len() - needle.len();
    let mut i: usize = 0;
    loop
        invariant
            last == hay@.len() - needle@.len(),
            0 <= i <= last,
            forall|t: int| 0 <= t < i ==> !#[trigger] occurs_at(hay@, needle@, t, fold),
        ensures
            forall|t: int| 0 <= t <= last ==> !#[trigger] occurs_at(hay@, needle@, t, fold),
        decreases last - i,
    {
        if occurs_at_exec(hay, needle, i, fold) {
            return true;
        }
        if i == last {
            break;
        }
        i = i + 1;
    }
    assert forall|t: int| !occurs_at(hay@, needle@, t, fold) by {
        if 0 <= t <= last {
        }
    }
    false
}

} // verus!

verus! {

pub open spec fn digit_char(d: nat) -> char {
    "0123456789"@[d as int]
}

/// Decimal digits of `n`, most significant first, without leading zeros.
pub open spec fn decimal_digits(n: nat) -> Seq<char>
    decreases n,
{
    if n < 10 {
        seq![digit_char(n)]
    } else {
        decimal_digits(n / 10).push(digit_char(n % 10))
    }
}

fn digit_text(d: u64) -> (r: &'static str)
    requires
        d < 10,
    ensures
        r@ == seq![digit_char(d as nat)],
{
    proof {
        reveal_strlit("0123456789");
    }
    let all: &'static str = "0123456789";
    let r = all.substring_char(d as usize, (d + 1) as usize);
    assert(r@ =~= seq![digit_char(d as nat)]);
    r
}

/// `n` written in decimal.
pub fn decimal_text(n: u64) -> (r: String)
    ensures
        r@ == decimal_digits(n as nat),
    decreases n,
{
    if n < 10 {
        String::from_str(digit_text(n))
    } else {
        let head = decimal_text(n / 10);
        let r = head.concat(digit_text(n % 10));
        assert(r@ =~= decimal_digits(n as nat));
        r
    }
}

} // verus!
