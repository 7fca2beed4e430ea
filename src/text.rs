//! Small text routines: decimal numbers and substring search.
use vstd::prelude::*;

verus! {

/// The character of a decimal digit `d < 10`.
pub open spec fn digit_char(d: nat) -> char {
    if d == 0 {
        '0'
    } else if d == 1 {
        '1'
    } else if d == 2 {
        '2'
    } else if d == 3 {
        '3'
    } else if d == 4 {
        '4'
    } else if d == 5 {
        '5'
    } else if d == 6 {
        '6'
    } else if d == 7 {
        '7'
    } else if d == 8 {
        '8'
    } else {
        '9'
    }
}

/// `n` written in decimal, without leading zeros.
pub open spec fn decimal(n: nat) -> Seq<char>
    decreases n,
{
    if n < 10 {
        seq![digit_char(n)]
    } else {
        decimal(n / 10).push(digit_char(n % 10))
    }
}

pub open spec fn is_digit(c: char) -> bool {
    '0' <= c && c <= '9'
}

pub open spec fn digit_value(c: char) -> nat {
    (c as u32 - '0' as u32) as nat
}

/// The value of a string of decimal digits.
pub open spec fn digits_value(s: Seq<char>) -> nat
    decreases s.len(),
{
    if s.len() == 0 {
        0
    } else {
        digits_value(s.drop_last()) * 10 + digit_value(s.last())
    }
}

pub open spec fn all_digits(s: Seq<char>) -> bool {
    forall|i: int| 0 <= i < s.len() ==> is_digit(#[trigger] s[i])
}

/// The digits of an unsigned number as text: a leading `+` is allowed.
pub open spec fn unsigned_digits(s: Seq<char>) -> Seq<char> {
    if s.len() > 0 && s[0] == '+' {
        s.drop_first()
    } else {
        s
    }
}

/// `s` is the text of a `u16`: an optional `+` followed by at least one
/// decimal digit, with a value that fits in 16 bits.
pub open spec fn is_u16_text(s: Seq<char>) -> bool {
    let d = unsigned_digits(s);
    d.len() > 0 && all_digits(d) && digits_value(d) <= 65535
}

/// `needle` occurs in `hay` at position `i`.
pub open spec fn occurs_at(hay: Seq<char>, needle: Seq<char>, i: int) -> bool {
    0 <= i && i + needle.len() <= hay.len() && hay.subrange(i, i + needle.len()) == needle
}

pub open spec fn occurs_in(hay: Seq<char>, needle: Seq<char>) -> bool {
    exists|i: int| occurs_at(hay, needle, i)
}

proof fn lemma_prefix_value_le(s: Seq<char>, i: int)
    requires
        0 <= i <= s.len(),
    ensures
        digits_value(s.subrange(0, i)) <= digits_value(s),
    decreases s.len(),
{
    if i < s.len() {
        let p = s.drop_last();
        assert(p.subrange(0, i) =~= s.subrange(0, i));
        lemma_prefix_value_le(p, i);
    } else {
        assert(s.subrange(0, i) =~= s);
    }
}

fn digit_text(d: u16) -> (r: &'static str)
    requires
        d < 10,
    ensures
        r@ == seq![digit_char(d as nat)],
{
    if d == 0 {
        proof { reveal_strlit("0"); }
        "0"
    } else if d == 1 {
        proof { reveal_strlit("1"); }
        "1"
    } else if d == 2 {
        proof { reveal_strlit("2"); }
        "2"
    } else if d == 3 {
        proof { reveal_strlit("3"); }
        "3"
    } else if d == 4 {
        proof { reveal_strlit("4"); }
        "4"
    } else if d == 5 {
        proof { reveal_strlit("5"); }
        "5"
    } else if d == 6 {
        proof { reveal_strlit("6"); }
        "6"
    } else if d == 7 {
        proof { reveal_strlit("7"); }
        "7"
    } else if d == 8 {
        proof { reveal_strlit("8"); }
        "8"
    } else {
        proof { reveal_strlit("9"); }
        "9"
    }
}

/// Writes `n` in decimal.
pub fn decimal_text(n: u16) -> (r: String)
    ensures
        r@ == decimal(n as nat),
    decreases n,
{
    if n < 10 {
        String::from_str(digit_text(n))
    } else {
        let head = decimal_text(n / 10);
        head.concat(digit_text(n % 10))
    }
}

/// Reads a `u16` written as an optional `+` and decimal digits.
pub fn parse_u16(s: &str) -> (r: Option<u16>)
    ensures
        r is Some <==> is_u16_text(s@),
        r is Some ==> r->0 as nat == digits_value(unsigned_digits(s@)),
{
    let len = s.unicode_len();
    let ghost d = unsigned_digits(s@);
    let start: usize = if len > 0 && s.get_char(0) == '+' {
        1
    } else {
        0
    };
    assert(d =~= s@.subrange(start as int, len as int));
    if start == len {
        return None;
    }
    let mut value: u32 = 0;
    let mut i: usize = start;
    assert(d.subrange(0, 0) =~= Seq::<char>::empty());
    while i < len
        invariant
            start <= i <= len,
            len == s@.len(),
            d == s@.subrange(start as int, len as int),
            d == unsigned_digits(s@),
            value <= 65535,
            value as nat == digits_value(d.subrange(0, i - start)),
            all_digits(d.subrange(0, i - start)),
        decreases len - i,
    {
        let c = s.get_char(i);
        assert(d[i - start] == c);
        if c < '0' || c > '9' {
            assert(!is_digit(d[i - start]));
            return None;
        }
        let ghost prev = d.subrange(0, i - start);
        let ghost next = d.subrange(0, i - start + 1);
        assert(next.drop_last() =~= prev);
        assert(next.last() == c);
        value = value * 10 + (c as u32 - '0' as u32);
        assert(digits_value(next) == value as nat);
        assert(all_digits(next)) by {
            assert forall|k: int| 0 <= k < next.len() implies is_digit(#[trigger] next[k]) by {
                if k < prev.len() {
                    assert(next[k] == prev[k]);
                }
            }
        }
        i = i + 1;
        if value > 65535 {
            proof {
                lemma_prefix_value_le(d, i - start);
            }
            return None;
        }
    }
    assert(d.subrange(0, len - start) =~= d);
    Some(value as u16)
}

fn occurs_at_exec(hay: &str, needle: &str, i: usize) -> (r: bool)
    requires
        i + needle@.len() <= hay@.len(),
    ensures
        r == occurs_at(hay@, needle@, i as int),
{
    let h = hay.unicode_len();
    let n = needle.unicode_len();
    let mut k: usize = 0;
    while k < n
        invariant
            n == needle@.len(),
            h == hay@.len(),
            i + n <= h,
            k <= n,
            hay@.subrange(i as int, i + k) == needle@.subrange(0, k as int),
        decreases n - k,
    {
        if hay.get_char(i + k) != needle.get_char(k) {
            assert(hay@.subrange(i as int, i + n)[k as int] != needle@[k as int]);
            return false;
        }
        assert(hay@.subrange(i as int, i + k + 1) =~= hay@.subrange(i as int, i + k).push(
            hay@[i + k],
        ));
        assert(needle@.subrange(0, k + 1) =~= needle@.subrange(0, k as int).push(needle@[k as int]));
        k = k + 1;
    }
    assert(needle@.subrange(0, n as int) =~= needle@);
    true
}

/// Whether `needle` occurs in `hay`.
pub fn contains(hay: &str, needle: &str) -> (r: bool)
    ensures
        r == occurs_in(hay@, needle@),
{
    let h = hay.unicode_len();
    let n = needle.unicode_len();
    if n > h {
        return false;
    }
    let mut i: usize = 0;
    loop
        invariant
            h == hay@.len(),
            n == needle@.len(),
            n <= h,
            i <= h - n,
            forall|j: int| 0 <= j < i ==> !occurs_at(hay@, needle@, j),
        decreases h - n - i,
    {
        if occurs_at_exec(hay, needle, i) {
            return true;
        }
        if i == h - n {
            assert forall|j: int| !occurs_at(hay@, needle@, j) by {
                if 0 <= j && j < i {
                }
            }
            return false;
        }
        i = i + 1;
    }
}

} // verus!
