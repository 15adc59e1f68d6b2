//! Characters of a line: white space, prefixes, trimming and decimal numbers.

use vstd::prelude::*;
use vstd::string::*;

verus! {

/// Whether `c` has the Unicode property `White_Space`.
pub open spec fn is_space(c: char) -> bool {
    let n = c as u32;
    ||| 0x09 <= n <= 0x0D
    ||| n == 0x20
    ||| n == 0x85
    ||| n == 0xA0
    ||| n == 0x1680
    ||| 0x2000 <= n <= 0x200A
    ||| n == 0x2028
    ||| n == 0x2029
    ||| n == 0x202F
    ||| n == 0x205F
    ||| n == 0x3000
}

/// `s` without the white space it begins with.
pub open spec fn trim_start(s: Seq<char>) -> Seq<char>
    decreases s.len(),
{
    if s.len() > 0 && is_space(s[0]) {
        trim_start(s.drop_first())
    } else {
        s
    }
}

/// `s` without the white space it ends with.
pub open spec fn trim_end(s: Seq<char>) -> Seq<char>
    decreases s.len(),
{
    if s.len() > 0 && is_space(s.last()) {
        trim_end(s.drop_last())
    } else {
        s
    }
}

/// `s` without white space at either end.
pub open spec fn trim(s: Seq<char>) -> Seq<char> {
    trim_end(trim_start(s))
}

/// Whether `c` is one of the ten ASCII digits.
pub open spec fn is_digit(c: char) -> bool {
    0x30 <= c as u32 <= 0x39
}

/// The number that the digit `c` stands for.
pub open spec fn digit_value(c: char) -> nat {
    (c as u32 - 0x30) as nat
}

/// Whether `s` holds ASCII digits only.
pub open spec fn all_digits(s: Seq<char>) -> bool {
    forall|i: int| 0 <= i < s.len() ==> is_digit(#[trigger] s[i])
}

/// The number that the digits `s` write in base ten, most significant first.
pub open spec fn digits_value(s: Seq<char>) -> nat
    decreases s.len(),
{
    if s.len() == 0 {
        0
    } else {
        digits_value(s.drop_last()) * 10 + digit_value(s.last())
    }
}

/// `s` without one leading plus sign.
pub open spec fn without_sign(s: Seq<char>) -> Seq<char> {
    if s.len() > 0 && s[0] == '+' {
        s.drop_first()
    } else {
        s
    }
}

/// The unsigned 64-bit number that `s` writes: an optional plus sign, then at
/// least one ASCII digit and nothing else, the value no larger than
/// `u64::MAX`. Any other text writes no number.
pub open spec fn decimal_u64(s: Seq<char>) -> Option<u64> {
    let d = without_sign(s);
    if d.len() > 0 && all_digits(d) && digits_value(d) <= u64::MAX {
        Some(digits_value(d) as u64)
    } else {
        None
    }
}

/// Trimming at the start keeps what follows the first `a` characters, where
/// those are white space and the next one is not.
pub proof fn lemma_trim_start_at(s: Seq<char>, a: int)
    requires
        0 <= a <= s.len(),
        forall|i: int| 0 <= i < a ==> is_space(#[trigger] s[i]),
        a < s.len() ==> !is_space(s[a]),
    ensures
        trim_start(s) == s.subrange(a, s.len() as int),
    decreases a,
{
    if a == 0 {
        assert(s.subrange(0, s.len() as int) =~= s);
    } else {
        let t = s.drop_first();
        assert(is_space(s[0]));
        assert forall|i: int| 0 <= i < a - 1 implies is_space(#[trigger] t[i]) by {
            assert(t[i] == s[i + 1]);
        }
        lemma_trim_start_at(t, a - 1);
        assert(t.subrange(a - 1, t.len() as int) =~= s.subrange(a, s.len() as int));
    }
}

/// Trimming at the end keeps the first `b` characters, where all after them
/// are white space and the one before is not.
pub proof fn lemma_trim_end_at(s: Seq<char>, b: int)
    requires
        0 <= b <= s.len(),
        forall|i: int| b <= i < s.len() ==> is_space(#[trigger] s[i]),
        b > 0 ==> !is_space(s[b - 1]),
    ensures
        trim_end(s) == s.subrange(0, b),
    decreases s.len() - b,
{
    if b == s.len() {
        assert(s.subrange(0, b) =~= s);
    } else {
        let t = s.drop_last();
        assert(is_space(s.last()));
        lemma_trim_end_at(t, b);
        assert(t.subrange(0, b) =~= s.subrange(0, b));
    }
}

/// Trimming at the end keeps a first character that is no white space.
pub proof fn lemma_trim_end_keeps_first(s: Seq<char>)
    requires
        s.len() > 0,
        !is_space(s[0]),
    ensures
        trim_end(s).len() > 0,
        trim_end(s)[0] == s[0],
    decreases s.len(),
{
    if is_space(s.last()) {
        lemma_trim_end_keeps_first(s.drop_last());
    }
}

/// The digits read so far never write more than the whole does.
pub proof fn lemma_digits_value_prefix(s: Seq<char>, k: int)
    requires
        0 <= k <= s.len(),
    ensures
        digits_value(s.take(k)) <= digits_value(s),
    decreases s.len() - k,
{
    if k == s.len() {
        assert(s.take(k) =~= s);
    } else {
        lemma_digits_value_prefix(s.drop_last(), k);
        assert(s.drop_last().take(k) =~= s.take(k));
    }
}

/// The characters of `s`, in order.
pub fn chars_of(s: &str) -> (v: Vec<char>)
    ensures
        v@ == s@,
{
    let mut v: Vec<char> = Vec::new();
    proof {
        broadcast use axiom_spec_iter;
    }
    for c in it: s.chars()
        invariant
            v@.len() == it.index(),
            it.seq() == s@,
            forall|i: int| 0 <= i < v@.len() ==> v@[i] == it.seq()[i],
    {
        v.push(c);
    }
    assert(v@ =~= s@);
    v
}

/// Tells white space from other characters.
pub fn is_whitespace(c: char) -> (b: bool)
    ensures
        b == is_space(c),
{
    let n: u32 = c as u32;
    (0x09 <= n && n <= 0x0D) || n == 0x20 || n == 0x85 || n == 0xA0 || n == 0x1680 || (0x2000 <= n
        && n <= 0x200A) || n == 0x2028 || n == 0x2029 || n == 0x202F || n == 0x205F || n == 0x3000
}

/// Whether `s` begins with `prefix`.
pub fn starts_with(s: &[char], prefix: &[char]) -> (b: bool)
    ensures
        b == prefix@.is_prefix_of(s@),
{
    if prefix.len() > s.len() {
        return false;
    }
    let mut i: usize = 0;
    while i < prefix.len()
        invariant
            i <= prefix.len() <= s.len(),
            forall|j: int| 0 <= j < i ==> prefix@[j] == s@[j],
        decreases prefix.len() - i,
    {
        if prefix[i] != s[i] {
            assert(s@.subrange(0, prefix@.len() as int)[i as int] != prefix@[i as int]);
            return false;
        }
        i += 1;
    }
    assert(prefix@ =~= s@.subrange(0, prefix@.len() as int));
    true
}

/// Where `s` without the white space at both ends begins and ends.
pub fn trim_bounds(s: &[char]) -> (bounds: (usize, usize))
    ensures
        bounds.0 <= bounds.1 <= s@.len(),
        s@.subrange(bounds.0 as int, bounds.1 as int) == trim(s@),
{
    let n = s.len();
    let mut a: usize = 0;
    while a < n && is_whitespace(s[a])
        invariant
            a <= n == s@.len(),
            forall|i: int| 0 <= i < a ==> is_space(#[trigger] s@[i]),
        decreases n - a,
    {
        a += 1;
    }
    let mut b: usize = n;
    while b > a && is_whitespace(s[b - 1])
        invariant
            a <= b <= n == s@.len(),
            forall|i: int| b <= i < n ==> is_space(#[trigger] s@[i]),
        decreases b,
    {
        b -= 1;
    }
    proof {
        let rest = s@.subrange(a as int, n as int);
        lemma_trim_start_at(s@, a as int);
        assert forall|i: int| b - a <= i < rest.len() implies is_space(#[trigger] rest[i]) by {
            assert(rest[i] == s@[i + a]);
        }
        lemma_trim_end_at(rest, b - a);
        assert(rest.subrange(0, b - a) =~= s@.subrange(a as int, b as int));
    }
    (a, b)
}

/// `s` without the white space at both ends.
pub fn trimmed<'a>(s: &'a str) -> (t: &'a str)
    ensures
        t@ == trim(s@),
{
    let chars = chars_of(s);
    let (a, b) = trim_bounds(chars.as_slice());
    s.substring_char(a, b)
}

/// Whether `s`, with the white space at both ends taken off, is `target`.
pub fn trimmed_equals(s: &[char], target: &[char]) -> (b: bool)
    ensures
        b == (trim(s@) == target@),
{
    let (a, b) = trim_bounds(s);
    if b - a != target.len() {
        return false;
    }
    let mut i: usize = 0;
    while i < target.len()
        invariant
            a <= b <= s@.len(),
            b - a == target@.len(),
            i <= target.len(),
            trim(s@) == s@.subrange(a as int, b as int),
            forall|j: int| 0 <= j < i ==> target@[j] == s@[a + j],
        decreases target.len() - i,
    {
        if target[i] != s[a + i] {
            assert(s@.subrange(a as int, b as int)[i as int] != target@[i as int]);
            return false;
        }
        i += 1;
    }
    assert(s@.subrange(a as int, b as int) =~= target@);
    true
}

/// Reads `s` as an unsigned 64-bit decimal number.
pub fn parse_u64(s: &[char]) -> (r: Option<u64>)
    ensures
        r == decimal_u64(s@),
{
    let n = s.len();
    let start: usize = if n > 0 && s[0] == '+' {
        1
    } else {
        0
    };
    let ghost d = without_sign(s@);
    assert(d =~= s@.subrange(start as int, n as int));
    if start == n {
        return None;
    }
    let mut acc: u64 = 0;
    let mut i: usize = start;
    assert(d.take(0) =~= Seq::<char>::empty());
    while i < n
        invariant
            start <= i <= n == s@.len(),
            d == s@.subrange(start as int, n as int),
            d == without_sign(s@),
            all_digits(d.take(i - start)),
            acc == digits_value(d.take(i - start)),
        decreases n - i,
    {
        let c = s[i];
        let code: u32 = c as u32;
        assert(d[i - start] == c);
        if code < 0x30 || code > 0x39 {
            assert(!is_digit(d[i - start]));
            return None;
        }
        let digit: u64 = (code - 0x30) as u64;
        proof {
            let next = d.take(i - start + 1);
            assert(next.drop_last() =~= d.take(i - start));
            assert(next.last() == c);
            assert(digits_value(next) == acc * 10 + digit);
            lemma_digits_value_prefix(d, i - start + 1);
            assert forall|j: int| 0 <= j < next.len() implies is_digit(#[trigger] next[j]) by {
                if j < i - start {
                    assert(d.take(i - start)[j] == next[j]);
                }
            }
        }
        let shifted = match acc.checked_mul(10) {
            Some(v) => v,
            None => {
                return None;
            },
        };
        acc = match shifted.checked_add(digit) {
            Some(v) => v,
            None => {
                return None;
            },
        };
        i += 1;
    }
    assert(d.take(n - start) =~= d);
    Some(acc)
}

} // verus!
