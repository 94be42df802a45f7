//! Character sequences: white space, trimming, splitting, searching and
//! unsigned decimal numbers.

use vstd::prelude::*;

verus! {

/// Whether `c` has Unicode's `White_Space` property.
pub open spec fn is_space(c: char) -> bool {
    let u = c as u32;
    ||| 0x09 <= u <= 0x0d
    ||| u == 0x20
    ||| u == 0x85
    ||| u == 0xa0
    ||| u == 0x1680
    ||| 0x2000 <= u <= 0x200a
    ||| u == 0x2028
    ||| u == 0x2029
    ||| u == 0x202f
    ||| u == 0x205f
    ||| u == 0x3000
}

/// `s` without the white space at its start.
pub open spec fn trim_start(s: Seq<char>) -> Seq<char>
    decreases s.len(),
{
    if s.len() > 0 && is_space(s[0]) {
        trim_start(s.drop_first())
    } else {
        s
    }
}

/// `s` without the white space at its end.
pub open spec fn trim_end(s: Seq<char>) -> Seq<char>
    decreases s.len(),
{
    if s.len() > 0 && is_space(s.last()) {
        trim_end(s.drop_last())
    } else {
        s
    }
}

/// `s` without the white space at either end.
pub open spec fn trim(s: Seq<char>) -> Seq<char> {
    trim_end(trim_start(s))
}

/// Whether `needle` stands in `hay` at index `i`.
pub open spec fn occurs_at(hay: Seq<char>, needle: Seq<char>, i: int) -> bool {
    0 <= i && i + needle.len() <= hay.len() && hay.subrange(i, i + needle.len()) == needle
}

/// Whether `needle` stands somewhere in `hay`.
pub open spec fn contains(hay: Seq<char>, needle: Seq<char>) -> bool {
    exists|i: int| occurs_at(hay, needle, i)
}

/// Whether `hay` begins with `needle`.
pub open spec fn starts_with(hay: Seq<char>, needle: Seq<char>) -> bool {
    occurs_at(hay, needle, 0)
}

/// Whether `hay` ends with `needle`.
pub open spec fn ends_with(hay: Seq<char>, needle: Seq<char>) -> bool {
    occurs_at(hay, needle, hay.len() - needle.len())
}

/// The index of the first `c` in `s`, or the length of `s` where it has none.
pub open spec fn position(s: Seq<char>, c: char) -> int
    decreases s.len(),
{
    if s.len() == 0 || s[0] == c {
        0
    } else {
        1 + position(s.drop_first(), c)
    }
}

/// The pieces of `s` between the occurrences of `sep`: one more piece than
/// there are separators, empty pieces included.
pub open spec fn split(s: Seq<char>, sep: char) -> Seq<Seq<char>>
    decreases s.len(),
{
    let k = position(s, sep);
    if 0 <= k < s.len() {
        seq![s.take(k)] + split(s.skip(k + 1), sep)
    } else {
        seq![s]
    }
}

/// The first index from `from` on at which `needle` stands in `hay`.
pub open spec fn first_at(hay: Seq<char>, needle: Seq<char>, from: int) -> Option<int>
    decreases hay.len() - from,
{
    if from < 0 || from + needle.len() > hay.len() {
        None
    } else if occurs_at(hay, needle, from) {
        Some(from)
    } else if from + needle.len() == hay.len() {
        None
    } else {
        first_at(hay, needle, from + 1)
    }
}

/// Whether `c` is one of the ten decimal digits.
pub open spec fn is_digit(c: char) -> bool {
    0x30 <= c as u32 <= 0x39
}

/// Whether `s` holds decimal digits only.
pub open spec fn all_digits(s: Seq<char>) -> bool {
    forall|i: int| 0 <= i < s.len() ==> is_digit(#[trigger] s[i])
}

/// The number that the decimal digits `s` write; 0 for no digits.
pub open spec fn digits_value(s: Seq<char>) -> nat
    decreases s.len(),
{
    if s.len() == 0 {
        0
    } else {
        10 * digits_value(s.drop_last()) + (s.last() as u32 - 0x30) as nat
    }
}

/// The number written by `s`, where `s` is one or more decimal digits and
/// the number is at most `max`.
pub open spec fn digits(s: Seq<char>, max: nat) -> Option<nat> {
    if s.len() > 0 && all_digits(s) && digits_value(s) <= max {
        Some(digits_value(s))
    } else {
        None
    }
}

/// The number written by `s` as Rust reads an unsigned integer: digits as in
/// [`digits`], with one `+` allowed before them.
pub open spec fn unsigned(s: Seq<char>, max: nat) -> Option<nat> {
    if s.len() > 0 && s[0] == '+' {
        digits(s.drop_first(), max)
    } else {
        digits(s, max)
    }
}

/// What index pairs cut out of `s`: for each pair the characters from its
/// first index up to its second.
pub open spec fn cut(s: Seq<char>, ranges: Seq<(usize, usize)>) -> Seq<Seq<char>> {
    Seq::new(ranges.len(), |k: int| s.subrange(ranges[k].0 as int, ranges[k].1 as int))
}

/// Whether every pair of `ranges` is a range of indices into `s`.
pub open spec fn in_bounds(s: Seq<char>, ranges: Seq<(usize, usize)>) -> bool {
    forall|k: int|
        0 <= k < ranges.len() ==> (#[trigger] ranges[k]).0 <= ranges[k].1 <= s.len()
}

/// `position` finds the first occurrence: nothing before it is `c`, and it is
/// either the end of `s` or an index of `c`.
pub proof fn lemma_position(s: Seq<char>, c: char)
    ensures
        0 <= position(s, c) <= s.len(),
        position(s, c) < s.len() ==> s[position(s, c)] == c,
        forall|j: int| 0 <= j < position(s, c) ==> s[j] != c,
    decreases s.len(),
{
    if s.len() == 0 || s[0] == c {
    } else {
        let t = s.drop_first();
        lemma_position(t, c);
        assert forall|j: int| 0 <= j < position(s, c) implies s[j] != c by {
            if j > 0 {
                assert(s[j] == t[j - 1]);
            }
        }
    }
}

/// An index with the two properties of [`lemma_position`] is the position.
pub proof fn lemma_position_is(s: Seq<char>, c: char, k: int)
    requires
        0 <= k <= s.len(),
        k < s.len() ==> s[k] == c,
        forall|j: int| 0 <= j < k ==> s[j] != c,
    ensures
        position(s, c) == k,
{
    lemma_position(s, c);
    let p = position(s, c);
    if p < k {
        assert(s[p] == c);
    } else if k < p {
        assert(s[k] == c);
    }
}

/// The value of a prefix of digits is at most the value of the whole.
pub proof fn lemma_digits_value_grows(s: Seq<char>, i: int)
    requires
        all_digits(s),
        0 <= i <= s.len(),
    ensures
        digits_value(s.take(i)) <= digits_value(s),
    decreases s.len() - i,
{
    if i == s.len() {
        assert(s.take(i) =~= s);
    } else {
        lemma_digits_value_grows(s, i + 1);
        let t = s.take(i + 1);
        assert(t.drop_last() =~= s.take(i));
        assert(is_digit(s[i]));
        assert(t.last() == s[i]);
    }
}

/// Tests a character for white space.
pub fn char_is_space(c: char) -> (r: bool)
    ensures
        r == is_space(c),
{
    let u: u32 = c as u32;
    (0x09 <= u && u <= 0x0d) || u == 0x20 || u == 0x85 || u == 0xa0 || u == 0x1680 || (0x2000 <= u
        && u <= 0x200a) || u == 0x2028 || u == 0x2029 || u == 0x202f || u == 0x205f || u == 0x3000
}

/// The characters of a string, in order.
pub fn to_chars(s: &str) -> (r: Vec<char>)
    ensures
        r@ == s@,
{
    let mut out: Vec<char> = Vec::new();
    for c in it: s.chars()
        invariant
            out@ == it.seq().take(it.index()),
            it.seq() == s@,
    {
        out.push(c);
    }
    out
}

/// The bounds of `s` without the white space at either end.
pub fn trim_bounds(s: &[char]) -> (r: (usize, usize))
    ensures
        r.0 <= r.1 <= s@.len(),
        s@.subrange(r.0 as int, r.1 as int) == trim(s@),
{
    let n = s.len();
    let mut a: usize = 0;
    assert(s@.skip(0) =~= s@);
    while a < n && char_is_space(s[a])
        invariant
            a <= n == s@.len(),
            trim_start(s@) == trim_start(s@.skip(a as int)),
        decreases n - a,
    {
        assert(s@.skip(a as int).drop_first() =~= s@.skip(a + 1));
        a += 1;
    }
    let mut b: usize = n;
    while b > a && char_is_space(s[b - 1])
        invariant
            a <= b <= n == s@.len(),
            trim_end(s@.skip(a as int)) == trim_end(s@.subrange(a as int, b as int)),
        decreases b,
    {
        assert(s@.subrange(a as int, b as int).drop_last() =~= s@.subrange(a as int, b - 1));
        b -= 1;
    }
    proof {
        assert(s@.skip(a as int) =~= s@.subrange(a as int, n as int));
    }
    (a, b)
}

/// Tests two runs of characters for equality.
pub fn same_chars(a: &[char], b: &[char]) -> (r: bool)
    ensures
        r == (a@ == b@),
{
    if a.len() != b.len() {
        return false;
    }
    let mut i: usize = 0;
    while i < a.len()
        invariant
            i <= a@.len() == b@.len(),
            a@.take(i as int) == b@.take(i as int),
        decreases a@.len() - i,
    {
        if a[i] != b[i] {
            return false;
        }
        assert(a@.take(i + 1) =~= a@.take(i as int).push(a@[i as int]));
        assert(b@.take(i + 1) =~= b@.take(i as int).push(b@[i as int]));
        i += 1;
    }
    assert(a@ =~= a@.take(i as int));
    assert(b@ =~= b@.take(i as int));
    true
}

/// Tests whether `needle` stands in `hay` at index `i`.
pub fn found_at(hay: &[char], needle: &[char], i: usize) -> (r: bool)
    ensures
        r == occurs_at(hay@, needle@, i as int),
{
    if i > hay.len() || needle.len() > hay.len() - i {
        return false;
    }
    same_chars(vstd::slice::slice_subrange(hay, i, i + needle.len()), needle)
}

/// Tests whether `hay` begins with `needle`.
pub fn begins_with(hay: &[char], needle: &[char]) -> (r: bool)
    ensures
        r == starts_with(hay@, needle@),
{
    found_at(hay, needle, 0)
}

/// Tests whether `hay` ends with `needle`.
pub fn finishes_with(hay: &[char], needle: &[char]) -> (r: bool)
    ensures
        r == ends_with(hay@, needle@),
{
    if needle.len() > hay.len() {
        return false;
    }
    found_at(hay, needle, hay.len() - needle.len())
}

/// Tests whether `needle` stands somewhere in `hay`.
pub fn has(hay: &[char], needle: &[char]) -> (r: bool)
    ensures
        r == contains(hay@, needle@),
{
    if needle.len() > hay.len() {
        return false;
    }
    let last = hay.len() - needle.len();
    let mut i: usize = 0;
    loop
        invariant
            i <= last,
            last == hay@.len() - needle@.len(),
            forall|j: int| 0 <= j < i ==> !occurs_at(hay@, needle@, j),
        decreases last - i,
    {
        if found_at(hay, needle, i) {
            return true;
        }
        if i == last {
            return false;
        }
        i += 1;
    }
}

/// The first index at which `needle` stands in `hay`.
pub fn find(hay: &[char], needle: &[char]) -> (r: Option<usize>)
    ensures
        match r {
            Some(i) => first_at(hay@, needle@, 0) == Some(i as int) && occurs_at(
                hay@,
                needle@,
                i as int,
            ),
            None => first_at(hay@, needle@, 0) is None,
        },
{
    if needle.len() > hay.len() {
        return None;
    }
    let last = hay.len() - needle.len();
    let mut i: usize = 0;
    loop
        invariant
            i <= last,
            last == hay@.len() - needle@.len(),
            first_at(hay@, needle@, 0) == first_at(hay@, needle@, i as int),
        decreases last - i,
    {
        if found_at(hay, needle, i) {
            return Some(i);
        }
        if i == last {
            return None;
        }
        i += 1;
    }
}

/// Cuts `s` at every `sep`, and returns the bounds of the pieces.
pub fn split_bounds(s: &[char], sep: char) -> (r: Vec<(usize, usize)>)
    ensures
        in_bounds(s@, r@),
        cut(s@, r@) == split(s@, sep),
{
    let n = s.len();
    let mut out: Vec<(usize, usize)> = Vec::new();
    let mut start: usize = 0;
    let mut i: usize = 0;
    assert(s@.skip(0) =~= s@);
    assert(cut(s@, out@) + split(s@, sep) =~= split(s@, sep));
    while i < n
        invariant
            start <= i <= n == s@.len(),
            in_bounds(s@, out@),
            split(s@, sep) == cut(s@, out@) + split(s@.skip(start as int), sep),
            forall|j: int| start <= j < i ==> s@[j] != sep,
        decreases n - i,
    {
        if s[i] == sep {
            proof {
                let rest = s@.skip(start as int);
                lemma_position_is(rest, sep, i - start);
                assert(rest.take(i - start) =~= s@.subrange(start as int, i as int));
                assert(rest.skip(i - start + 1) =~= s@.skip(i + 1));
                assert(cut(s@, out@.push((start, i))) =~= cut(s@, out@) + seq![
                    s@.subrange(start as int, i as int),
                ]);
            }
            out.push((start, i));
            start = i + 1;
        }
        i += 1;
    }
    proof {
        let rest = s@.skip(start as int);
        lemma_position_is(rest, sep, n - start);
        assert(rest =~= s@.subrange(start as int, n as int));
        assert(cut(s@, out@.push((start, n))) =~= cut(s@, out@) + seq![rest]);
    }
    out.push((start, n));
    out
}

/// Reads one or more decimal digits as a number of at most `max`.
pub fn read_digits(s: &[char], max: u32) -> (r: Option<u32>)
    ensures
        match r {
            Some(v) => digits(s@, max as nat) == Some(v as nat),
            None => digits(s@, max as nat) is None,
        },
{
    let n = s.len();
    if n == 0 {
        return None;
    }
    let mut acc: u64 = 0;
    let mut i: usize = 0;
    while i < n
        invariant
            i <= n == s@.len(),
            all_digits(s@.take(i as int)),
            acc == digits_value(s@.take(i as int)),
            acc <= max,
        decreases n - i,
    {
        let u: u32 = s[i] as u32;
        if u < 0x30 || u > 0x39 {
            assert(!is_digit(s@[i as int]));
            return None;
        }
        let next: u64 = acc * 10 + (u - 0x30) as u64;
        proof {
            let t = s@.take(i + 1);
            assert(t.drop_last() =~= s@.take(i as int));
            assert(t.last() == s@[i as int]);
            assert(all_digits(t)) by {
                assert forall|j: int| 0 <= j < t.len() implies is_digit(#[trigger] t[j]) by {
                    if j < i {
                        assert(t[j] == s@.take(i as int)[j]);
                    }
                }
            }
            assert(next == digits_value(t));
        }
        if next > max as u64 {
            proof {
                if all_digits(s@) {
                    lemma_digits_value_grows(s@, i + 1);
                }
            }
            return None;
        }
        acc = next;
        i += 1;
    }
    assert(s@.take(i as int) =~= s@);
    Some(acc as u32)
}

/// Reads an unsigned decimal number of at most `max`, with one `+` allowed
/// before its digits.
pub fn read_unsigned(s: &[char], max: u32) -> (r: Option<u32>)
    ensures
        match r {
            Some(v) => unsigned(s@, max as nat) == Some(v as nat),
            None => unsigned(s@, max as nat) is None,
        },
{
    if s.len() > 0 && s[0] == '+' {
        let rest = vstd::slice::slice_subrange(s, 1, s.len());
        assert(rest@ =~= s@.drop_first());
        read_digits(rest, max)
    } else {
        read_digits(s, max)
    }
}

/// The piece of `s` that the `k`-th pair of `ranges` cuts out.
pub fn piece<'a>(s: &'a [char], ranges: &Vec<(usize, usize)>, k: usize) -> (r: &'a [char])
    requires
        in_bounds(s@, ranges@),
        k < ranges@.len(),
    ensures
        r@ == cut(s@, ranges@)[k as int],
{
    let (a, b) = ranges[k];
    vstd::slice::slice_subrange(s, a, b)
}

/// Tests whether the characters `s` are those of `word`.
pub fn is_word(s: &[char], word: &str) -> (r: bool)
    ensures
        r == (s@ == word@),
{
    let w = to_chars(word);
    same_chars(s, w.as_slice())
}

} // verus!
