//! Character-level text operations with exact contracts over `Seq<char>`.

use vstd::prelude::*;
use vstd::string::StringExecFns;

verus! {

/// `String::push` appends one character.
pub assume_specification[ String::push ](s: &mut String, c: char)
    ensures
        final(s)@ == old(s)@.push(c),
;

/// `c` has the Unicode property `White_Space`: it is one of the controls
/// from tab to carriage return, the space, the next-line control, the
/// no-break space, the Ogham space mark, one of the spaces from en quad to
/// hair space, the line or the paragraph separator, the narrow no-break
/// space, the medium mathematical space or the ideographic space.
pub open spec fn is_whitespace(c: char) -> bool {
    let code = c as u32;
    ||| 0x0009 <= code <= 0x000D
    ||| code == 0x0020
    ||| code == 0x0085
    ||| code == 0x00A0
    ||| code == 0x1680
    ||| 0x2000 <= code <= 0x200A
    ||| code == 0x2028
    ||| code == 0x2029
    ||| code == 0x202F
    ||| code == 0x205F
    ||| code == 0x3000
}

/// Name for the result of `str::to_lowercase`: the Unicode lowercase form.
pub uninterp spec fn lowercase(s: Seq<char>) -> Seq<char>;

/// Whether `c` has the Unicode property `White_Space`.
pub fn char_is_whitespace(c: char) -> (r: bool)
    ensures
        r == is_whitespace(c),
{
    let code: u32 = c as u32;
    (0x0009 <= code && code <= 0x000D) || code == 0x0020 || code == 0x0085 || code == 0x00A0
        || code == 0x1680 || (0x2000 <= code && code <= 0x200A) || code == 0x2028 || code
        == 0x2029 || code == 0x202F || code == 0x205F || code == 0x3000
}

/// Calls `str::to_lowercase`. The result depends on the characters alone.
#[verifier::external_body]
pub(crate) fn to_lowercase(s: &str) -> (r: String)
    ensures
        r@ == lowercase(s@),
{
    s.to_lowercase()
}

/// The models of a sequence of strings.
pub open spec fn strings_view(strings: Seq<String>) -> Seq<Seq<char>> {
    Seq::new(strings.len(), |i: int| strings[i]@)
}

/// The characters of a string, in order.
pub fn chars_of(s: &str) -> (r: Vec<char>)
    ensures
        r@ == s@,
{
    broadcast use vstd::string::group_string_axioms;

    let mut out: Vec<char> = Vec::new();
    let chars = s.chars();
    for c in it: chars
        invariant
            it.seq() == s@,
            out@ == s@.subrange(0, it.index()),
    {
        out.push(c);
    }
    assert(out@ =~= s@);
    out
}

/// The string made of `chars[from..to]`.
pub fn string_of_range(chars: &Vec<char>, from: usize, to: usize) -> (r: String)
    requires
        from <= to <= chars@.len(),
    ensures
        r@ == chars@.subrange(from as int, to as int),
{
    let mut out = String::new();
    let mut i: usize = from;
    while i < to
        invariant
            from <= i <= to <= chars@.len(),
            out@ == chars@.subrange(from as int, i as int),
        decreases to - i,
    {
        out.push(chars[i]);
        i += 1;
        assert(out@ =~= chars@.subrange(from as int, i as int));
    }
    out
}

/// The string made of all of `chars`.
pub fn string_of(chars: &Vec<char>) -> (r: String)
    ensures
        r@ == chars@,
{
    let r = string_of_range(chars, 0, chars.len());
    assert(chars@.subrange(0, chars@.len() as int) =~= chars@);
    r
}

/// `needle` stands in `hay` at index `i`.
pub open spec fn occurs_at(hay: Seq<char>, needle: Seq<char>, i: int) -> bool {
    0 <= i && i + needle.len() <= hay.len() && hay.subrange(i, i + needle.len()) == needle
}

/// `needle` stands somewhere in `hay`.
pub open spec fn contains(hay: Seq<char>, needle: Seq<char>) -> bool {
    exists|i: int| occurs_at(hay, needle, i)
}

/// The first index at or after `from` at which `needle` stands in `hay`.
pub open spec fn find_from(hay: Seq<char>, needle: Seq<char>, from: int) -> Option<int>
    decreases hay.len() + 1 - from,
{
    if from < 0 || from + needle.len() > hay.len() {
        None
    } else if occurs_at(hay, needle, from) {
        Some(from)
    } else {
        find_from(hay, needle, from + 1)
    }
}

/// `find_from` returns the least occurrence at or after `from`, and `None`
/// exactly when there is none.
pub proof fn lemma_find_from(hay: Seq<char>, needle: Seq<char>, from: int)
    requires
        0 <= from,
    ensures
        match find_from(hay, needle, from) {
            Some(i) => from <= i && occurs_at(hay, needle, i) && forall|j: int|
                from <= j < i ==> !occurs_at(hay, needle, j),
            None => forall|j: int| from <= j ==> !occurs_at(hay, needle, j),
        },
    decreases hay.len() + 1 - from,
{
    if from + needle.len() > hay.len() {
    } else if occurs_at(hay, needle, from) {
    } else {
        lemma_find_from(hay, needle, from + 1);
    }
}

/// `contains` is `find_from` at index zero.
pub proof fn lemma_contains_is_find(hay: Seq<char>, needle: Seq<char>)
    ensures
        contains(hay, needle) <==> find_from(hay, needle, 0) is Some,
{
    lemma_find_from(hay, needle, 0);
    if find_from(hay, needle, 0) is Some {
        assert(occurs_at(hay, needle, find_from(hay, needle, 0)->0));
    }
}

/// Whether `needle` stands in `hay` at index `at`.
fn matches_at(hay: &Vec<char>, needle: &Vec<char>, at: usize) -> (r: bool)
    requires
        at + needle@.len() <= hay@.len(),
    ensures
        r == occurs_at(hay@, needle@, at as int),
{
    let width: usize = needle.len();
    let total: usize = hay.len();
    let mut k: usize = 0;
    while k < width
        invariant
            k <= width == needle@.len(),
            at + width <= total == hay@.len(),
            forall|j: int| 0 <= j < k ==> hay@[at + j] == needle@[j],
        decreases needle@.len() - k,
    {
        if hay[at + k] != needle[k] {
            assert(hay@.subrange(at as int, at + needle@.len())[k as int] != needle@[k as int]);
            return false;
        }
        k += 1;
    }
    assert(hay@.subrange(at as int, at + needle@.len()) =~= needle@);
    true
}

/// Finds the first index at or after `from` at which `needle` stands in `hay`.
pub fn find(hay: &Vec<char>, needle: &Vec<char>, from: usize) -> (r: Option<usize>)
    ensures
        match r {
            Some(i) => find_from(hay@, needle@, from as int) == Some(i as int),
            None => find_from(hay@, needle@, from as int) is None,
        },
{
    if needle.len() > hay.len() || from > hay.len() - needle.len() {
        return None;
    }
    let last: usize = hay.len() - needle.len();
    let mut i: usize = from;
    loop
        invariant
            from <= i <= last,
            last == hay@.len() - needle@.len(),
            find_from(hay@, needle@, from as int) == find_from(hay@, needle@, i as int),
        decreases last - i,
    {
        if matches_at(hay, needle, i) {
            return Some(i);
        }
        if i == last {
            return None;
        }
        i += 1;
    }
}

/// `s` without its leading whitespace.
pub open spec fn trim_start(s: Seq<char>) -> Seq<char>
    decreases s.len(),
{
    if s.len() > 0 && is_whitespace(s[0]) {
        trim_start(s.subrange(1, s.len() as int))
    } else {
        s
    }
}

/// `s` without its trailing whitespace.
pub open spec fn trim_end(s: Seq<char>) -> Seq<char>
    decreases s.len(),
{
    if s.len() > 0 && is_whitespace(s[s.len() - 1]) {
        trim_end(s.subrange(0, s.len() - 1))
    } else {
        s
    }
}

/// `s` without its leading and trailing whitespace.
pub open spec fn trimmed(s: Seq<char>) -> Seq<char> {
    trim_end(trim_start(s))
}

/// Nothing but whitespace stands in `s`.
pub open spec fn is_blank(s: Seq<char>) -> bool {
    trimmed(s).len() == 0
}

/// The bounds, within `chars[from..to]`, of what is left when the leading and
/// trailing whitespace is taken away.
pub fn trim_bounds(chars: &Vec<char>, from: usize, to: usize) -> (r: (usize, usize))
    requires
        from <= to <= chars@.len(),
    ensures
        from <= r.0 <= r.1 <= to,
        chars@.subrange(r.0 as int, r.1 as int) == trimmed(chars@.subrange(from as int, to as int)),
{
    let mut start: usize = from;
    while start < to && char_is_whitespace(chars[start])
        invariant
            from <= start <= to <= chars@.len(),
            trim_start(chars@.subrange(from as int, to as int)) == trim_start(
                chars@.subrange(start as int, to as int),
            ),
        decreases to - start,
    {
        assert(chars@.subrange(start as int, to as int).subrange(1, to - start)
            =~= chars@.subrange(start + 1, to as int));
        start += 1;
    }
    let mut end: usize = to;
    while end > start && char_is_whitespace(chars[end - 1])
        invariant
            start <= end <= to <= chars@.len(),
            trimmed(chars@.subrange(from as int, to as int)) == trim_end(
                chars@.subrange(start as int, end as int),
            ),
        decreases end - start,
    {
        assert(chars@.subrange(start as int, end as int).subrange(0, end - start - 1)
            =~= chars@.subrange(start as int, end - 1));
        end -= 1;
    }
    (start, end)
}

/// A copy of `s` without its leading and trailing whitespace.
pub fn trim(s: &str) -> (r: String)
    ensures
        r@ == trimmed(s@),
{
    let chars = chars_of(s);
    assert(chars@.subrange(0, chars@.len() as int) =~= chars@);
    let (start, end) = trim_bounds(&chars, 0, chars.len());
    string_of_range(&chars, start, end)
}

/// Whether nothing but whitespace stands in `s`.
pub fn is_blank_text(s: &str) -> (r: bool)
    ensures
        r == is_blank(s@),
{
    let chars = chars_of(s);
    assert(chars@.subrange(0, chars@.len() as int) =~= chars@);
    let (start, end) = trim_bounds(&chars, 0, chars.len());
    start == end
}

/// Whether `s` reads `literal`.
pub fn text_is(s: &str, literal: &str) -> (r: bool)
    ensures
        r == (s@ == literal@),
{
    s.to_owned() == literal.to_owned()
}

/// The part of `s` behind the last of the occurrences of `sep` that a scan
/// from the left finds, each scan starting behind the occurrence before it.
/// All of `s` where `sep` is empty or does not occur.
pub open spec fn last_segment(s: Seq<char>, sep: Seq<char>) -> Seq<char>
    decreases s.len(),
{
    match find_from(s, sep, 0) {
        Some(i) if sep.len() > 0 && 0 <= i && i + sep.len() <= s.len() => last_segment(
            s.subrange(i + sep.len(), s.len() as int),
            sep,
        ),
        _ => s,
    }
}

/// The index in `hay` at which `last_segment(hay, sep)` starts.
pub fn last_segment_start(hay: &Vec<char>, sep: &Vec<char>) -> (start: usize)
    ensures
        start <= hay@.len(),
        hay@.subrange(start as int, hay@.len() as int) == last_segment(hay@, sep@),
        start > 0 <==> sep@.len() > 0 && contains(hay@, sep@),
{
    proof {
        lemma_contains_is_find(hay@, sep@);
        lemma_find_from(hay@, sep@, 0);
    }
    assert(hay@.subrange(0, hay@.len() as int) =~= hay@);
    if sep.len() == 0 {
        return 0;
    }
    let total: usize = hay.len();
    let mut start: usize = 0;
    loop
        invariant
            sep@.len() > 0,
            start <= total == hay@.len(),
            last_segment(hay@, sep@) == last_segment(
                hay@.subrange(start as int, hay@.len() as int),
                sep@,
            ),
            start > 0 ==> contains(hay@, sep@),
        decreases hay@.len() - start,
    {
        let ghost rest = hay@.subrange(start as int, hay@.len() as int);
        match find(hay, sep, start) {
            Some(i) => {
                proof {
                    lemma_find_from(hay@, sep@, start as int);
                    lemma_find_from(rest, sep@, 0);
                    lemma_find_shift(hay@, sep@, start as int, i as int);
                    assert(rest.subrange(i - start + sep@.len(), rest.len() as int)
                        =~= hay@.subrange(i + sep@.len(), hay@.len() as int));
                    assert(occurs_at(hay@, sep@, i as int));
                }
                start = i + sep.len();
            },
            None => {
                proof {
                    lemma_find_from(hay@, sep@, start as int);
                    lemma_find_from(rest, sep@, 0);
                    if find_from(rest, sep@, 0) is Some {
                        let k = find_from(rest, sep@, 0)->0;
                        assert(rest.subrange(k, k + sep@.len()) =~= hay@.subrange(
                            start + k,
                            start + k + sep@.len(),
                        ));
                        assert(occurs_at(hay@, sep@, start + k));
                    }
                }
                return start;
            },
        }
    }
}

/// An occurrence found from `start` on is the first one in the tail behind
/// `start`.
proof fn lemma_find_shift(hay: Seq<char>, needle: Seq<char>, start: int, i: int)
    requires
        0 <= start <= hay.len(),
        find_from(hay, needle, start) == Some(i),
    ensures
        find_from(hay.subrange(start, hay.len() as int), needle, 0) == Some(i - start),
{
    let rest = hay.subrange(start, hay.len() as int);
    lemma_find_from(hay, needle, start);
    lemma_find_from(rest, needle, 0);
    assert(rest.subrange(i - start, i - start + needle.len()) =~= hay.subrange(
        i,
        i + needle.len(),
    ));
    assert(occurs_at(rest, needle, i - start));
    assert forall|j: int| 0 <= j < i - start implies !occurs_at(rest, needle, j) by {
        if occurs_at(rest, needle, j) {
            assert(rest.subrange(j, j + needle.len()) =~= hay.subrange(
                start + j,
                start + j + needle.len(),
            ));
            assert(occurs_at(hay, needle, start + j));
        }
    }
}

/// The number of bytes that UTF-8 takes for `c`.
pub open spec fn utf8_width(c: char) -> nat {
    if (c as u32) < 0x80 {
        1
    } else if (c as u32) < 0x800 {
        2
    } else if (c as u32) < 0x10000 {
        3
    } else {
        4
    }
}

/// The number of bytes that UTF-8 takes for `s`.
pub open spec fn utf8_len(s: Seq<char>) -> nat
    decreases s.len(),
{
    if s.len() == 0 {
        0
    } else {
        utf8_len(s.subrange(0, s.len() - 1)) + utf8_width(s[s.len() - 1])
    }
}

/// The length of the longest prefix of `s` that UTF-8 fits into `max` bytes.
pub open spec fn fitting_count(s: Seq<char>, max: nat) -> nat
    decreases s.len(),
{
    if s.len() == 0 || utf8_len(s) <= max {
        s.len()
    } else {
        fitting_count(s.subrange(0, s.len() - 1), max)
    }
}

/// The longest prefix of `s` that UTF-8 fits into `max` bytes: `s` cut at
/// `max` bytes, or at the character boundary before that.
pub open spec fn truncated(s: Seq<char>, max: nat) -> Seq<char> {
    s.subrange(0, fitting_count(s, max) as int)
}

/// A longer prefix takes no fewer bytes.
pub proof fn lemma_utf8_len_monotonic(s: Seq<char>, n: int)
    requires
        0 <= n <= s.len(),
    ensures
        utf8_len(s.subrange(0, n)) <= utf8_len(s),
        n <= utf8_len(s.subrange(0, n)),
    decreases s.len(),
{
    if n == s.len() {
        assert(s.subrange(0, n) =~= s);
        if n > 0 {
            lemma_utf8_len_monotonic(s.subrange(0, n - 1), n - 1);
            assert(s.subrange(0, n - 1).subrange(0, n - 1) =~= s.subrange(0, n - 1));
        }
    } else {
        let shorter = s.subrange(0, s.len() - 1);
        lemma_utf8_len_monotonic(shorter, n);
        assert(shorter.subrange(0, n) =~= s.subrange(0, n));
    }
}

/// `fitting_count` is the one `n` whose prefix fits while the next longer
/// prefix, where there is one, does not.
pub proof fn lemma_fitting_count(s: Seq<char>, max: nat, n: int)
    requires
        0 <= n <= s.len(),
        utf8_len(s.subrange(0, n)) <= max,
        n < s.len() ==> utf8_len(s.subrange(0, n + 1)) > max,
    ensures
        fitting_count(s, max) == n,
    decreases s.len(),
{
    if s.len() == 0 {
    } else if utf8_len(s) <= max {
        if n < s.len() {
            lemma_utf8_len_monotonic(s, n + 1);
        }
    } else {
        assert(n < s.len()) by {
            assert(s.subrange(0, s.len() as int) =~= s);
        }
        let shorter = s.subrange(0, s.len() - 1);
        assert(shorter.subrange(0, n) =~= s.subrange(0, n));
        if n < shorter.len() {
            assert(shorter.subrange(0, n + 1) =~= s.subrange(0, n + 1));
        }
        lemma_fitting_count(shorter, max, n);
    }
}

/// What `truncated` keeps is a prefix that fits, with at most `max`
/// characters.
pub proof fn lemma_truncated_fits(s: Seq<char>, max: nat)
    ensures
        fitting_count(s, max) <= s.len(),
        utf8_len(truncated(s, max)) <= max,
        truncated(s, max).len() <= max,
        utf8_len(s) <= max ==> truncated(s, max) == s,
    decreases s.len(),
{
    if s.len() == 0 {
        assert(truncated(s, max) =~= s);
    } else if utf8_len(s) <= max {
        assert(truncated(s, max) =~= s);
        lemma_utf8_len_monotonic(s, s.len() as int);
    } else {
        let shorter = s.subrange(0, s.len() - 1);
        lemma_truncated_fits(shorter, max);
        assert(truncated(shorter, max) =~= truncated(s, max));
    }
}

/// Appending one character adds the bytes of that character to the UTF-8
/// form.
proof fn lemma_encoded_push(s: Seq<char>, c: char)
    ensures
        vstd::utf8::encode_utf8(s.push(c)).len() == vstd::utf8::encode_utf8(s).len() + utf8_width(c),
    decreases s.len(),
{
    vstd::utf8::char_is_scalar(c);
    if s.len() == 0 {
        assert(s.push(c).drop_first() =~= Seq::<char>::empty());
        assert(vstd::utf8::encode_utf8(Seq::<char>::empty()).len() == 0);
        assert(vstd::utf8::encode_utf8(s).len() == 0);
    } else {
        assert(s.push(c).drop_first() =~= s.drop_first().push(c));
        lemma_encoded_push(s.drop_first(), c);
    }
}

/// `utf8_len` is the length of the UTF-8 form, which is what `str::len`
/// counts.
pub proof fn lemma_utf8_len_is_encoded_length(s: Seq<char>)
    ensures
        utf8_len(s) == vstd::utf8::encode_utf8(s).len(),
    decreases s.len(),
{
    if s.len() > 0 {
        let shorter = s.subrange(0, s.len() - 1);
        lemma_utf8_len_is_encoded_length(shorter);
        lemma_encoded_push(shorter, s[s.len() - 1]);
        assert(shorter.push(s[s.len() - 1]) =~= s);
    }
}

/// The number of bytes that UTF-8 takes for `c`.
fn char_width(c: char) -> (w: usize)
    ensures
        w == utf8_width(c),
{
    let code: u32 = c as u32;
    if code < 0x80 {
        1
    } else if code < 0x800 {
        2
    } else if code < 0x10000 {
        3
    } else {
        4
    }
}

/// The number of leading characters of `chars` that UTF-8 fits into `max`
/// bytes.
pub fn fitting_prefix(chars: &Vec<char>, max: usize) -> (n: usize)
    ensures
        n == fitting_count(chars@, max as nat),
        n <= chars@.len(),
{
    let total: usize = chars.len();
    let mut n: usize = 0;
    let mut bytes: usize = 0;
    proof {
        assert(chars@.subrange(0, 0) =~= Seq::<char>::empty());
    }
    while n < total
        invariant
            n <= total == chars@.len(),
            bytes == utf8_len(chars@.subrange(0, n as int)),
            bytes <= max,
        decreases total - n,
    {
        let width = char_width(chars[n]);
        proof {
            assert(chars@.subrange(0, n + 1).subrange(0, n as int) =~= chars@.subrange(
                0,
                n as int,
            ));
        }
        if width > max - bytes {
            proof {
                lemma_fitting_count(chars@, max as nat, n as int);
            }
            return n;
        }
        bytes += width;
        n += 1;
    }
    proof {
        lemma_fitting_count(chars@, max as nat, n as int);
    }
    n
}

/// Cuts `s` at `max` bytes of UTF-8, or at the character boundary before
/// that.
pub fn truncate(s: &str, max: usize) -> (r: String)
    ensures
        r@ == truncated(s@, max as nat),
{
    let chars = chars_of(s);
    let n = fitting_prefix(&chars, max);
    string_of_range(&chars, 0, n)
}

/// The first `count` characters of `s`, or all of `s` where it has no more.
pub open spec fn first_chars(s: Seq<char>, count: nat) -> Seq<char> {
    if s.len() <= count {
        s
    } else {
        s.subrange(0, count as int)
    }
}

/// The first `count` characters of `s`, or all of `s` where it has no more.
pub fn take_chars(s: &str, count: usize) -> (r: String)
    ensures
        r@ == first_chars(s@, count as nat),
        r@.len() <= count,
{
    let chars = chars_of(s);
    if chars.len() <= count {
        assert(chars@.subrange(0, chars@.len() as int) =~= chars@);
        string_of_range(&chars, 0, chars.len())
    } else {
        string_of_range(&chars, 0, count)
    }
}

/// The character of the decimal digit `d`.
pub open spec fn digit_char(d: nat) -> char
    recommends
        d < 10,
{
    if d == 0 {
        '0'
    } else if d == 1 {
        '1'
    } else if d == 2 {
        '2'
    } else if d == 3 {
        '3'
    } else if d == 4 {
        '4'
    } else if d == 5 {
        '5'
    } else if d == 6 {
        '6'
    } else if d == 7 {
        '7'
    } else if d == 8 {
        '8'
    } else {
        '9'
    }
}

/// `c` is one of the ten decimal digits.
pub open spec fn is_digit(c: char) -> bool {
    '0' <= c <= '9'
}

/// The value of the decimal digit `c`.
pub open spec fn digit_value(c: char) -> nat
    recommends
        is_digit(c),
{
    (c as u32 - '0' as u32) as nat
}

/// The decimal numeral of `n`, without leading zeros.
pub open spec fn decimal(n: nat) -> Seq<char>
    decreases n,
{
    if n < 10 {
        seq![digit_char(n)]
    } else {
        decimal(n / 10).push(digit_char(n % 10))
    }
}

/// Every character of `s` is a decimal digit.
pub open spec fn all_digits(s: Seq<char>) -> bool {
    forall|i: int| 0 <= i < s.len() ==> is_digit(#[trigger] s[i])
}

/// The number that the decimal digits `s` write.
pub open spec fn digits_value(s: Seq<char>) -> nat
    decreases s.len(),
{
    if s.len() == 0 {
        0
    } else {
        digits_value(s.subrange(0, s.len() - 1)) * 10 + digit_value(s[s.len() - 1])
    }
}

/// Reading a decimal numeral gives back the number it was written for.
pub proof fn lemma_decimal_round_trip(n: nat)
    ensures
        decimal(n).len() > 0,
        all_digits(decimal(n)),
        digits_value(decimal(n)) == n,
    decreases n,
{
    if n < 10 {
        assert(decimal(n).subrange(0, 0) =~= Seq::<char>::empty());
        assert(digits_value(decimal(n).subrange(0, 0)) == 0);
    } else {
        lemma_decimal_round_trip(n / 10);
        let d = decimal(n);
        assert(d.subrange(0, d.len() - 1) =~= decimal(n / 10));
    }
}

/// The character of the decimal digit `d`.
pub fn digit_of(d: u64) -> (c: char)
    requires
        d < 10,
    ensures
        c == digit_char(d as nat),
{
    if d == 0 {
        '0'
    } else if d == 1 {
        '1'
    } else if d == 2 {
        '2'
    } else if d == 3 {
        '3'
    } else if d == 4 {
        '4'
    } else if d == 5 {
        '5'
    } else if d == 6 {
        '6'
    } else if d == 7 {
        '7'
    } else if d == 8 {
        '8'
    } else {
        '9'
    }
}

/// Appends the decimal numeral of `n` to `out`.
pub fn push_decimal(out: &mut String, n: u64)
    ensures
        final(out)@ == old(out)@ + decimal(n as nat),
    decreases n,
{
    if n >= 10 {
        push_decimal(out, n / 10);
    }
    out.push(digit_of(n % 10));
    assert(out@ =~= old(out)@ + decimal(n as nat));
}

/// The decimal numeral of `n`.
pub fn decimal_text(n: u64) -> (r: String)
    ensures
        r@ == decimal(n as nat),
{
    let mut out = String::new();
    push_decimal(&mut out, n);
    assert(out@ =~= decimal(n as nat));
    out
}

/// The number that `s` writes in decimal digits, where it is one that fits.
pub open spec fn parsed_u64(s: Seq<char>) -> Option<u64> {
    if s.len() > 0 && all_digits(s) && digits_value(s) <= u64::MAX {
        Some(digits_value(s) as u64)
    } else {
        None
    }
}

/// A numeral is worth no less than any of its prefixes.
proof fn lemma_digits_value_monotonic(s: Seq<char>, n: int)
    requires
        0 <= n <= s.len(),
    ensures
        digits_value(s.subrange(0, n)) <= digits_value(s),
    decreases s.len(),
{
    if n == s.len() {
        assert(s.subrange(0, n) =~= s);
    } else {
        let shorter = s.subrange(0, s.len() - 1);
        lemma_digits_value_monotonic(shorter, n);
        assert(shorter.subrange(0, n) =~= s.subrange(0, n));
        assert(digits_value(shorter) <= digits_value(shorter) * 10) by (nonlinear_arith);
    }
}

/// Reads `chars[from..to]` as decimal digits.
pub fn parse_u64(chars: &Vec<char>, from: usize, to: usize) -> (r: Option<u64>)
    requires
        from <= to <= chars@.len(),
    ensures
        r == parsed_u64(chars@.subrange(from as int, to as int)),
{
    let ghost s = chars@.subrange(from as int, to as int);
    if from == to {
        return None;
    }
    let mut value: u64 = 0;
    let mut i: usize = from;
    proof {
        assert(s.subrange(0, 0) =~= Seq::<char>::empty());
    }
    while i < to
        invariant
            from <= i <= to <= chars@.len(),
            s == chars@.subrange(from as int, to as int),
            all_digits(s.subrange(0, i - from)),
            value == digits_value(s.subrange(0, i - from)),
        decreases to - i,
    {
        let c = chars[i];
        let ghost next = s.subrange(0, i - from + 1);
        proof {
            assert(next.subrange(0, i - from) =~= s.subrange(0, i - from));
            assert(next[i - from] == c);
        }
        if c < '0' || c > '9' {
            assert(!is_digit(s[i - from]));
            return None;
        }
        let d: u64 = (c as u32 - '0' as u32) as u64;
        if value > (u64::MAX - d) / 10 {
            proof {
                lemma_digits_value_monotonic(s, i - from + 1);
            }
            return None;
        }
        value = value * 10 + d;
        i += 1;
        proof {
            assert forall|k: int| 0 <= k < next.len() implies is_digit(#[trigger] next[k]) by {
                if k < i - from - 1 {
                    assert(next[k] == s.subrange(0, i - from - 1)[k]);
                }
            }
        }
    }
    assert(s.subrange(0, to - from) =~= s);
    Some(value)
}

/// The decimal numeral of `n`, with a minus sign before a negative one.
pub open spec fn signed_decimal(n: int) -> Seq<char> {
    if n < 0 {
        seq!['-'] + decimal((-n) as nat)
    } else {
        decimal(n as nat)
    }
}

/// The number that `s` writes in decimal digits, with or without a minus
/// sign, where it is one that fits `i64`.
pub open spec fn parsed_i64(s: Seq<char>) -> Option<i64> {
    if s.len() > 0 && s[0] == '-' {
        let digits = s.subrange(1, s.len() as int);
        if digits.len() > 0 && all_digits(digits) && digits_value(digits) <= 0x8000_0000_0000_0000 {
            Some((-(digits_value(digits) as int)) as i64)
        } else {
            None
        }
    } else if s.len() > 0 && all_digits(s) && digits_value(s) <= i64::MAX {
        Some(digits_value(s) as i64)
    } else {
        None
    }
}

/// Reading a signed numeral gives back the number it was written for.
pub proof fn lemma_signed_round_trip(n: i64)
    ensures
        parsed_i64(signed_decimal(n as int)) == Some(n),
{
    if n < 0 {
        let digits = decimal((-n) as nat);
        lemma_decimal_round_trip((-n) as nat);
        let s = signed_decimal(n as int);
        assert(s.subrange(1, s.len() as int) =~= digits);
        assert(s[0] == '-');
    } else {
        lemma_decimal_round_trip(n as nat);
        let s = decimal(n as nat);
        assert(is_digit(s[0]));
    }
}

/// The decimal numeral of `n`, with a minus sign before a negative one.
pub fn signed_decimal_text(n: i64) -> (r: String)
    ensures
        r@ == signed_decimal(n as int),
{
    let mut out = String::new();
    if n < 0 {
        out.push('-');
        let magnitude: u64 = if n == i64::MIN {
            0x8000_0000_0000_0000
        } else {
            (-n) as u64
        };
        push_decimal(&mut out, magnitude);
        assert(out@ =~= signed_decimal(n as int));
    } else {
        push_decimal(&mut out, n as u64);
        assert(out@ =~= signed_decimal(n as int));
    }
    out
}

/// Reads `chars` as a decimal numeral with or without a minus sign.
pub fn parse_i64(chars: &Vec<char>) -> (r: Option<i64>)
    ensures
        r == parsed_i64(chars@),
{
    let total: usize = chars.len();
    assert(chars@.subrange(0, total as int) =~= chars@);
    if total > 0 && chars[0] == '-' {
        match parse_u64(chars, 1, total) {
            Some(magnitude) => {
                if magnitude > 0x8000_0000_0000_0000 {
                    None
                } else if magnitude == 0x8000_0000_0000_0000 {
                    Some(i64::MIN)
                } else {
                    Some(-(magnitude as i64))
                }
            },
            None => None,
        }
    } else {
        match parse_u64(chars, 0, total) {
            Some(value) => {
                if value > 0x7fff_ffff_ffff_ffff {
                    None
                } else {
                    Some(value as i64)
                }
            },
            None => None,
        }
    }
}

/// The texts `pieces` in a row, with `sep` between each two of them.
pub open spec fn joined(pieces: Seq<Seq<char>>, sep: Seq<char>) -> Seq<char>
    decreases pieces.len(),
{
    if pieces.len() == 0 {
        Seq::empty()
    } else if pieces.len() == 1 {
        pieces[0]
    } else {
        joined(pieces.subrange(0, pieces.len() - 1), sep) + sep + pieces[pieces.len() - 1]
    }
}

/// Puts the texts `pieces` in a row, with `sep` between each two of them.
pub fn join(pieces: &Vec<String>, sep: &str) -> (r: String)
    ensures
        r@ == joined(strings_view(pieces@), sep@),
{
    let ghost all = strings_view(pieces@);
    let mut out = String::new();
    let mut i: usize = 0;
    proof {
        assert(all.subrange(0, 0) =~= Seq::<Seq<char>>::empty());
    }
    while i < pieces.len()
        invariant
            i <= pieces@.len(),
            all == strings_view(pieces@),
            out@ == joined(all.subrange(0, i as int), sep@),
        decreases pieces@.len() - i,
    {
        proof {
            let next = all.subrange(0, i + 1);
            assert(next.subrange(0, next.len() - 1) =~= all.subrange(0, i as int));
            assert(next[next.len() - 1] == pieces@[i as int]@);
            if i == 0 {
                assert(Seq::<char>::empty() + pieces@[i as int]@ =~= pieces@[i as int]@);
            }
        }
        if i > 0 {
            out.append(sep);
        }
        out.append(pieces[i].as_str());
        i += 1;
    }
    assert(all.subrange(0, all.len() as int) =~= all);
    out
}

} // verus!
