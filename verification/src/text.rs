//! Text primitives shared by the parsers and the renderers: decimal numerals,
//! whitespace trimming and the appending of owned strings.

use vstd::prelude::*;
use vstd::string::*;

verus! {

/// Whether `c` is one of the ten ASCII digits.
pub open spec fn is_digit(c: char) -> bool {
    '0' <= c <= '9'
}

/// The number an ASCII digit stands for.
pub open spec fn digit_value(c: char) -> nat
    recommends
        is_digit(c),
{
    (c as int - '0' as int) as nat
}

/// The ASCII digit that stands for `d`.
pub open spec fn digit_char(d: nat) -> char
    recommends
        d < 10,
{
    (d + '0' as nat) as char
}

/// Whether every character of `s` is an ASCII digit.
pub open spec fn all_digits(s: Seq<char>) -> bool {
    forall|i: int| 0 <= i < s.len() ==> is_digit(#[trigger] s[i])
}

/// Whether `s` is a numeral: a non-empty run of ASCII digits.
pub open spec fn is_numeral(s: Seq<char>) -> bool {
    s.len() > 0 && all_digits(s)
}

/// The number that a sequence of ASCII digits denotes in base ten, most
/// significant digit first. Leading zeros are allowed; the empty sequence
/// denotes zero.
pub open spec fn decimal_value(s: Seq<char>) -> nat
    decreases s.len(),
{
    if s.len() == 0 {
        0
    } else {
        decimal_value(s.drop_last()) * 10 + digit_value(s.last())
    }
}

/// The shortest base-ten numeral of `n`: no leading zeros, and `"0"` for zero.
pub open spec fn decimal(n: nat) -> Seq<char>
    decreases n,
{
    if n < 10 {
        seq![digit_char(n)]
    } else {
        decimal(n / 10).push(digit_char(n % 10))
    }
}

/// A numeral produced by [`decimal`] is a non-empty run of digits that
/// denotes the number it was produced from.
pub proof fn lemma_decimal_round_trip(n: nat)
    ensures
        is_numeral(decimal(n)),
        decimal_value(decimal(n)) == n,
    decreases n,
{
    if n < 10 {
        let s = decimal(n);
        assert(s.len() == 1);
        assert(s[0] == digit_char(n));
        assert(s.drop_last().len() == 0);
        assert(decimal_value(s.drop_last()) == 0);
        assert(s.last() == digit_char(n));
    } else {
        lemma_decimal_round_trip(n / 10);
        let p = decimal(n / 10);
        let s = p.push(digit_char(n % 10));
        assert(s.drop_last() =~= p);
        assert(s.last() == digit_char(n % 10));
        assert forall|i: int| 0 <= i < s.len() implies is_digit(#[trigger] s[i]) by {
            if i < p.len() {
                assert(s[i] == p[i]);
            }
        }
    }
}

/// A numeral never denotes less than any of its prefixes does.
pub proof fn lemma_decimal_value_prefix(s: Seq<char>, k: int)
    requires
        0 <= k <= s.len(),
    ensures
        decimal_value(s.subrange(0, k)) <= decimal_value(s),
    decreases s.len() - k,
{
    if k == s.len() {
        assert(s.subrange(0, k) =~= s);
    } else {
        lemma_decimal_value_prefix(s, k + 1);
        let t = s.subrange(0, k + 1);
        assert(t.drop_last() =~= s.subrange(0, k));
    }
}

/// The one-character string for the digit `d`.
fn digit_str(d: u64) -> (r: &'static str)
    requires
        d < 10,
    ensures
        r@ == seq![digit_char(d as nat)],
{
    proof {
        reveal_strlit("0");
        reveal_strlit("1");
        reveal_strlit("2");
        reveal_strlit("3");
        reveal_strlit("4");
        reveal_strlit("5");
        reveal_strlit("6");
        reveal_strlit("7");
        reveal_strlit("8");
        reveal_strlit("9");
    }
    let r = if d == 0 {
        "0"
    } else if d == 1 {
        "1"
    } else if d == 2 {
        "2"
    } else if d == 3 {
        "3"
    } else if d == 4 {
        "4"
    } else if d == 5 {
        "5"
    } else if d == 6 {
        "6"
    } else if d == 7 {
        "7"
    } else if d == 8 {
        "8"
    } else {
        "9"
    };
    assert(r@ =~= seq![digit_char(d as nat)]);
    r
}

/// Renders `n` in base ten, as `{}` does for an unsigned integer.
pub fn u64_to_string(n: u64) -> (r: String)
    ensures
        r@ == decimal(n as nat),
    decreases n,
{
    if n < 10 {
        let r = String::from_str(digit_str(n));
        r
    } else {
        let mut r = u64_to_string(n / 10);
        r.append(digit_str(n % 10));
        assert(r@ =~= decimal(n as nat));
        r
    }
}

/// Whether two texts hold the same characters.
pub fn same_text(a: &str, b: &str) -> (r: bool)
    ensures
        r == (a@ == b@),
{
    let n: usize = a.unicode_len();
    if n != b.unicode_len() {
        return false;
    }
    let mut i: usize = 0;
    while i < n
        invariant
            0 <= i <= n,
            n == a@.len(),
            n == b@.len(),
            forall|k: int| 0 <= k < i ==> a@[k] == b@[k],
        decreases n - i,
    {
        if a.get_char(i) != b.get_char(i) {
            return false;
        }
        i = i + 1;
    }
    assert(a@ =~= b@);
    true
}

/// Appends an owned string to another.
pub fn append_string(target: &mut String, tail: String)
    ensures
        final(target)@ == old(target)@ + tail@,
{
    target.append(tail.as_str());
}

/// Reads a base-ten numeral, as `str::parse::<u64>` does for a text without
/// a sign.
///
/// Returns the number when the text is a non-empty run of ASCII digits
/// whose number fits in 64 bits, and `None` otherwise.
pub fn parse_decimal(text: &str) -> (r: Option<u64>)
    ensures
        r is Some <==> is_numeral(text@) && decimal_value(text@) <= u64::MAX,
        r is Some ==> r->0 == decimal_value(text@),
{
    let n: usize = text.unicode_len();
    if n == 0 {
        return None;
    }
    let mut value: u64 = 0;
    let mut i: usize = 0;
    while i < n
        invariant
            0 <= i <= n == text@.len(),
            all_digits(text@.subrange(0, i as int)),
            value == decimal_value(text@.subrange(0, i as int)),
        decreases n - i,
    {
        let c = text.get_char(i);
        let ghost before = text@.subrange(0, i as int);
        let ghost after = text@.subrange(0, i + 1);
        proof {
            assert(after.drop_last() =~= before);
            assert(after.last() == c);
        }
        if !(c >= '0' && c <= '9') {
            proof {
                assert(!is_digit(text@[i as int]));
            }
            return None;
        }
        let d: u64 = (c as u32 - '0' as u32) as u64;
        assert(d == digit_value(c));
        if value > (u64::MAX - d) / 10 {
            proof {
                assert(decimal_value(after) > u64::MAX) by (nonlinear_arith)
                    requires
                        decimal_value(after) == value * 10 + d,
                        value > (u64::MAX - d) / 10,
                        d < 10,
                ;
                lemma_decimal_value_prefix(text@, i + 1);
            }
            return None;
        }
        assert(value * 10 + d <= u64::MAX) by (nonlinear_arith)
            requires
                value <= (u64::MAX - d) / 10,
                d < 10,
        ;
        value = value * 10 + d;
        proof {
            assert forall|k: int| 0 <= k < after.len() implies is_digit(#[trigger] after[k]) by {
                if k < before.len() {
                    assert(after[k] == before[k]);
                }
            }
        }
        i = i + 1;
    }
    proof {
        assert(text@.subrange(0, n as int) =~= text@);
    }
    Some(value)
}

/// Whether `c` is white space in the sense of Unicode's `White_Space`
/// property, which is what `str::trim` removes.
pub open spec fn is_whitespace(c: char) -> bool {
    let p = c as u32;
    ||| 0x09 <= p <= 0x0D
    ||| p == 0x20
    ||| p == 0x85
    ||| p == 0xA0
    ||| p == 0x1680
    ||| 0x2000 <= p <= 0x200A
    ||| p == 0x2028
    ||| p == 0x2029
    ||| p == 0x202F
    ||| p == 0x205F
    ||| p == 0x3000
}

/// The first position at or after `i` that holds no white space, or the
/// length of `s` when only white space follows.
pub open spec fn skip_whitespace(s: Seq<char>, i: int) -> int
    decreases s.len() - i,
{
    if 0 <= i < s.len() && is_whitespace(s[i]) {
        skip_whitespace(s, i + 1)
    } else {
        i
    }
}

/// The end of the last run of non-white-space that ends at or before `j`,
/// never going below `floor`.
pub open spec fn skip_whitespace_back(s: Seq<char>, floor: int, j: int) -> int
    decreases j,
{
    if 0 <= floor < j <= s.len() && is_whitespace(s[j - 1]) {
        skip_whitespace_back(s, floor, j - 1)
    } else {
        j
    }
}

/// Where the trimmed part of `s` starts.
pub open spec fn trim_start(s: Seq<char>) -> int {
    skip_whitespace(s, 0)
}

/// Where the trimmed part of `s` ends.
pub open spec fn trim_end(s: Seq<char>) -> int {
    skip_whitespace_back(s, trim_start(s), s.len() as int)
}

/// `s` without its leading and trailing white space.
pub open spec fn trimmed(s: Seq<char>) -> Seq<char> {
    s.subrange(trim_start(s), trim_end(s))
}

/// Whether `s` holds nothing but white space; the empty text does.
pub open spec fn is_blank(s: Seq<char>) -> bool {
    forall|i: int| 0 <= i < s.len() ==> is_whitespace(#[trigger] s[i])
}

/// Everything that [`skip_whitespace`] passes over is white space, and it
/// stops at the end or on a character that is not.
pub proof fn lemma_skip_whitespace(s: Seq<char>, i: int)
    requires
        0 <= i <= s.len(),
    ensures
        i <= skip_whitespace(s, i) <= s.len(),
        forall|k: int| i <= k < skip_whitespace(s, i) ==> is_whitespace(#[trigger] s[k]),
        skip_whitespace(s, i) < s.len() ==> !is_whitespace(s[skip_whitespace(s, i)]),
    decreases s.len() - i,
{
    if i < s.len() && is_whitespace(s[i]) {
        lemma_skip_whitespace(s, i + 1);
    }
}

/// Everything that [`skip_whitespace_back`] passes over is white space, and
/// it stops at `floor` or behind a character that is not.
pub proof fn lemma_skip_whitespace_back(s: Seq<char>, floor: int, j: int)
    requires
        0 <= floor <= j <= s.len(),
    ensures
        floor <= skip_whitespace_back(s, floor, j) <= j,
        forall|k: int|
            skip_whitespace_back(s, floor, j) <= k < j ==> is_whitespace(#[trigger] s[k]),
        skip_whitespace_back(s, floor, j) > floor ==> !is_whitespace(
            s[skip_whitespace_back(s, floor, j) - 1],
        ),
    decreases j,
{
    if floor < j && is_whitespace(s[j - 1]) {
        lemma_skip_whitespace_back(s, floor, j - 1);
    }
}

/// What trimming means: the text is white space, then the trimmed part, then
/// white space again, and the trimmed part neither starts nor ends with
/// white space. The trimmed part is empty exactly when the text is blank.
pub proof fn lemma_trimmed(s: Seq<char>)
    ensures
        0 <= trim_start(s) <= trim_end(s) <= s.len(),
        is_blank(s.subrange(0, trim_start(s))),
        is_blank(s.subrange(trim_end(s), s.len() as int)),
        s == s.subrange(0, trim_start(s)) + trimmed(s) + s.subrange(trim_end(s), s.len() as int),
        trimmed(s).len() > 0 ==> !is_whitespace(trimmed(s).first()) && !is_whitespace(
            trimmed(s).last(),
        ),
        trimmed(s).len() == 0 <==> is_blank(s),
{
    let a = trim_start(s);
    let b = trim_end(s);
    lemma_skip_whitespace(s, 0);
    lemma_skip_whitespace_back(s, a, s.len() as int);
    assert(s =~= s.subrange(0, a) + trimmed(s) + s.subrange(b, s.len() as int));
    if a < b {
        assert(trimmed(s).first() == s[a]);
        assert(trimmed(s).last() == s[b - 1]);
        assert(!is_whitespace(s[a]));
    } else {
        assert forall|i: int| 0 <= i < s.len() implies is_whitespace(#[trigger] s[i]) by {
            if i < a {
            } else {
                assert(b <= i);
            }
        }
    }
}

/// Trimming a text that neither starts nor ends with white space changes
/// nothing.
pub proof fn lemma_trimmed_fixed(s: Seq<char>)
    requires
        s.len() > 0 ==> !is_whitespace(s.first()) && !is_whitespace(s.last()),
    ensures
        trimmed(s) == s,
{
    if s.len() > 0 {
        assert(skip_whitespace(s, 0) == 0);
        assert(skip_whitespace_back(s, 0, s.len() as int) == s.len());
    }
    assert(trimmed(s) =~= s);
}

/// Trimming twice is trimming once.
pub proof fn lemma_trimmed_idempotent(s: Seq<char>)
    ensures
        trimmed(trimmed(s)) == trimmed(s),
{
    lemma_trimmed(s);
    lemma_trimmed_fixed(trimmed(s));
}

/// Whether `c` is white space, as `char::is_whitespace` tells.
pub fn char_is_whitespace(c: char) -> (r: bool)
    ensures
        r == is_whitespace(c),
{
    let p: u32 = c as u32;
    (0x09 <= p && p <= 0x0D) || p == 0x20 || p == 0x85 || p == 0xA0 || p == 0x1680 || (0x2000 <= p
        && p <= 0x200A) || p == 0x2028 || p == 0x2029 || p == 0x202F || p == 0x205F || p == 0x3000
}

/// Removes leading and trailing white space, as `str::trim` does.
pub fn trim<'a>(text: &'a str) -> (r: &'a str)
    ensures
        r@ == trimmed(text@),
{
    let n: usize = text.unicode_len();
    let mut start: usize = 0;
    while start < n && char_is_whitespace(text.get_char(start))
        invariant
            n == text@.len(),
            0 <= start <= n,
            skip_whitespace(text@, 0) == skip_whitespace(text@, start as int),
        decreases n - start,
    {
        start = start + 1;
    }
    let mut end: usize = n;
    while end > start && char_is_whitespace(text.get_char(end - 1))
        invariant
            n == text@.len(),
            start <= end <= n,
            skip_whitespace_back(text@, start as int, n as int) == skip_whitespace_back(
                text@,
                start as int,
                end as int,
            ),
        decreases end,
    {
        end = end - 1;
    }
    text.substring_char(start, end)
}

} // verus!
