//! Whitespace and trimming of captured text.

use vstd::prelude::*;
use vstd::std_specs::iter::IteratorSpec;
use vstd::string::*;

verus! {

broadcast use vstd::string::group_string_axioms;

/// Whether `c` carries the Unicode property `White_Space`.
pub open spec fn is_whitespace(c: char) -> bool {
    let n = c as u32;
    ||| 0x09 <= n <= 0x0D
    ||| n == 0x20
    ||| n == 0x85
    ||| n == 0xA0
    ||| n == 0x1680
    ||| 0x2000 <= n <= 0x200A
    ||| n == 0x2028
    ||| n == 0x2029
    ||| n == 0x202F
    ||| n == 0x205F
    ||| n == 0x3000
}

/// Decides whether a character is whitespace.
pub fn char_is_whitespace(c: char) -> (b: bool)
    ensures
        b == is_whitespace(c),
{
    let n: u32 = c as u32;
    (0x09 <= n && n <= 0x0D) || n == 0x20 || n == 0x85 || n == 0xA0 || n == 0x1680 || (0x2000 <= n
        && n <= 0x200A) || n == 0x2028 || n == 0x2029 || n == 0x202F || n == 0x205F || n == 0x3000
}

/// `s` without its leading whitespace.
pub open spec fn trim_start(s: Seq<char>) -> Seq<char>
    decreases s.len(),
{
    if s.len() > 0 && is_whitespace(s.first()) {
        trim_start(s.drop_first())
    } else {
        s
    }
}

/// `s` without its trailing whitespace.
pub open spec fn trim_end(s: Seq<char>) -> Seq<char>
    decreases s.len(),
{
    if s.len() > 0 && is_whitespace(s.last()) {
        trim_end(s.drop_last())
    } else {
        s
    }
}

/// `s` without its leading and trailing whitespace.
pub open spec fn trimmed(s: Seq<char>) -> Seq<char> {
    trim_end(trim_start(s))
}

/// Every character of `s` in `lo..hi` is whitespace.
pub open spec fn all_whitespace(s: Seq<char>, lo: int, hi: int) -> bool {
    forall|k: int| lo <= k < hi ==> is_whitespace(#[trigger] s[k])
}

/// Where `trim_start` cuts: behind the leading whitespace and nowhere else.
pub proof fn lemma_trim_start_shape(s: Seq<char>) -> (a: int)
    ensures
        0 <= a <= s.len(),
        all_whitespace(s, 0, a),
        a < s.len() ==> !is_whitespace(s[a]),
        trim_start(s) == s.subrange(a, s.len() as int),
    decreases s.len(),
{
    if s.len() > 0 && is_whitespace(s.first()) {
        let t = s.drop_first();
        let a1 = lemma_trim_start_shape(t);
        assert forall|k: int| 0 <= k < a1 + 1 implies is_whitespace(#[trigger] s[k]) by {
            if k > 0 {
                assert(s[k] == t[k - 1]);
            }
        }
        assert(t.subrange(a1, t.len() as int) =~= s.subrange(a1 + 1, s.len() as int));
        a1 + 1
    } else {
        assert(s.subrange(0, s.len() as int) =~= s);
        0
    }
}

/// Where `trim_end` cuts: before the trailing whitespace and nowhere else.
pub proof fn lemma_trim_end_shape(s: Seq<char>) -> (b: int)
    ensures
        0 <= b <= s.len(),
        all_whitespace(s, b, s.len() as int),
        b > 0 ==> !is_whitespace(s[b - 1]),
        trim_end(s) == s.subrange(0, b),
    decreases s.len(),
{
    if s.len() > 0 && is_whitespace(s.last()) {
        let t = s.drop_last();
        let b1 = lemma_trim_end_shape(t);
        assert forall|k: int| b1 <= k < s.len() implies is_whitespace(#[trigger] s[k]) by {
            if k < t.len() {
                assert(s[k] == t[k]);
            }
        }
        assert(t.subrange(0, b1) =~= s.subrange(0, b1));
        b1
    } else {
        assert(s.subrange(0, s.len() as int) =~= s);
        s.len() as int
    }
}

/// Trimming removes whitespace from the two ends and nothing else: the result
/// is the stretch `a..b` of the text, character for character; all that lies
/// outside the stretch is whitespace; and the stretch neither begins nor ends
/// with whitespace, so that nothing more could be removed.
pub proof fn lemma_trimmed_shape(s: Seq<char>) -> (cut: (int, int))
    ensures
        0 <= cut.0 <= cut.1 <= s.len(),
        trimmed(s) == s.subrange(cut.0, cut.1),
        all_whitespace(s, 0, cut.0),
        all_whitespace(s, cut.1, s.len() as int),
        cut.0 < cut.1 ==> !is_whitespace(s[cut.0]) && !is_whitespace(s[cut.1 - 1]),
        cut.0 == cut.1 ==> all_whitespace(s, 0, s.len() as int),
{
    let a = lemma_trim_start_shape(s);
    let t = s.subrange(a, s.len() as int);
    let b1 = lemma_trim_end_shape(t);
    assert(t.subrange(0, b1) =~= s.subrange(a, a + b1));
    assert forall|k: int| a + b1 <= k < s.len() implies is_whitespace(#[trigger] s[k]) by {
        assert(s[k] == t[k - a]);
    }
    if b1 > 0 {
        assert(t[b1 - 1] == s[a + b1 - 1]);
        assert(t[0] == s[a]);
    }
    (a, a + b1)
}

/// Where a text begins and ends with a character that is not whitespace, and
/// only whitespace lies outside `a..b`, trimming keeps exactly `a..b`.
pub proof fn lemma_trimmed_is_subrange(s: Seq<char>, a: int, b: int)
    requires
        0 <= a < b <= s.len(),
        all_whitespace(s, 0, a),
        all_whitespace(s, b, s.len() as int),
        !is_whitespace(s[a]),
        !is_whitespace(s[b - 1]),
    ensures
        trimmed(s) == s.subrange(a, b),
{
    let cut = lemma_trimmed_shape(s);
    assert(cut.0 == a);
    assert(cut.1 == b);
}

/// A text of whitespace alone trims to the empty text.
pub proof fn lemma_trimmed_of_whitespace(s: Seq<char>)
    requires
        all_whitespace(s, 0, s.len() as int),
    ensures
        trimmed(s) == Seq::<char>::empty(),
{
    let cut = lemma_trimmed_shape(s);
    assert(cut.0 == cut.1);
    assert(s.subrange(cut.0, cut.1) =~= Seq::<char>::empty());
}

/// A text that neither begins nor ends with whitespace is left as it is.
pub proof fn lemma_trimmed_fixed(s: Seq<char>)
    requires
        s.len() > 0 ==> !is_whitespace(s.first()) && !is_whitespace(s.last()),
    ensures
        trimmed(s) == s,
{
}

/// Trimming a trimmed text changes nothing.
pub proof fn lemma_trimmed_idempotent(s: Seq<char>)
    ensures
        trimmed(trimmed(s)) == trimmed(s),
{
    let cut = lemma_trimmed_shape(s);
    lemma_trimmed_fixed(trimmed(s));
}

/// Removes leading and trailing whitespace from `s`.
pub fn trim(s: &str) -> (r: String)
    ensures
        r@ == trimmed(s@),
{
    let n = s.unicode_len();
    let mut it = s.chars();
    let mut i: usize = 0;
    let mut start: usize = 0;
    let mut end: usize = 0;
    let mut seen = false;
    while i < n
        invariant
            n == s@.len(),
            i <= n,
            it.remaining() == s@.skip(i as int),
            all_whitespace(s@, 0, if seen { start as int } else { i as int }),
            seen ==> start < end <= i && !is_whitespace(s@[start as int]) && !is_whitespace(
                s@[end - 1],
            ) && all_whitespace(s@, end as int, i as int),
        decreases n - i,
    {
        let next = it.next();
        assert(next == Some(s@[i as int]));
        assert(it.remaining() == s@.skip(i + 1)) by {
            assert(s@.skip(i as int).drop_first() =~= s@.skip(i + 1));
        }
        if let Some(c) = next {
            if !char_is_whitespace(c) {
                if !seen {
                    start = i;
                    seen = true;
                }
                end = i + 1;
            }
        }
        i += 1;
    }
    if seen {
        proof {
            lemma_trimmed_is_subrange(s@, start as int, end as int);
        }
        String::from_str(s.substring_char(start, end))
    } else {
        proof {
            lemma_trimmed_of_whitespace(s@);
        }
        String::new()
    }
}

/// The decimal digit that stands for `d`.
pub open spec fn digit_char(d: nat) -> char
    recommends
        d < 10,
{
    if d == 0 {
        '0'
    } else if d == 1 {
        '1'
    } else if d == 2 {
        '2'
    } else if d == 3 {
        '3'
    } else if d == 4 {
        '4'
    } else if d == 5 {
        '5'
    } else if d == 6 {
        '6'
    } else if d == 7 {
        '7'
    } else if d == 8 {
        '8'
    } else {
        '9'
    }
}

/// The decimal digits of `n`, most significant first, without leading zeros.
pub open spec fn digits(n: nat) -> Seq<char>
    decreases n,
{
    if n < 10 {
        seq![digit_char(n)]
    } else {
        digits(n / 10).push(digit_char(n % 10))
    }
}

/// The decimal notation of `n`: a minus sign for a negative number, then its
/// digits.
pub open spec fn decimal(n: int) -> Seq<char> {
    if n < 0 {
        seq!['-'] + digits((-n) as nat)
    } else {
        digits(n as nat)
    }
}

/// The number that the decimal digit `c` stands for.
pub open spec fn digit_value(c: char) -> nat {
    if c == '1' {
        1
    } else if c == '2' {
        2
    } else if c == '3' {
        3
    } else if c == '4' {
        4
    } else if c == '5' {
        5
    } else if c == '6' {
        6
    } else if c == '7' {
        7
    } else if c == '8' {
        8
    } else if c == '9' {
        9
    } else {
        0
    }
}

/// Whether `c` is a decimal digit.
pub open spec fn is_digit(c: char) -> bool {
    c == '0' || digit_value(c) > 0
}

/// The number that the decimal digits `s` stand for.
pub open spec fn digits_value(s: Seq<char>) -> nat
    decreases s.len(),
{
    if s.len() == 0 {
        0
    } else {
        digits_value(s.drop_last()) * 10 + digit_value(s.last())
    }
}

/// The digits of a number are digits indeed, at least one of them, begin with
/// a zero only for the number zero, and read back as the number.
pub proof fn lemma_digits_read_back(n: nat)
    ensures
        digits(n).len() >= 1,
        forall|k: int| 0 <= k < digits(n).len() ==> is_digit(#[trigger] digits(n)[k]),
        digits(n).first() == '0' ==> n == 0,
        digits_value(digits(n)) == n,
    decreases n,
{
    let last = digit_char(n % 10);
    assert(digit_value(last) == n % 10);
    assert(digits(n).last() == last);
    if n < 10 {
        assert(digits(n).drop_last() =~= Seq::<char>::empty());
        assert(digits_value(digits(n).drop_last()) == 0);
    } else {
        lemma_digits_read_back(n / 10);
        assert(digits(n).drop_last() =~= digits(n / 10));
    }
    assert(digits_value(digits(n)) == digits_value(digits(n).drop_last()) * 10 + digit_value(
        last,
    ));
}

/// Different numbers are written differently.
pub proof fn lemma_decimal_is_injective(m: int, n: int)
    requires
        decimal(m) == decimal(n),
    ensures
        m == n,
{
    let a = if m < 0 { (-m) as nat } else { m as nat };
    let b = if n < 0 { (-n) as nat } else { n as nat };
    lemma_digits_read_back(a);
    lemma_digits_read_back(b);
    assert(!is_digit('-'));
    if m < 0 {
        assert(decimal(m)[0] == '-');
        assert(decimal(m).subrange(1, decimal(m).len() as int) =~= digits(a));
    }
    if n < 0 {
        assert(decimal(n)[0] == '-');
        assert(decimal(n).subrange(1, decimal(n).len() as int) =~= digits(b));
    }
}

fn digit_str(d: u64) -> (r: &'static str)
    requires
        d < 10,
    ensures
        r@ == seq![digit_char(d as nat)],
{
    proof {
        reveal_strlit("0");
        reveal_strlit("1");
        reveal_strlit("2");
        reveal_strlit("3");
        reveal_strlit("4");
        reveal_strlit("5");
        reveal_strlit("6");
        reveal_strlit("7");
        reveal_strlit("8");
        reveal_strlit("9");
    }
    let r = if d == 0 {
        "0"
    } else if d == 1 {
        "1"
    } else if d == 2 {
        "2"
    } else if d == 3 {
        "3"
    } else if d == 4 {
        "4"
    } else if d == 5 {
        "5"
    } else if d == 6 {
        "6"
    } else if d == 7 {
        "7"
    } else if d == 8 {
        "8"
    } else {
        "9"
    };
    assert(r@ =~= seq![digit_char(d as nat)]);
    r
}

fn render_digits(n: u64) -> (r: String)
    ensures
        r@ == digits(n as nat),
    decreases n,
{
    if n < 10 {
        String::from_str(digit_str(n))
    } else {
        let mut r = render_digits(n / 10);
        r.append(digit_str(n % 10));
        assert(r@ =~= digits(n as nat));
        r
    }
}

/// Writes `n` in decimal notation.
pub fn render_decimal(n: i32) -> (r: String)
    ensures
        r@ == decimal(n as int),
{
    let wide: i64 = n as i64;
    if wide < 0 {
        proof {
            reveal_strlit("-");
        }
        let mut r = String::from_str("-");
        let rest = render_digits((-wide) as u64);
        r.append(rest.as_str());
        assert(r@ =~= decimal(n as int));
        r
    } else {
        render_digits(wide as u64)
    }
}

} // verus!
