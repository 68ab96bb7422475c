//! Text building blocks shared by the rest of the library: decimal
//! rendering of integers, Unicode whitespace trimming, ASCII case folding
//! and substring search.
use vstd::prelude::*;
use vstd::arithmetic::div_mod::lemma_fundamental_div_mod;

verus! {

// ---------------------------------------------------------------------------
// Decimal digits
// ---------------------------------------------------------------------------

/// The character of the decimal digit `d` (`0 <= d < 10`).
pub open spec fn digit_char(d: int) -> char {
    if d == 0 {
        '0'
    } else if d == 1 {
        '1'
    } else if d == 2 {
        '2'
    } else if d == 3 {
        '3'
    } else if d == 4 {
        '4'
    } else if d == 5 {
        '5'
    } else if d == 6 {
        '6'
    } else if d == 7 {
        '7'
    } else if d == 8 {
        '8'
    } else {
        '9'
    }
}

/// The value of a decimal digit character, or `None` for any other character.
pub open spec fn digit_value(c: char) -> Option<int> {
    if c == '0' {
        Some(0)
    } else if c == '1' {
        Some(1)
    } else if c == '2' {
        Some(2)
    } else if c == '3' {
        Some(3)
    } else if c == '4' {
        Some(4)
    } else if c == '5' {
        Some(5)
    } else if c == '6' {
        Some(6)
    } else if c == '7' {
        Some(7)
    } else if c == '8' {
        Some(8)
    } else if c == '9' {
        Some(9)
    } else {
        None
    }
}

/// The decimal rendering of a natural number, without leading zeros.
pub open spec fn decimal_nat(n: nat) -> Seq<char>
    decreases n,
{
    if n < 10 {
        seq![digit_char(n as int)]
    } else {
        decimal_nat(n / 10).push(digit_char((n % 10) as int))
    }
}

/// The decimal rendering of an integer, as `{}` formats it: a leading `-`
/// for negative values.
pub open spec fn decimal(n: int) -> Seq<char> {
    if n < 0 {
        seq!['-'] + decimal_nat((-n) as nat)
    } else {
        decimal_nat(n as nat)
    }
}

/// The character of a decimal digit.
pub fn digit_to_char(d: u64) -> (c: char)
    requires
        d < 10,
    ensures
        c == digit_char(d as int),
{
    if d == 0 {
        '0'
    } else if d == 1 {
        '1'
    } else if d == 2 {
        '2'
    } else if d == 3 {
        '3'
    } else if d == 4 {
        '4'
    } else if d == 5 {
        '5'
    } else if d == 6 {
        '6'
    } else if d == 7 {
        '7'
    } else if d == 8 {
        '8'
    } else {
        '9'
    }
}

/// Appends one character to a string. Trusted: the body calls
/// `String::push`, and the contract claims what its documentation says, that
/// the character is added at the end and nothing else changes.
#[verifier::external_body]
pub(crate) fn push_char(s: &mut String, c: char)
    ensures
        final(s)@ == old(s)@.push(c),
{
    s.push(c);
}

/// Appends the decimal digits of `n` to `s`.
pub fn append_decimal_u64(s: &mut String, n: u64)
    ensures
        final(s)@ == old(s)@ + decimal_nat(n as nat),
    decreases n,
{
    if n >= 10 {
        append_decimal_u64(s, n / 10);
    }
    push_char(s, digit_to_char(n % 10));
    proof {
        if n >= 10 {
            assert(old(s)@ + decimal_nat(n as nat) =~= (old(s)@ + decimal_nat((n / 10) as nat)).push(
                digit_char((n % 10) as int),
            ));
        } else {
            assert(old(s)@ + decimal_nat(n as nat) =~= old(s)@.push(digit_char((n % 10) as int)));
        }
    }
}

/// Appends the decimal rendering of `n` to `s`, with a `-` for negatives.
pub fn append_decimal_i64(s: &mut String, n: i64)
    ensures
        final(s)@ == old(s)@ + decimal(n as int),
{
    if n < 0 {
        push_char(s, '-');
        let magnitude: u64 = if n == i64::MIN {
            9223372036854775808u64
        } else {
            (-n) as u64
        };
        append_decimal_u64(s, magnitude);
        assert(old(s)@ + decimal(n as int) =~= old(s)@.push('-') + decimal_nat(magnitude as nat));
    } else {
        append_decimal_u64(s, n as u64);
    }
}

/// The decimal rendering of a signed integer (`n.to_string()`).
pub fn decimal_string(n: i64) -> (s: String)
    ensures
        s@ == decimal(n as int),
{
    let mut s = String::new();
    append_decimal_i64(&mut s, n);
    assert(s@ =~= decimal(n as int));
    s
}

/// The decimal rendering of an unsigned integer (`n.to_string()`).
pub fn decimal_string_usize(n: usize) -> (s: String)
    ensures
        s@ == decimal_nat(n as nat),
{
    let mut s = String::new();
    append_decimal_u64(&mut s, n as u64);
    assert(s@ =~= decimal_nat(n as nat));
    s
}

// ---------------------------------------------------------------------------
// Parsing an unsigned decimal
// ---------------------------------------------------------------------------

/// The value of a string of decimal digits (`Some(0)` when empty), or `None`
/// when some character is not a digit.
pub open spec fn digits_value(d: Seq<char>) -> Option<int>
    decreases d.len(),
{
    if d.len() == 0 {
        Some(0)
    } else {
        match (digits_value(d.drop_last()), digit_value(d.last())) {
            (Some(v), Some(x)) => Some(v * 10 + x),
            _ => None,
        }
    }
}

/// What `s.parse::<usize>().ok()` gives: an optional leading `+`, then at
/// least one decimal digit and nothing else, with a value that fits.
pub open spec fn parse_usize_spec(s: Seq<char>) -> Option<usize> {
    let d = if s.len() > 0 && s[0] == '+' {
        s.drop_first()
    } else {
        s
    };
    if d.len() == 0 {
        None
    } else {
        match digits_value(d) {
            Some(v) if v <= usize::MAX => Some(v as usize),
            _ => None,
        }
    }
}

/// A digit string's prefixes are digit strings whose values do not exceed
/// the whole string's value.
pub proof fn lemma_digits_prefix(d: Seq<char>, j: int)
    requires
        0 <= j <= d.len(),
        digits_value(d) is Some,
    ensures
        digits_value(d.take(j)) is Some,
        0 <= digits_value(d.take(j))->0 <= digits_value(d)->0,
    decreases d.len(),
{
    if j == d.len() {
        assert(d.take(j) =~= d);
        lemma_digits_nonneg(d);
    } else {
        lemma_digits_prefix(d.drop_last(), j);
        assert(d.drop_last().take(j) =~= d.take(j));
        lemma_digits_nonneg(d.drop_last());
    }
}

/// Digit strings have non-negative values.
pub proof fn lemma_digits_nonneg(d: Seq<char>)
    requires
        digits_value(d) is Some,
    ensures
        digits_value(d)->0 >= 0,
    decreases d.len(),
{
    if d.len() > 0 {
        lemma_digits_nonneg(d.drop_last());
    }
}

/// Every digit character reads back as its digit.
pub proof fn lemma_digit_round_trip(d: int)
    requires
        0 <= d < 10,
    ensures
        digit_value(digit_char(d)) == Some(d),
{
}

/// Decimal text reads back as the number it was written from.
pub proof fn lemma_decimal_round_trip(n: nat)
    ensures
        digits_value(decimal_nat(n)) == Some(n as int),
        decimal_nat(n).len() > 0,
        digit_value(decimal_nat(n)[0]) is Some,
    decreases n,
{
    lemma_digit_round_trip((n % 10) as int);
    let s = decimal_nat(n);
    if n >= 10 {
        lemma_decimal_round_trip(n / 10);
        assert(s.drop_last() =~= decimal_nat(n / 10));
        assert(s.last() == digit_char((n % 10) as int));
        assert(digits_value(s) == Some((n / 10) as int * 10 + (n % 10) as int));
        lemma_fundamental_div_mod(n as int, 10);
        assert((n / 10) as int * 10 + (n % 10) as int == n as int);
        assert(s[0] == decimal_nat(n / 10)[0]);
    } else {
        assert(s.drop_last() =~= Seq::<char>::empty());
        assert(s.last() == digit_char(n as int));
        lemma_digit_round_trip(n as int);
        assert(digits_value(s.drop_last()) == Some(0int));
        assert(digits_value(s) == Some(0 * 10 + n as int));
    }
}

/// Writing an index in decimal (`i.to_string()`) and parsing it back
/// (`parse::<usize>()`) gives the same index.
pub proof fn lemma_usize_text_round_trip(i: usize)
    ensures
        parse_usize_spec(decimal_nat(i as nat)) == Some(i),
{
    lemma_decimal_round_trip(i as nat);
}

/// The value of a decimal digit character.
pub fn char_digit(c: char) -> (d: Option<u64>)
    ensures
        match digit_value(c) {
            Some(v) => d == Some(v as u64),
            None => d is None,
        },
{
    if c == '0' {
        Some(0)
    } else if c == '1' {
        Some(1)
    } else if c == '2' {
        Some(2)
    } else if c == '3' {
        Some(3)
    } else if c == '4' {
        Some(4)
    } else if c == '5' {
        Some(5)
    } else if c == '6' {
        Some(6)
    } else if c == '7' {
        Some(7)
    } else if c == '8' {
        Some(8)
    } else if c == '9' {
        Some(9)
    } else {
        None
    }
}

/// Parse an unsigned decimal the way `str::parse::<usize>` does, giving
/// `None` for anything it rejects (empty, a stray character, overflow).
pub fn parse_usize(s: &str) -> (r: Option<usize>)
    ensures
        r == parse_usize_spec(s@),
{
    let n = s.unicode_len();
    let mut i: usize = 0;
    if n > 0 && s.get_char(0) == '+' {
        i = 1;
    }
    let start = i;
    let ghost d = if s@.len() > 0 && s@[0] == '+' {
        s@.drop_first()
    } else {
        s@
    };
    assert(d =~= s@.subrange(start as int, n as int));
    if i == n {
        return None;
    }
    let mut acc: usize = 0;
    assert(d.take(0) =~= Seq::<char>::empty());
    while i < n
        invariant
            start <= i <= n,
            n == s@.len(),
            d == s@.subrange(start as int, n as int),
            d == (if s@.len() > 0 && s@[0] == '+' {
                s@.drop_first()
            } else {
                s@
            }),
            d.len() > 0,
            digits_value(d.take(i - start)) == Some(acc as int),
        decreases n - i,
    {
        let c = s.get_char(i);
        let ghost k = (i - start) as int;
        assert(d.take(k + 1).drop_last() =~= d.take(k));
        assert(d.take(k + 1).last() == c);
        match char_digit(c) {
            None => {
                proof {
                    assert(digits_value(d.take(k + 1)) is None);
                    if digits_value(d) is Some {
                        lemma_digits_prefix(d, k + 1);
                    }
                }
                return None;
            },
            Some(x) => {
                assert(digits_value(d.take(k + 1)) == Some(acc as int * 10 + x as int));
                let grown = match acc.checked_mul(10) {
                    Some(m) => m.checked_add(x as usize),
                    None => None,
                };
                match grown {
                    Some(v) => {
                        acc = v;
                    },
                    None => {
                        proof {
                            assert(acc as int * 10 + x as int > usize::MAX);
                            if digits_value(d) is Some {
                                lemma_digits_prefix(d, k + 1);
                            }
                        }
                        return None;
                    },
                }
            },
        }
        i = i + 1;
    }
    assert(d.take((n - start) as int) =~= d);
    Some(acc)
}

// ---------------------------------------------------------------------------
// Whitespace trimming
// ---------------------------------------------------------------------------

/// The Unicode `White_Space` property, which `char::is_whitespace` tests.
pub open spec fn is_white_space(c: char) -> bool {
    let u = c as u32;
    ||| 9 <= u <= 13
    ||| u == 32
    ||| u == 0x85
    ||| u == 0xA0
    ||| u == 0x1680
    ||| 0x2000 <= u <= 0x200A
    ||| u == 0x2028
    ||| u == 0x2029
    ||| u == 0x202F
    ||| u == 0x205F
    ||| u == 0x3000
}

/// `s` without its leading whitespace.
pub open spec fn trim_start_spec(s: Seq<char>) -> Seq<char>
    decreases s.len(),
{
    if s.len() > 0 && is_white_space(s[0]) {
        trim_start_spec(s.drop_first())
    } else {
        s
    }
}

/// `s` without its trailing whitespace.
pub open spec fn trim_end_spec(s: Seq<char>) -> Seq<char>
    decreases s.len(),
{
    if s.len() > 0 && is_white_space(s.last()) {
        trim_end_spec(s.drop_last())
    } else {
        s
    }
}

/// `s` without leading and trailing whitespace (`str::trim`).
pub open spec fn trim_spec(s: Seq<char>) -> Seq<char> {
    trim_end_spec(trim_start_spec(s))
}

/// Whether a character is whitespace (`char::is_whitespace`).
pub fn white_space(c: char) -> (b: bool)
    ensures
        b == is_white_space(c),
{
    let u = c as u32;
    (9 <= u && u <= 13) || u == 32 || u == 0x85 || u == 0xA0 || u == 0x1680 || (0x2000 <= u && u
        <= 0x200A) || u == 0x2028 || u == 0x2029 || u == 0x202F || u == 0x205F || u == 0x3000
}

/// `s` without leading and trailing whitespace.
pub fn trim(s: &str) -> (t: String)
    ensures
        t@ == trim_spec(s@),
{
    let n = s.unicode_len();
    let mut i: usize = 0;
    assert(s@.subrange(0, n as int) =~= s@);
    while i < n && white_space(s.get_char(i))
        invariant
            i <= n,
            n == s@.len(),
            trim_start_spec(s@) == trim_start_spec(s@.subrange(i as int, n as int)),
        decreases n - i,
    {
        assert(s@.subrange(i as int, n as int).drop_first() =~= s@.subrange(i + 1, n as int));
        i = i + 1;
    }
    let mut j: usize = n;
    while j > i && white_space(s.get_char(j - 1))
        invariant
            i <= j <= n,
            n == s@.len(),
            trim_end_spec(s@.subrange(i as int, n as int)) == trim_end_spec(
                s@.subrange(i as int, j as int),
            ),
        decreases j - i,
    {
        assert(s@.subrange(i as int, j as int).drop_last() =~= s@.subrange(i as int, j - 1));
        j = j - 1;
    }
    String::from_str(s.substring_char(i, j))
}

// ---------------------------------------------------------------------------
// Case folding and search
// ---------------------------------------------------------------------------

/// ASCII lowercase of one character (`char::to_ascii_lowercase`).
pub open spec fn ascii_lower(c: char) -> char {
    if 'A' <= c && c <= 'Z' {
        ((c as u32) + 32) as char
    } else {
        c
    }
}

/// ASCII lowercase of a string (`str::to_ascii_lowercase`).
pub open spec fn ascii_lowercase(s: Seq<char>) -> Seq<char> {
    s.map_values(|c: char| ascii_lower(c))
}

/// Lowercasing in ASCII twice is the same as once, so an extension matches
/// whatever the case it is written in.
pub proof fn lemma_ascii_lowercase_idempotent(s: Seq<char>)
    ensures
        ascii_lowercase(ascii_lowercase(s)) == ascii_lowercase(s),
{
    assert(ascii_lowercase(ascii_lowercase(s)) =~= ascii_lowercase(s));
}

/// Whether `s` lowercased in ASCII equals `lower`.
pub fn ascii_lower_eq(s: &str, lower: &str) -> (b: bool)
    ensures
        b == (ascii_lowercase(s@) == lower@),
{
    let n = s.unicode_len();
    if n != lower.unicode_len() {
        assert(ascii_lowercase(s@).len() != lower@.len());
        return false;
    }
    let mut i: usize = 0;
    while i < n
        invariant
            i <= n,
            n == s@.len(),
            n == lower@.len(),
            forall|k: int| 0 <= k < i ==> ascii_lower(#[trigger] s@[k]) == lower@[k],
        decreases n - i,
    {
        let c = s.get_char(i);
        let l = lower.get_char(i);
        let same = c == l && !('A' <= c && c <= 'Z') || ('A' <= c && c <= 'Z') && (c as u32) + 32
            == (l as u32);
        if !same {
            assert(ascii_lowercase(s@)[i as int] != lower@[i as int]);
            return false;
        }
        i = i + 1;
    }
    assert(ascii_lowercase(s@) =~= lower@);
    true
}

/// Unicode lowercase of a string, as `str::to_lowercase` computes it.
pub uninterp spec fn lowercase_of(s: Seq<char>) -> Seq<char>;

/// Unicode lowercase. Trusted: the body calls `str::to_lowercase`, and the
/// contract only says that the result is [`lowercase_of`] of the input's
/// characters, a function of them alone; the Unicode case-mapping tables are
/// not restated, so no property of the lowercase text itself is claimed.
#[verifier::external_body]
pub fn lowercase(s: &str) -> (l: String)
    ensures
        l@ == lowercase_of(s@),
{
    s.to_lowercase()
}

/// Whether `needle` occurs in `hay` as a contiguous run.
pub open spec fn contains_seq(hay: Seq<char>, needle: Seq<char>) -> bool {
    exists|i: int|
        0 <= i && i + needle.len() <= hay.len() && #[trigger] hay.subrange(i, i + needle.len())
            == needle
}

/// The characters of a string.
pub fn chars_of(s: &str) -> (v: Vec<char>)
    ensures
        v@ == s@,
{
    let n = s.unicode_len();
    let mut v: Vec<char> = Vec::new();
    let mut i: usize = 0;
    while i < n
        invariant
            i <= n,
            n == s@.len(),
            v@ == s@.take(i as int),
        decreases n - i,
    {
        v.push(s.get_char(i));
        assert(v@ =~= s@.take(i + 1));
        i = i + 1;
    }
    assert(s@.take(n as int) =~= s@);
    v
}

/// Whether `needle` occurs in `hay` (`str::contains` with a string pattern).
pub fn contains_str(hay: &str, needle: &str) -> (b: bool)
    ensures
        b == contains_seq(hay@, needle@),
{
    let h = chars_of(hay);
    let w = chars_of(needle);
    let hn = h.len();
    let wn = w.len();
    if wn > hn {
        assert forall|i: int| 0 <= i && i + wn <= hn implies #[trigger] hay@.subrange(i, i + wn)
            != needle@ by {}
        return false;
    }
    let mut i: usize = 0;
    while i <= hn - wn
        invariant
            h@ == hay@,
            w@ == needle@,
            hn == h.len(),
            wn == w.len(),
            wn <= hn,
            i <= hn - wn + 1,
            forall|p: int| 0 <= p < i ==> #[trigger] hay@.subrange(p, p + wn) != needle@,
        decreases hn - i,
    {
        let mut k: usize = 0;
        while k < wn && h[i + k] == w[k]
            invariant
                i + wn <= hn,
                k <= wn,
                h@ == hay@,
                w@ == needle@,
                hn == h.len(),
                wn == w.len(),
                forall|q: int| 0 <= q < k ==> h@[i + q] == w@[q],
            decreases wn - k,
        {
            k = k + 1;
        }
        if k == wn {
            assert(hay@.subrange(i as int, i + wn) =~= needle@);
            return true;
        }
        assert(hay@.subrange(i as int, i + wn)[k as int] != needle@[k as int]);
        i = i + 1;
    }
    false
}

} // verus!
