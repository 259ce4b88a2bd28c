//! Text: decimal numerals, fields of a name, and replacement of substrings.

use vstd::prelude::*;

verus! {

/// Appends one character to a string.
///
/// Specifies `String::push`: the string ends with the character that was
/// pushed, and what stood before it is unchanged.
pub assume_specification[ String::push ](s: &mut String, c: char)
    ensures
        final(s)@ == old(s)@.push(c),
;

/// The character of a number.
///
/// Specifies `char::from_u32`: every number up to `0x10FFFF` outside of the
/// surrogates is that of a character, and no other number is.
pub assume_specification[ char::from_u32 ](i: u32) -> (r: Option<char>)
    ensures
        r == (if i <= 0xD7FF || 0xE000 <= i <= 0x10FFFF {
            Some(i as char)
        } else {
            None
        }),
;

// ---------------------------------------------------------------------------
// Numerals
// ---------------------------------------------------------------------------

/// Whether a character is one of the ten ASCII digits.
pub open spec fn is_digit(c: char) -> bool {
    '0' <= c <= '9'
}

/// The value of an ASCII digit.
pub open spec fn digit_value(c: char) -> nat
    recommends
        is_digit(c),
{
    (c as int - '0' as int) as nat
}

/// The ASCII digit of a value below ten.
pub open spec fn digit(d: nat) -> char
    recommends
        d < 10,
{
    ('0' as int + d) as char
}

/// The decimal numeral of a number, without leading zeros.
pub open spec fn decimal(n: nat) -> Seq<char>
    decreases n,
{
    if n < 10 {
        seq![digit(n)]
    } else {
        decimal(n / 10).push(digit(n % 10))
    }
}

/// Whether a text consists of ASCII digits only.
pub open spec fn all_digits(s: Seq<char>) -> bool {
    forall|i: int| 0 <= i < s.len() ==> is_digit(#[trigger] s[i])
}

/// The number that a text of digits denotes in base ten.
pub open spec fn numeral_value(s: Seq<char>) -> nat
    decreases s.len(),
{
    if s.len() == 0 {
        0
    } else {
        numeral_value(s.drop_last()) * 10 + digit_value(s.last())
    }
}

/// The text without a leading plus sign.
pub open spec fn without_plus(s: Seq<char>) -> Seq<char> {
    if s.len() > 0 && s[0] == '+' {
        s.skip(1)
    } else {
        s
    }
}

/// The number that a text denotes as a `usize`: an optional plus sign and at
/// least one digit, with nothing else around them and a value that fits.
pub open spec fn parsed_usize(s: Seq<char>) -> Option<usize> {
    let digits = without_plus(s);
    if digits.len() > 0 && all_digits(digits) && numeral_value(digits) <= usize::MAX {
        Some(numeral_value(digits) as usize)
    } else {
        None
    }
}

/// Appends the decimal numeral of a number to a string.
pub fn push_decimal(s: &mut String, n: usize)
    ensures
        final(s)@ == old(s)@ + decimal(n as nat),
    decreases n,
{
    if n >= 10 {
        push_decimal(s, n / 10);
    }
    let d: u8 = (n % 10) as u8;
    s.push((48 + d) as char);
}

/// Every decimal numeral consists of digits, is not empty, and denotes the
/// number that it was made from.
pub proof fn lemma_decimal_value(n: nat)
    ensures
        decimal(n).len() > 0,
        all_digits(decimal(n)),
        numeral_value(decimal(n)) == n,
    decreases n,
{
    if n < 10 {
        let s = decimal(n);
        assert(s.drop_last() =~= Seq::<char>::empty());
        assert(numeral_value(s.drop_last()) == 0);
    } else {
        lemma_decimal_value(n / 10);
        let s = decimal(n);
        assert(s.drop_last() =~= decimal(n / 10));
    }
}

/// Reading a decimal numeral gives back the number that was written.
pub proof fn decimal_parses_back(n: usize)
    ensures
        parsed_usize(decimal(n as nat)) == Some(n),
{
    lemma_decimal_value(n as nat);
    assert(is_digit(decimal(n as nat)[0]));
}

// ---------------------------------------------------------------------------
// Characters
// ---------------------------------------------------------------------------

/// The characters of a text, in order.
pub fn chars_of(s: &str) -> (v: Vec<char>)
    ensures
        v@ == s@,
{
    let mut v: Vec<char> = Vec::new();
    for c in it: s.chars()
        invariant
            it.seq() == s@,
            v@ == s@.take(it.index() as int),
    {
        v.push(c);
    }
    v
}

/// The number that characters denote as a `usize`, if they do.
pub fn parse_usize(s: &[char]) -> (r: Option<usize>)
    ensures
        r == parsed_usize(s@),
{
    let n: usize = s.len();
    let start: usize = if n > 0 && s[0] == '+' { 1 } else { 0 };
    let ghost digits = without_plus(s@);
    assert(digits =~= s@.skip(start as int));
    if start == n {
        return None;
    }
    let mut value: usize = 0;
    let mut i: usize = start;
    assert(digits.take(0) =~= Seq::<char>::empty());
    while i < n
        invariant
            n == s@.len(),
            start <= i <= n,
            digits == s@.skip(start as int),
            digits == without_plus(s@),
            all_digits(digits.take(i - start)),
            value == numeral_value(digits.take(i - start)),
        decreases n - i,
    {
        let c: char = s[i];
        let ghost done = digits.take(i - start);
        let ghost more = digits.take(i + 1 - start);
        assert(more =~= done.push(c));
        assert(more.drop_last() =~= done);
        assert(c == digits[i - start]);
        if !('0' <= c && c <= '9') {
            return None;
        }
        let d: usize = (c as u32 - 48) as usize;
        proof {
            lemma_prefix_value(digits, i + 1 - start);
        }
        match value.checked_mul(10) {
            None => {
                return None;
            },
            Some(tens) => {
                match tens.checked_add(d) {
                    None => {
                        return None;
                    },
                    Some(next) => {
                        value = next;
                    },
                }
            },
        }
        i += 1;
    }
    assert(digits.take(n - start) =~= digits);
    Some(value)
}

/// A prefix of a numeral denotes no more than the whole.
proof fn lemma_prefix_value(s: Seq<char>, k: int)
    requires
        0 <= k <= s.len(),
    ensures
        numeral_value(s.take(k)) <= numeral_value(s),
    decreases s.len() - k,
{
    if k < s.len() {
        lemma_prefix_value(s, k + 1);
        assert(s.take(k + 1).drop_last() =~= s.take(k));
    } else {
        assert(s.take(k) =~= s);
    }
}

/// The part of a text before the first occurrence of a character, or the whole
/// text where the character does not occur.
pub open spec fn before_first(s: Seq<char>, c: char) -> Seq<char> {
    match s.index_of_first(c) {
        Some(i) => s.take(i),
        None => s,
    }
}

/// How many characters stand before the first occurrence of a character.
pub fn len_before_first(s: &[char], c: char) -> (n: usize)
    ensures
        n <= s@.len(),
        s@.take(n as int) == before_first(s@, c),
{
    let mut i: usize = 0;
    while i < s.len()
        invariant
            i <= s@.len(),
            forall|j: int| 0 <= j < i ==> s@[j] != c,
        decreases s@.len() - i,
    {
        if s[i] == c {
            proof {
                lemma_before_first(s@, c, i as int);
            }
            return i;
        }
        i += 1;
    }
    proof {
        lemma_before_first(s@, c, i as int);
    }
    i
}

/// Where the first `k` characters lack `c` and then `c` or the end follows, the
/// first `k` characters are what stands before the first `c`.
pub proof fn lemma_before_first(s: Seq<char>, c: char, k: int)
    requires
        0 <= k <= s.len(),
        forall|j: int| 0 <= j < k ==> s[j] != c,
        k < s.len() ==> s[k] == c,
    ensures
        before_first(s, c) == s.take(k),
{
    s.index_of_first_ensures(c);
    if k < s.len() {
        assert(s.contains(c));
    } else {
        assert(s.take(k) =~= s);
    }
}

// ---------------------------------------------------------------------------
// Replacement
// ---------------------------------------------------------------------------

/// Whether `pattern` stands in `s` at position `i`.
pub open spec fn occurs_at(s: Seq<char>, pattern: Seq<char>, i: int) -> bool {
    0 <= i <= s.len() - pattern.len() && s.subrange(i, i + pattern.len()) == pattern
}

/// The text with every occurrence of `pattern` replaced, from the left and
/// without overlap.
pub open spec fn replaced(s: Seq<char>, pattern: Seq<char>, by: Seq<char>) -> Seq<char>
    decreases s.len(),
{
    if pattern.len() == 0 || s.len() == 0 {
        s
    } else if occurs_at(s, pattern, 0) {
        by + replaced(s.skip(pattern.len() as int), pattern, by)
    } else {
        seq![s[0]] + replaced(s.skip(1), pattern, by)
    }
}

/// Whether `pattern` stands in `s` at position `i`.
fn matches_at(s: &[char], pattern: &[char], i: usize) -> (r: bool)
    requires
        i <= s@.len(),
    ensures
        r == occurs_at(s@, pattern@, i as int),
{
    let n: usize = s.len();
    if pattern.len() > n - i {
        return false;
    }
    let mut k: usize = 0;
    while k < pattern.len()
        invariant
            n == s@.len(),
            k <= pattern@.len() <= n - i,
            forall|j: int| 0 <= j < k ==> s@[i + j] == pattern@[j],
        decreases pattern@.len() - k,
    {
        if s[i + k] != pattern[k] {
            assert(s@.subrange(i as int, i + pattern@.len())[k as int] != pattern@[k as int]);
            return false;
        }
        k += 1;
    }
    assert(s@.subrange(i as int, i + pattern@.len()) =~= pattern@);
    true
}

/// The text with every occurrence of `pattern` replaced, from the left and
/// without overlap.
pub fn replace(s: &str, pattern: &str, by: &str) -> (r: String)
    requires
        pattern@.len() > 0,
    ensures
        r@ == replaced(s@, pattern@, by@),
{
    let source: Vec<char> = chars_of(s);
    let wanted: Vec<char> = chars_of(pattern);
    let mut r: String = String::new();
    let mut i: usize = 0;
    assert(s@.skip(0) =~= s@);
    while i < source.len()
        invariant
            source@ == s@,
            wanted@ == pattern@,
            wanted@.len() > 0,
            i <= source@.len(),
            replaced(s@, pattern@, by@) == r@ + replaced(s@.skip(i as int), pattern@, by@),
        decreases source@.len() - i,
    {
        let ghost rest = s@.skip(i as int);
        let ghost before = r@;
        if matches_at(source.as_slice(), wanted.as_slice(), i) {
            assert(rest.subrange(0, pattern@.len() as int) =~= s@.subrange(
                i as int,
                i + pattern@.len(),
            ));
            r.append(by);
            i += wanted.len();
            assert(rest.skip(pattern@.len() as int) =~= s@.skip(i as int));
            assert(before + (by@ + replaced(s@.skip(i as int), pattern@, by@)) =~= r@ + replaced(
                s@.skip(i as int),
                pattern@,
                by@,
            ));
        } else {
            proof {
                if occurs_at(rest, pattern@, 0) {
                    assert(rest.subrange(0, pattern@.len() as int) =~= s@.subrange(
                        i as int,
                        i + pattern@.len(),
                    ));
                }
            }
            r.push(source[i]);
            i += 1;
            assert(rest.skip(1) =~= s@.skip(i as int));
            assert(before + (seq![rest[0]] + replaced(s@.skip(i as int), pattern@, by@)) =~= r@
                + replaced(s@.skip(i as int), pattern@, by@));
        }
    }
    assert(r@ + replaced(s@.skip(i as int), pattern@, by@) =~= r@);
    r
}

// ---------------------------------------------------------------------------
// UTF-16
// ---------------------------------------------------------------------------

/// Whether a code unit is the first half of a surrogate pair.
pub open spec fn is_high_surrogate(unit: u16) -> bool {
    0xD800 <= unit <= 0xDBFF
}

/// Whether a code unit is the second half of a surrogate pair.
pub open spec fn is_low_surrogate(unit: u16) -> bool {
    0xDC00 <= unit <= 0xDFFF
}

/// The character of a surrogate pair.
pub open spec fn paired(high: u16, low: u16) -> char {
    (0x10000 + (high - 0xD800) * 0x400 + (low - 0xDC00)) as char
}

/// The text that UTF-16 code units stand for. Each half of a surrogate pair that
/// lacks its other half stands for the replacement character.
pub open spec fn utf16_lossy(units: Seq<u16>) -> Seq<char>
    decreases units.len(),
{
    if units.len() == 0 {
        Seq::empty()
    } else if !is_high_surrogate(units[0]) && !is_low_surrogate(units[0]) {
        seq![units[0] as char] + utf16_lossy(units.skip(1))
    } else if is_high_surrogate(units[0]) && units.len() > 1 && is_low_surrogate(units[1]) {
        seq![paired(units[0], units[1])] + utf16_lossy(units.skip(2))
    } else {
        seq!['\u{FFFD}'] + utf16_lossy(units.skip(1))
    }
}

/// The text that UTF-16 code units stand for, with the replacement character for
/// what is not valid.
pub fn decode_utf16(units: &[u16]) -> (r: String)
    ensures
        r@ == utf16_lossy(units@),
{
    let n: usize = units.len();
    let mut r: String = String::new();
    let mut i: usize = 0;
    assert(units@.skip(0) =~= units@);
    while i < n
        invariant
            n == units@.len(),
            i <= n,
            utf16_lossy(units@) == r@ + utf16_lossy(units@.skip(i as int)),
        decreases n - i,
    {
        let ghost rest = units@.skip(i as int);
        let ghost before = r@;
        let unit: u16 = units[i];
        let low: u16 = if i + 1 < n { units[i + 1] } else { 0 };
        let mut code: u32 = 0xFFFD;
        let mut taken: usize = 1;
        if unit < 0xD800 || unit > 0xDFFF {
            code = unit as u32;
        } else if unit <= 0xDBFF && 0xDC00 <= low && low <= 0xDFFF {
            code = 0x10000 + (unit as u32 - 0xD800) * 0x400 + (low as u32 - 0xDC00);
            taken = 2;
        }
        let c: char = char::from_u32(code).unwrap();
        r.push(c);
        i += taken;
        assert(rest.skip(taken as int) =~= units@.skip(i as int));
        assert(utf16_lossy(rest) == seq![c] + utf16_lossy(units@.skip(i as int)));
        assert(before + (seq![c] + utf16_lossy(units@.skip(i as int))) =~= r@ + utf16_lossy(
            units@.skip(i as int),
        ));
    }
    assert(r@ + utf16_lossy(units@.skip(i as int)) =~= r@);
    r
}

// ---------------------------------------------------------------------------
// Laws
// ---------------------------------------------------------------------------

/// The digit of each character from `0` to `9` counts what it says, and no digits
/// count nothing.
pub proof fn one_digit_counts_itself(c: char)
    requires
        '0' <= c <= '9',
    ensures
        numeral_value(seq![c]) == c as int - 48,
        numeral_value(Seq::empty()) == 0,
{
    assert(seq![c].drop_last() =~= Seq::<char>::empty());
    assert(numeral_value(seq![c].drop_last()) == 0);
}

/// The digits on the left count ten times as much for each digit on their right.
pub proof fn digits_count_by_their_place(a: Seq<char>, b: Seq<char>)
    ensures
        numeral_value(a + b) == numeral_value(a) * vstd::arithmetic::power::pow(10, b.len())
            + numeral_value(b),
    decreases b.len(),
{
    reveal(vstd::arithmetic::power::pow);
    if b.len() == 0 {
        assert(a + b =~= a);
        assert(vstd::arithmetic::power::pow(10, 0) == 1);
    } else {
        let rest = b.drop_last();
        digits_count_by_their_place(a, rest);
        assert((a + b).drop_last() =~= a + rest);
        let high = numeral_value(a) as int;
        let place = vstd::arithmetic::power::pow(10, rest.len());
        assert((high * place) * 10 == high * (10 * place)) by (nonlinear_arith);
    }
}

/// A decimal numeral is written in the characters from `0` to `9`, begins with a
/// zero only where it is zero, and counts the number that it was made from.
pub proof fn decimal_is_the_shortest_numeral(n: nat)
    ensures
        decimal(n).len() > 0,
        forall|i: int| 0 <= i < decimal(n).len() ==> '0' <= #[trigger] decimal(n)[i] <= '9',
        decimal(n)[0] == '0' ==> n == 0 && decimal(n).len() == 1,
        numeral_value(decimal(n)) == n,
    decreases n,
{
    lemma_decimal_value(n);
    assert forall|i: int| 0 <= i < decimal(n).len() implies '0' <= #[trigger] decimal(n)[i]
        <= '9' by {
        assert(is_digit(decimal(n)[i]));
    }
    if n >= 10 {
        decimal_is_the_shortest_numeral(n / 10);
        assert(decimal(n)[0] == decimal(n / 10)[0]);
    }
}

/// Digits are read as the number that they count, where it fits, and are refused
/// where it does not.
pub proof fn digits_are_read_where_they_fit(s: Seq<char>)
    requires
        s.len() > 0,
        forall|i: int| 0 <= i < s.len() ==> '0' <= #[trigger] s[i] <= '9',
    ensures
        parsed_usize(s) matches Some(n) ==> n == numeral_value(s),
        parsed_usize(s) is None <==> numeral_value(s) > usize::MAX,
{
    assert('0' <= s[0] <= '9');
    assert(without_plus(s) == s);
    assert(all_digits(s));
}

/// A plus sign before a numeral makes no difference.
pub proof fn plus_sign_makes_no_difference(s: Seq<char>)
    requires
        s.len() > 0,
        s[0] != '+',
    ensures
        parsed_usize(seq!['+'] + s) == parsed_usize(s),
{
    assert((seq!['+'] + s).skip(1) =~= s);
}

/// A text that is empty, or a plus sign alone, or that holds anything but a plus
/// sign at its start and digits, is no numeral.
pub proof fn only_numerals_are_read(s: Seq<char>, i: int)
    requires
        s.len() == 0 || s == seq!['+'] || (0 <= i < s.len() && !('0' <= s[i] <= '9') && (i > 0
            || s[i] != '+')),
    ensures
        parsed_usize(s) is None,
{
    let digits = without_plus(s);
    if s.len() > 0 && s != seq!['+'] {
        if s[0] == '+' {
            assert(digits[i - 1] == s[i]);
            assert(!is_digit(digits[i - 1]));
        } else {
            assert(!is_digit(digits[i]));
        }
    }
}

/// What stands before the first occurrence of a character lacks the character,
/// begins the text, and ends where the text ends or where the character stands.
pub proof fn first_occurrence_ends_the_part(s: Seq<char>, c: char)
    ensures
        !before_first(s, c).contains(c),
        before_first(s, c).len() <= s.len(),
        before_first(s, c) == s.take(before_first(s, c).len() as int),
        before_first(s, c).len() < s.len() ==> s[before_first(s, c).len() as int] == c,
{
    s.index_of_first_ensures(c);
    assert(s.take(s.len() as int) =~= s);
    if s.index_of_first(c) is None {
        assert(!s.contains(c));
    } else {
        let p = before_first(s, c);
        assert forall|j: int| 0 <= j < p.len() implies p[j] != c by {
            assert(p[j] == s[j]);
        }
    }
}

/// A pattern stands where the text holds its characters, one after another.
pub proof fn pattern_stands_where_its_characters_do(s: Seq<char>, pattern: Seq<char>, i: int)
    ensures
        occurs_at(s, pattern, i) <==> {
            &&& 0 <= i
            &&& i + pattern.len() <= s.len()
            &&& forall|j: int| 0 <= j < pattern.len() ==> s[i + j] == #[trigger] pattern[j]
        },
{
    if 0 <= i && i + pattern.len() <= s.len() {
        let part = s.subrange(i, i + pattern.len());
        if occurs_at(s, pattern, i) {
            assert forall|j: int| 0 <= j < pattern.len() implies s[i + j]
                == #[trigger] pattern[j] by {
                assert(part[j] == s[i + j]);
            }
        } else if forall|j: int| 0 <= j < pattern.len() ==> s[i + j] == #[trigger] pattern[j] {
            assert(part =~= pattern);
        }
    }
}

/// A text that the pattern does not stand in is kept.
pub proof fn text_without_the_pattern_is_kept(s: Seq<char>, pattern: Seq<char>, by: Seq<char>)
    requires
        forall|i: int| !occurs_at(s, pattern, i),
    ensures
        replaced(s, pattern, by) == s,
    decreases s.len(),
{
    if pattern.len() > 0 && s.len() > 0 {
        let rest = s.skip(1);
        assert forall|i: int| !occurs_at(rest, pattern, i) by {
            if occurs_at(rest, pattern, i) {
                assert(s.subrange(i + 1, i + 1 + pattern.len()) =~= rest.subrange(
                    i,
                    i + pattern.len(),
                ));
                assert(occurs_at(s, pattern, i + 1));
            }
        }
        text_without_the_pattern_is_kept(rest, pattern, by);
        assert(!occurs_at(s, pattern, 0));
        assert(replaced(s, pattern, by) =~= s);
    }
}

/// Where the pattern first stands behind `a` and before `b`, the replacement
/// stands there, `a` is kept, and `b` is gone through in the same way.
pub proof fn first_occurrence_is_replaced(
    a: Seq<char>,
    pattern: Seq<char>,
    b: Seq<char>,
    by: Seq<char>,
)
    requires
        pattern.len() > 0,
        forall|i: int| 0 <= i < a.len() ==> !occurs_at(a + pattern + b, pattern, i),
    ensures
        replaced(a + pattern + b, pattern, by) == a + by + replaced(b, pattern, by),
    decreases a.len(),
{
    let s = a + pattern + b;
    let p = pattern.len() as int;
    if a.len() == 0 {
        assert(s.subrange(0, p) =~= pattern);
        assert(s.skip(p) =~= b);
        assert(replaced(s, pattern, by) =~= a + by + replaced(b, pattern, by));
    } else {
        let rest = a.skip(1);
        let t = rest + pattern + b;
        assert(s.skip(1) =~= t);
        assert forall|i: int| 0 <= i < rest.len() implies !occurs_at(t, pattern, i) by {
            assert(s.subrange(i + 1, i + 1 + p) =~= t.subrange(i, i + p));
            assert(!occurs_at(s, pattern, i + 1));
        }
        first_occurrence_is_replaced(rest, pattern, b, by);
        assert(!occurs_at(s, pattern, 0));
        assert(replaced(s, pattern, by) =~= a + by + replaced(b, pattern, by));
    }
}

/// The UTF-16 code units of a text: one for each character below 0x10000, and two
/// for each other.
pub open spec fn utf16(s: Seq<char>) -> Seq<u16>
    decreases s.len(),
{
    if s.len() == 0 {
        Seq::empty()
    } else {
        let code = s[0] as int;
        (if code < 0x10000 {
            seq![code as u16]
        } else {
            seq![
                (0xD800 + (code - 0x10000) / 0x400) as u16,
                (0xDC00 + (code - 0x10000) % 0x400) as u16,
            ]
        }) + utf16(s.skip(1))
    }
}

/// No character is a surrogate, and none lies above 0x10FFFF.
proof fn lemma_char_range(c: char)
    ensures
        0 <= c as int <= 0xD7FF || 0xE000 <= c as int <= 0x10FFFF,
{
}

/// Decoding the code units of any text gives back the text.
pub proof fn decoding_gives_back_the_text(s: Seq<char>)
    ensures
        utf16_lossy(utf16(s)) == s,
    decreases s.len(),
{
    if s.len() > 0 {
        let units = utf16(s);
        let rest = s.skip(1);
        decoding_gives_back_the_text(rest);
        let code = s[0] as int;
        lemma_char_range(s[0]);
        if code < 0x10000 {
            assert(units.skip(1) =~= utf16(rest));
        } else {
            assert(units.skip(2) =~= utf16(rest));
            assert(0x10000 + (units[0] - 0xD800) * 0x400 + (units[1] - 0xDC00) == code);
        }
        assert(utf16_lossy(units) =~= s);
    }
}

/// A surrogate that stands alone is decoded as the replacement character.
pub proof fn lone_surrogate_is_replaced(unit: u16)
    requires
        0xD800 <= unit <= 0xDFFF,
    ensures
        utf16_lossy(seq![unit]) == seq!['\u{FFFD}'],
{
    assert(seq![unit].skip(1) =~= Seq::<u16>::empty());
    assert(utf16_lossy(seq![unit].skip(1)) =~= Seq::<char>::empty());
    assert(utf16_lossy(seq![unit]) =~= seq!['\u{FFFD}']);
}

/// Code units may be decoded in pieces, unless a piece ends between the halves of
/// a surrogate pair.
pub proof fn decoding_goes_piece_by_piece(a: Seq<u16>, b: Seq<u16>)
    requires
        a.len() > 0 && b.len() > 0 ==> !(0xD800 <= a.last() <= 0xDBFF && 0xDC00 <= b[0] <= 0xDFFF),
    ensures
        utf16_lossy(a + b) == utf16_lossy(a) + utf16_lossy(b),
    decreases a.len(),
{
    if a.len() == 0 {
        assert(a + b =~= b);
        assert(utf16_lossy(a) + utf16_lossy(b) =~= utf16_lossy(b));
    } else if is_high_surrogate(a[0]) && a.len() > 1 && is_low_surrogate(a[1]) {
        decoding_goes_piece_by_piece(a.skip(2), b);
        assert((a + b).skip(2) =~= a.skip(2) + b);
        assert(utf16_lossy(a + b) =~= utf16_lossy(a) + utf16_lossy(b));
    } else {
        decoding_goes_piece_by_piece(a.skip(1), b);
        assert((a + b).skip(1) =~= a.skip(1) + b);
        assert(utf16_lossy(a + b) =~= utf16_lossy(a) + utf16_lossy(b));
    }
}

} // verus!
