//! Text helpers: comparison, blank detection, trimming, decimal and hexadecimal digits.

use vstd::prelude::*;

verus! {

/// Whether a character has the Unicode `White_Space` property.
pub open spec fn is_white_space_spec(c: char) -> bool {
    ||| '\u{9}' <= c <= '\u{d}'
    ||| c == '\u{20}'
    ||| c == '\u{85}'
    ||| c == '\u{a0}'
    ||| c == '\u{1680}'
    ||| '\u{2000}' <= c <= '\u{200a}'
    ||| c == '\u{2028}'
    ||| c == '\u{2029}'
    ||| c == '\u{202f}'
    ||| c == '\u{205f}'
    ||| c == '\u{3000}'
}

/// Whether a text holds nothing but white space.
pub open spec fn blank(s: Seq<char>) -> bool {
    forall|i: int| 0 <= i < s.len() ==> is_white_space_spec(#[trigger] s[i])
}

/// Tests one character for the `White_Space` property.
pub fn is_white_space(c: char) -> (r: bool)
    ensures
        r == is_white_space_spec(c),
{
    ('\u{9}' <= c && c <= '\u{d}') || c == '\u{20}' || c == '\u{85}' || c == '\u{a0}' || c
        == '\u{1680}' || ('\u{2000}' <= c && c <= '\u{200a}') || c == '\u{2028}' || c == '\u{2029}'
        || c == '\u{202f}' || c == '\u{205f}' || c == '\u{3000}'
}

/// Collects the characters of a text.
pub fn chars_of(s: &str) -> (r: Vec<char>)
    ensures
        r@ == s@,
{
    let mut r: Vec<char> = Vec::new();
    for c in it: s.chars()
        invariant
            r@ == it.seq().take(it.index()),
            it.seq() == s@,
    {
        r.push(c);
    }
    r
}

/// Whether a text is empty once white space around it is dropped.
pub fn is_blank(s: &str) -> (r: bool)
    ensures
        r == blank(s@),
{
    let chars: Vec<char> = chars_of(s);
    let mut i: usize = 0;
    while i < chars.len()
        invariant
            i <= chars.len(),
            chars@ == s@,
            forall|j: int| 0 <= j < i ==> is_white_space_spec(#[trigger] chars@[j]),
        decreases chars.len() - i,
    {
        if !is_white_space(chars[i]) {
            assert(!is_white_space_spec(chars@[i as int]));
            return false;
        }
        i += 1;
    }
    true
}

/// Compares two texts.
pub fn str_eq(a: &str, b: &str) -> (r: bool)
    ensures
        r == (a@ == b@),
{
    let x = a.as_bytes();
    let y = b.as_bytes();
    proof {
        vstd::utf8::encode_utf8_decode_utf8(a@);
        vstd::utf8::encode_utf8_decode_utf8(b@);
    }
    if x.len() != y.len() {
        return false;
    }
    let mut i: usize = 0;
    while i < x.len()
        invariant
            i <= x.len(),
            x.len() == y.len(),
            x@ == vstd::utf8::encode_utf8(a@),
            y@ == vstd::utf8::encode_utf8(b@),
            forall|j: int| 0 <= j < i ==> x@[j] == y@[j],
        decreases x.len() - i,
    {
        if x[i] != y[i] {
            return false;
        }
        i += 1;
    }
    assert(x@ =~= y@);
    assert(vstd::utf8::decode_utf8(x@) == a@);
    true
}

/// The number of leading white-space characters.
pub open spec fn leading_white_space(s: Seq<char>) -> nat
    decreases s.len(),
{
    if s.len() > 0 && is_white_space_spec(s[0]) {
        1 + leading_white_space(s.subrange(1, s.len() as int))
    } else {
        0
    }
}

/// The number of trailing white-space characters.
pub open spec fn trailing_white_space(s: Seq<char>) -> nat
    decreases s.len(),
{
    if s.len() > 0 && is_white_space_spec(s.last()) {
        1 + trailing_white_space(s.drop_last())
    } else {
        0
    }
}

/// A text without the white space around it.
pub open spec fn trimmed(s: Seq<char>) -> Seq<char> {
    let rest = s.subrange(leading_white_space(s) as int, s.len() as int);
    rest.subrange(0, rest.len() - trailing_white_space(rest))
}

proof fn lemma_leading_bound(s: Seq<char>)
    ensures
        leading_white_space(s) <= s.len(),
    decreases s.len(),
{
    if s.len() > 0 && is_white_space_spec(s[0]) {
        lemma_leading_bound(s.subrange(1, s.len() as int));
    }
}

proof fn lemma_trailing_bound(s: Seq<char>)
    ensures
        trailing_white_space(s) <= s.len(),
    decreases s.len(),
{
    if s.len() > 0 && is_white_space_spec(s.last()) {
        lemma_trailing_bound(s.drop_last());
    }
}

/// Trimming leaves nothing exactly when the text is blank, and neither end of
/// what it leaves is white space.
pub proof fn lemma_trimmed(s: Seq<char>)
    ensures
        trimmed(s).len() == 0 <==> blank(s),
        trimmed(s).len() > 0 ==> !is_white_space_spec(trimmed(s)[0]) && !is_white_space_spec(
            trimmed(s).last(),
        ),
{
    lemma_leading_bound(s);
    lemma_leading_exact(s);
    let n = leading_white_space(s) as int;
    let rest = s.subrange(n, s.len() as int);
    lemma_trailing_bound(rest);
    lemma_trailing_exact(rest);
    if n < s.len() {
        assert(rest[0] == s[n]);
        if trailing_white_space(rest) == rest.len() {
            assert(is_white_space_spec(rest[0]));
        }
        assert(!blank(s));
    } else {
        assert(blank(s));
    }
}

proof fn lemma_leading_exact(s: Seq<char>)
    ensures
        leading_white_space(s) <= s.len(),
        forall|i: int| 0 <= i < leading_white_space(s) ==> is_white_space_spec(#[trigger] s[i]),
        leading_white_space(s) < s.len() ==> !is_white_space_spec(
            s[leading_white_space(s) as int],
        ),
    decreases s.len(),
{
    if s.len() > 0 && is_white_space_spec(s[0]) {
        let rest = s.subrange(1, s.len() as int);
        lemma_leading_exact(rest);
        assert forall|i: int| 0 <= i < leading_white_space(s) implies is_white_space_spec(
            #[trigger] s[i],
        ) by {
            if i > 0 {
                assert(rest[i - 1] == s[i]);
            }
        }
    }
}

proof fn lemma_trailing_exact(s: Seq<char>)
    ensures
        trailing_white_space(s) <= s.len(),
        forall|i: int|
            s.len() - trailing_white_space(s) <= i < s.len() ==> is_white_space_spec(
                #[trigger] s[i],
            ),
        trailing_white_space(s) < s.len() ==> !is_white_space_spec(
            s[s.len() - trailing_white_space(s) - 1],
        ),
    decreases s.len(),
{
    if s.len() > 0 && is_white_space_spec(s.last()) {
        let rest = s.drop_last();
        lemma_trailing_exact(rest);
        assert forall|i: int|
            s.len() - trailing_white_space(s) <= i < s.len() implies is_white_space_spec(
            #[trigger] s[i],
        ) by {
            if i < s.len() - 1 {
                assert(rest[i] == s[i]);
            }
        }
    }
}

/// The run of leading white space is the only one with this shape.
proof fn lemma_leading_unique(s: Seq<char>, n: int)
    requires
        0 <= n <= s.len(),
        forall|i: int| 0 <= i < n ==> is_white_space_spec(#[trigger] s[i]),
        n < s.len() ==> !is_white_space_spec(s[n]),
    ensures
        leading_white_space(s) == n,
{
    lemma_leading_exact(s);
    let k = leading_white_space(s) as int;
    if k < n {
        assert(is_white_space_spec(s[k]));
    } else if n < k {
        assert(is_white_space_spec(s[n]));
    }
}

/// The run of trailing white space is the only one with this shape.
proof fn lemma_trailing_unique(s: Seq<char>, n: int)
    requires
        0 <= n <= s.len(),
        forall|i: int| s.len() - n <= i < s.len() ==> is_white_space_spec(#[trigger] s[i]),
        n < s.len() ==> !is_white_space_spec(s[s.len() - n - 1]),
    ensures
        trailing_white_space(s) == n,
{
    lemma_trailing_exact(s);
    let k = trailing_white_space(s) as int;
    if k < n {
        assert(is_white_space_spec(s[s.len() - k - 1]));
    } else if n < k {
        assert(is_white_space_spec(s[s.len() - n - 1]));
    }
}

/// Drops the white space around a text.
pub fn trim(s: &str) -> (r: &str)
    ensures
        r@ == trimmed(s@),
{
    let chars: Vec<char> = chars_of(s);
    let mut start: usize = 0;
    while start < chars.len() && is_white_space(chars[start])
        invariant
            start <= chars.len(),
            forall|j: int| 0 <= j < start ==> is_white_space_spec(#[trigger] chars@[j]),
        decreases chars.len() - start,
    {
        start += 1;
    }
    proof {
        lemma_leading_unique(chars@, start as int);
    }
    let mut end: usize = chars.len();
    while end > start && is_white_space(chars[end - 1])
        invariant
            start <= end <= chars.len(),
            forall|j: int| end <= j < chars@.len() ==> is_white_space_spec(#[trigger] chars@[j]),
        decreases end,
    {
        end -= 1;
    }
    proof {
        let rest = chars@.subrange(start as int, chars@.len() as int);
        assert forall|i: int|
            rest.len() - (chars@.len() - end) <= i < rest.len() implies is_white_space_spec(
            #[trigger] rest[i],
        ) by {
            assert(rest[i] == chars@[i + start]);
        }
        lemma_trailing_unique(rest, chars@.len() - end);
        assert(trimmed(s@) =~= s@.subrange(start as int, end as int));
    }
    s.substring_char(start, end)
}

/// The lower-case form of an ASCII letter; every other character is kept.
pub open spec fn ascii_lower(c: char) -> char {
    if 'A' <= c <= 'Z' {
        (c as u32 + 32) as char
    } else {
        c
    }
}

/// A text with its ASCII letters in lower case.
pub open spec fn ascii_lower_text(s: Seq<char>) -> Seq<char> {
    s.map_values(|c: char| ascii_lower(c))
}

/// Whether two characters are the same up to ASCII case.
pub fn char_eq_ignore_case(a: char, b: char) -> (r: bool)
    ensures
        r == (ascii_lower(a) == ascii_lower(b)),
{
    lower_code(a) == lower_code(b)
}

fn lower_code(c: char) -> (r: u32)
    ensures
        r == ascii_lower(c) as u32,
{
    if 'A' <= c && c <= 'Z' {
        c as u32 + 32
    } else {
        c as u32
    }
}

/// Compares two texts up to ASCII case.
pub fn eq_ignore_ascii_case(a: &str, b: &str) -> (r: bool)
    ensures
        r == (ascii_lower_text(a@) == ascii_lower_text(b@)),
{
    let x: Vec<char> = chars_of(a);
    let y: Vec<char> = chars_of(b);
    if x.len() != y.len() {
        assert(ascii_lower_text(a@).len() != ascii_lower_text(b@).len());
        return false;
    }
    let mut i: usize = 0;
    while i < x.len()
        invariant
            i <= x.len(),
            x.len() == y.len(),
            x@ == a@,
            y@ == b@,
            forall|j: int| 0 <= j < i ==> ascii_lower(#[trigger] x@[j]) == ascii_lower(y@[j]),
        decreases x.len() - i,
    {
        if !char_eq_ignore_case(x[i], y[i]) {
            assert(ascii_lower_text(a@)[i as int] != ascii_lower_text(b@)[i as int]);
            return false;
        }
        i += 1;
    }
    assert(ascii_lower_text(a@) =~= ascii_lower_text(b@));
    true
}

/// The character of a decimal digit.
pub open spec fn digit_char(d: nat) -> char {
    (48 + d) as char
}

/// A number in decimal, without leading zeros.
pub open spec fn decimal_text(n: nat) -> Seq<char>
    decreases n,
{
    if n < 10 {
        seq![digit_char(n)]
    } else {
        decimal_text(n / 10).push(digit_char(n % 10))
    }
}

fn digit_text(d: u64) -> (r: &'static str)
    requires
        d < 10,
    ensures
        r@ == seq![digit_char(d as nat)],
{
    proof {
        reveal_strlit("0");
        reveal_strlit("1");
        reveal_strlit("2");
        reveal_strlit("3");
        reveal_strlit("4");
        reveal_strlit("5");
        reveal_strlit("6");
        reveal_strlit("7");
        reveal_strlit("8");
        reveal_strlit("9");
    }
    if d == 0 {
        "0"
    } else if d == 1 {
        "1"
    } else if d == 2 {
        "2"
    } else if d == 3 {
        "3"
    } else if d == 4 {
        "4"
    } else if d == 5 {
        "5"
    } else if d == 6 {
        "6"
    } else if d == 7 {
        "7"
    } else if d == 8 {
        "8"
    } else {
        "9"
    }
}

/// Writes a number in decimal.
pub fn decimal(n: u64) -> (r: String)
    ensures
        r@ == decimal_text(n as nat),
    decreases n,
{
    if n < 10 {
        digit_text(n).to_owned()
    } else {
        let mut r: String = decimal(n / 10);
        r.append(digit_text(n % 10));
        assert(r@ =~= decimal_text((n / 10) as nat).push(digit_char((n % 10) as nat)));
        r
    }
}

/// Joins two texts.
pub fn concat(a: &str, b: &str) -> (r: String)
    ensures
        r@ == a@ + b@,
{
    let mut r: String = a.to_owned();
    r.append(b);
    r
}

/// Joins three texts.
pub fn concat3(a: &str, b: &str, c: &str) -> (r: String)
    ensures
        r@ == a@ + b@ + c@,
{
    let mut r: String = concat(a, b);
    r.append(c);
    r
}

/// Whether a byte is a decimal digit.
pub open spec fn is_digit_byte(b: u8) -> bool {
    48 <= b <= 57
}

/// Whether bytes are one or more decimal digits.
pub open spec fn all_digits(s: Seq<u8>) -> bool {
    s.len() > 0 && forall|i: int| 0 <= i < s.len() ==> is_digit_byte(#[trigger] s[i])
}

/// The number that decimal digits stand for.
pub open spec fn digits_value(s: Seq<u8>) -> nat
    decreases s.len(),
{
    if s.len() == 0 {
        0
    } else {
        10 * digits_value(s.drop_last()) + (s.last() - 48) as nat
    }
}

/// The bytes behind a leading plus sign, or all of them where there is none.
pub open spec fn without_plus(s: Seq<u8>) -> Seq<u8> {
    if s.len() > 0 && s[0] == 43 {
        s.subrange(1, s.len() as int)
    } else {
        s
    }
}

/// The number up to `max` that a text of digits, with or without a plus sign
/// before them, stands for.
pub open spec fn unsigned_value(s: Seq<u8>, max: nat) -> Option<nat> {
    let digits = without_plus(s);
    if all_digits(digits) && digits_value(digits) <= max {
        Some(digits_value(digits))
    } else {
        None
    }
}

proof fn lemma_digits_value_grows(s: Seq<u8>, n: int)
    requires
        0 <= n <= s.len(),
        all_digits(s),
    ensures
        digits_value(s.take(n)) <= digits_value(s),
    decreases s.len() - n,
{
    if n < s.len() {
        lemma_digits_value_grows(s, n + 1);
        assert(s.take(n + 1).drop_last() =~= s.take(n));
        assert(is_digit_byte(s[n]));
    } else {
        assert(s.take(n) =~= s);
    }
}

/// Why a text is not a number.
#[derive(Clone, Copy, Debug, PartialEq, Eq, Structural)]
pub enum NumberProblem {
    /// There is nothing to read.
    Empty,
    /// Something is not a digit.
    InvalidDigit,
    /// The number is too large.
    TooLarge,
}

/// The text that describes why a text is not a number.
pub open spec fn number_problem_text(problem: NumberProblem) -> Seq<char> {
    match problem {
        NumberProblem::Empty => "cannot parse integer from empty string"@,
        NumberProblem::InvalidDigit => "invalid digit found in string"@,
        NumberProblem::TooLarge => "number too large to fit in target type"@,
    }
}

impl NumberProblem {
    /// Describes the problem.
    pub fn message(&self) -> (r: &'static str)
        ensures
            r@ == number_problem_text(*self),
    {
        match self {
            NumberProblem::Empty => "cannot parse integer from empty string",
            NumberProblem::InvalidDigit => "invalid digit found in string",
            NumberProblem::TooLarge => "number too large to fit in target type",
        }
    }
}

/// The first problem from the left with digits that stand for a number of at most
/// `max`: what is no digit, or the digit with which the number becomes too large.
pub open spec fn digits_problem(s: Seq<u8>, max: nat) -> Option<NumberProblem>
    decreases s.len(),
{
    if s.len() == 0 {
        None
    } else if digits_problem(s.drop_last(), max) is Some {
        digits_problem(s.drop_last(), max)
    } else if !is_digit_byte(s.last()) {
        Some(NumberProblem::InvalidDigit)
    } else if digits_value(s) > max {
        Some(NumberProblem::TooLarge)
    } else {
        None
    }
}

/// Why a text is not a number of at most `max`. A plus sign alone is not.
pub open spec fn number_problem(s: Seq<u8>, max: nat) -> Option<NumberProblem> {
    if s.len() == 0 {
        Some(NumberProblem::Empty)
    } else if without_plus(s).len() == 0 {
        Some(NumberProblem::InvalidDigit)
    } else {
        digits_problem(without_plus(s), max)
    }
}

proof fn lemma_first_problem_stays(s: Seq<u8>, max: nat, n: int)
    requires
        0 <= n <= s.len(),
        digits_problem(s.take(n), max) is Some,
    ensures
        digits_problem(s, max) == digits_problem(s.take(n), max),
    decreases s.len() - n,
{
    if n < s.len() {
        assert(s.take(n + 1).drop_last() =~= s.take(n));
        lemma_first_problem_stays(s, max, n + 1);
    } else {
        assert(s.take(n) =~= s);
    }
}

proof fn lemma_digits_without_problem(s: Seq<u8>, max: nat)
    ensures
        s.len() > 0 ==> (digits_problem(s, max) is None <==> all_digits(s) && digits_value(s)
            <= max),
    decreases s.len(),
{
    if s.len() > 0 {
        let front = s.drop_last();
        lemma_digits_without_problem(front, max);
        if all_digits(s) {
            lemma_digits_value_grows(s, s.len() - 1);
            assert(s.take(s.len() - 1) =~= front);
            if front.len() > 0 {
                assert(forall|i: int|
                    0 <= i < front.len() ==> is_digit_byte(#[trigger] front[i])) by {
                    assert(forall|i: int| 0 <= i < front.len() ==> front[i] == s[i]);
                }
            }
        }
        if digits_problem(s, max) is None {
            assert forall|i: int| 0 <= i < s.len() implies is_digit_byte(#[trigger] s[i]) by {
                if i < front.len() {
                    assert(front[i] == s[i]);
                }
            }
        }
    }
}

/// A text is a number exactly where there is no problem with it.
pub proof fn law_number_has_no_problem(s: Seq<u8>, max: nat)
    ensures
        unsigned_value(s, max) is Some <==> number_problem(s, max) is None,
{
    lemma_digits_without_problem(without_plus(s), max);
}

fn read_digits(digits: &[u8], max: u64) -> (r: Result<u64, NumberProblem>)
    ensures
        r is Ok <==> digits_problem(digits@, max as nat) is None,
        r matches Ok(n) ==> n == digits_value(digits@),
        r matches Err(problem) ==> digits_problem(digits@, max as nat) == Some(problem),
{
    let mut value: u64 = 0;
    let mut i: usize = 0;
    assert(digits@.take(0) =~= Seq::empty());
    while i < digits.len()
        invariant
            i <= digits.len(),
            digits_problem(digits@.take(i as int), max as nat) is None,
            value == digits_value(digits@.take(i as int)),
            value <= max,
        decreases digits.len() - i,
    {
        let b: u8 = digits[i];
        let ghost shown = digits@.take(i + 1);
        proof {
            assert(shown.drop_last() =~= digits@.take(i as int));
            assert(shown.last() == b);
            if digits_problem(shown, max as nat) is Some {
                lemma_first_problem_stays(digits@, max as nat, i + 1);
            }
        }
        if b < 48 || b > 57 {
            return Err(NumberProblem::InvalidDigit);
        }
        let digit: u64 = (b - 48) as u64;
        if value > max / 10 || digit > max - 10 * value {
            return Err(NumberProblem::TooLarge);
        }
        value = 10 * value + digit;
        i += 1;
    }
    assert(digits@.take(i as int) =~= digits@);
    Ok(value)
}

/// Reads a number of at most `max`.
pub fn parse_unsigned(bytes: &[u8], max: u64) -> (r: Result<u64, NumberProblem>)
    ensures
        r is Ok <==> unsigned_value(bytes@, max as nat) is Some,
        r matches Ok(n) ==> unsigned_value(bytes@, max as nat) == Some(n as nat),
        r matches Err(problem) ==> number_problem(bytes@, max as nat) == Some(problem),
{
    proof {
        law_number_has_no_problem(bytes@, max as nat);
    }
    if bytes.len() == 0 {
        return Err(NumberProblem::Empty);
    }
    if bytes[0] != 43 {
        return read_digits(bytes, max);
    }
    if bytes.len() == 1 {
        return Err(NumberProblem::InvalidDigit);
    }
    read_digits(vstd::slice::slice_subrange(bytes, 1, bytes.len()), max)
}

/// A number in decimal is its digits, and they stand for it.
pub proof fn lemma_decimal_digits(n: nat)
    ensures
        decimal_text(n).len() > 0,
        vstd::utf8::is_ascii_chars(decimal_text(n)),
        forall|i: int| 0 <= i < decimal_text(n).len() ==> '0' <= #[trigger] decimal_text(n)[i] <= '9',
        digits_value(decimal_text(n).map_values(|c: char| c as u8)) == n,
    decreases n,
{
    let all = decimal_text(n);
    let bytes = all.map_values(|c: char| c as u8);
    if n < 10 {
        assert(bytes.drop_last() =~= Seq::empty());
        assert(digits_value(bytes.drop_last()) == 0);
    } else {
        lemma_decimal_digits(n / 10);
        let front = decimal_text(n / 10);
        assert(bytes.drop_last() =~= front.map_values(|c: char| c as u8));
        assert(all.drop_last() =~= front);
        assert forall|i: int| 0 <= i < all.len() implies '0' <= #[trigger] all[i] <= '9' by {
            if i < front.len() {
                assert(all[i] == front[i]);
            }
        }
    }
}

/// Whether a text comes before another in the order of their characters.
pub open spec fn text_less(a: Seq<char>, b: Seq<char>) -> bool
    decreases a.len(),
{
    if b.len() == 0 {
        false
    } else if a.len() == 0 {
        true
    } else if a[0] != b[0] {
        a[0] < b[0]
    } else {
        text_less(a.drop_first(), b.drop_first())
    }
}

/// Of two different texts one comes first, and only one.
pub proof fn lemma_text_order(a: Seq<char>, b: Seq<char>)
    ensures
        a == b ==> !text_less(a, b),
        a != b ==> (text_less(a, b) <==> !text_less(b, a)),
    decreases a.len(),
{
    if a.len() > 0 && b.len() > 0 && a[0] == b[0] {
        lemma_text_order(a.drop_first(), b.drop_first());
        if a.drop_first() == b.drop_first() {
            assert(a =~= seq![a[0]] + a.drop_first());
            assert(b =~= seq![b[0]] + b.drop_first());
        }
    } else if a.len() == 0 && b.len() == 0 {
        assert(a =~= b);
    }
}

/// What comes before a text that comes before another comes before the other.
pub proof fn lemma_text_order_transitive(a: Seq<char>, b: Seq<char>, c: Seq<char>)
    requires
        text_less(a, b),
        text_less(b, c),
    ensures
        text_less(a, c),
    decreases a.len(),
{
    if a.len() > 0 && a[0] == b[0] && b[0] == c[0] {
        lemma_text_order_transitive(a.drop_first(), b.drop_first(), c.drop_first());
    }
}

/// Whether a text comes before another.
pub fn str_less(a: &str, b: &str) -> (r: bool)
    ensures
        r == text_less(a@, b@),
{
    let x: Vec<char> = chars_of(a);
    let y: Vec<char> = chars_of(b);
    let mut i: usize = 0;
    assert(a@.skip(0) =~= a@);
    assert(b@.skip(0) =~= b@);
    loop
        invariant
            i <= x.len(),
            i <= y.len(),
            x@ == a@,
            y@ == b@,
            text_less(a@, b@) == text_less(a@.skip(i as int), b@.skip(i as int)),
        decreases x.len() - i,
    {
        if i == y.len() {
            return false;
        }
        if i == x.len() {
            return true;
        }
        if x[i] != y[i] {
            return x[i] < y[i];
        }
        proof {
            assert(a@.skip(i as int).drop_first() =~= a@.skip(i + 1));
            assert(b@.skip(i as int).drop_first() =~= b@.skip(i + 1));
        }
        i += 1;
    }
}

/// The text of a hexadecimal digit in lower case.
pub fn lower_hex_digit(c: char) -> (r: &'static str)
    requires
        crate::encoding::is_hex_char(c),
    ensures
        r@ == seq![ascii_lower(c)],
{
    proof {
        reveal_strlit("a");
        reveal_strlit("b");
        reveal_strlit("c");
        reveal_strlit("d");
        reveal_strlit("e");
        reveal_strlit("f");
    }
    if c <= '9' {
        digit_text((c as u32 - 48) as u64)
    } else if c == 'a' || c == 'A' {
        "a"
    } else if c == 'b' || c == 'B' {
        "b"
    } else if c == 'c' || c == 'C' {
        "c"
    } else if c == 'd' || c == 'D' {
        "d"
    } else if c == 'e' || c == 'E' {
        "e"
    } else {
        "f"
    }
}

} // verus!
