//! How texts and numbers are read, written and put in order.
use crate::encoding;
use crate::number;
use crate::text::NumberProblem;
use crate::text;
use vstd::arithmetic::power;
use vstd::prelude::*;

verus! {

/// Of the ASCII characters, the space and the controls from tab to carriage return are
/// white space, and no others.
pub proof fn law_ascii_white_space(c: char)
    requires
        c as u32 <= 127,
    ensures
        text::is_white_space_spec(c) <==> c == ' ' || c == '\t' || c == '\n' || c == '\u{b}' || c
            == '\u{c}' || c == '\r',
{
}

/// Trimming takes white space from both ends, and nothing else: a text that neither begins
/// nor ends with white space is left of itself with any white space around it.
pub proof fn law_trimming_takes_only_white_space(
    before: Seq<char>,
    core: Seq<char>,
    behind: Seq<char>,
)
    requires
        forall|i: int| 0 <= i < before.len() ==> text::is_white_space_spec(#[trigger] before[i]),
        forall|i: int| 0 <= i < behind.len() ==> text::is_white_space_spec(#[trigger] behind[i]),
        core.len() > 0,
        !text::is_white_space_spec(core[0]),
        !text::is_white_space_spec(core.last()),
    ensures
        text::trimmed(before + core + behind) == core,
{
    let s = before + core + behind;
    lemma_leading(before, core + behind);
    assert(before + (core + behind) =~= s);
    let rest = s.subrange(before.len() as int, s.len() as int);
    assert(rest =~= core + behind);
    lemma_trailing(core, behind);
    assert(rest.subrange(0, core.len() as int) =~= core);
}

proof fn lemma_leading(before: Seq<char>, rest: Seq<char>)
    requires
        forall|i: int| 0 <= i < before.len() ==> text::is_white_space_spec(#[trigger] before[i]),
        rest.len() > 0,
        !text::is_white_space_spec(rest[0]),
    ensures
        text::leading_white_space(before + rest) == before.len(),
    decreases before.len(),
{
    let s = before + rest;
    if before.len() > 0 {
        let fewer = before.drop_first();
        assert forall|i: int| 0 <= i < fewer.len() implies text::is_white_space_spec(
            #[trigger] fewer[i],
        ) by {
            assert(fewer[i] == before[i + 1]);
        }
        assert(s[0] == before[0]);
        assert(s.subrange(1, s.len() as int) =~= fewer + rest);
        lemma_leading(fewer, rest);
    } else {
        assert(s =~= rest);
    }
}

proof fn lemma_trailing(front: Seq<char>, behind: Seq<char>)
    requires
        forall|i: int| 0 <= i < behind.len() ==> text::is_white_space_spec(#[trigger] behind[i]),
        front.len() > 0,
        !text::is_white_space_spec(front.last()),
    ensures
        text::trailing_white_space(front + behind) == behind.len(),
    decreases behind.len(),
{
    let s = front + behind;
    if behind.len() > 0 {
        let fewer = behind.drop_last();
        assert forall|i: int| 0 <= i < fewer.len() implies text::is_white_space_spec(
            #[trigger] fewer[i],
        ) by {
            assert(fewer[i] == behind[i]);
        }
        assert(s.last() == behind[behind.len() - 1]);
        assert(s.drop_last() =~= front + fewer);
        lemma_trailing(front, fewer);
    } else {
        assert(s =~= front);
    }
}

/// Lower case replaces each capital letter of ASCII by its small one, keeps every other
/// character, and changes nothing of what is in lower case already.
pub proof fn law_lower_case_changes_only_capitals(s: Seq<char>, i: int)
    requires
        0 <= i < s.len(),
    ensures
        text::ascii_lower_text(s).len() == s.len(),
        'A' <= s[i] <= 'Z' ==> text::ascii_lower_text(s)[i] as u32 - 'a' as u32 == s[i] as u32
            - 'A' as u32,
        !('A' <= s[i] <= 'Z') ==> text::ascii_lower_text(s)[i] == s[i],
        text::ascii_lower_text(text::ascii_lower_text(s)) == text::ascii_lower_text(s),
{
    assert(text::ascii_lower_text(text::ascii_lower_text(s)) =~= text::ascii_lower_text(s));
}

/// A number in decimal is read back, whether a plus sign stands before it or not, exactly
/// where it is within the limit.
pub proof fn law_decimal_number_is_read_back(n: nat, max: nat)
    ensures
        ({
            let digits = text::decimal_text(n).map_values(|c: char| c as u8);
            &&& n <= max ==> text::unsigned_value(digits, max) == Some(n)
            &&& n > max ==> text::unsigned_value(digits, max) is None
            &&& text::unsigned_value(seq!['+' as u8] + digits, max) == text::unsigned_value(
                digits,
                max,
            )
        }),
{
    let shown = text::decimal_text(n);
    let digits = shown.map_values(|c: char| c as u8);
    text::lemma_decimal_digits(n);
    assert forall|i: int| 0 <= i < digits.len() implies text::is_digit_byte(
        #[trigger] digits[i],
    ) by {
        assert('0' <= shown[i] <= '9');
    }
    assert(text::is_digit_byte(digits[0]));
    let signed = seq!['+' as u8] + digits;
    assert(signed.subrange(1, signed.len() as int) =~= digits);
}

/// A number in decimal does not begin with a zero, unless it is zero.
pub proof fn law_decimal_number_has_no_leading_zero(n: nat)
    ensures
        text::decimal_text(n).len() > 0,
        text::decimal_text(n)[0] == '0' <==> n == 0,
        n == 0 ==> text::decimal_text(n).len() == 1,
    decreases n,
{
    if n >= 10 {
        law_decimal_number_has_no_leading_zero(n / 10);
    }
}

/// A digit counts ten times as much for each digit behind it.
pub proof fn law_digits_count_by_their_places(a: Seq<u8>, b: Seq<u8>, digit: u8)
    requires
        '0' as u8 <= digit <= '9' as u8,
    ensures
        text::digits_value(seq![digit]) == digit - '0' as u8,
        text::digits_value(a + b) == text::digits_value(a) * power::pow(10, b.len())
            + text::digits_value(b),
    decreases b.len(),
{
    assert(seq![digit].drop_last() =~= Seq::<u8>::empty());
    assert(text::digits_value(seq![digit].drop_last()) == 0);
    let va = text::digits_value(a) as int;
    reveal(power::pow);
    if b.len() == 0 {
        assert(a + b =~= a);
        assert(power::pow(10, 0) == 1);
    } else {
        let front = b.drop_last();
        assert((a + b).drop_last() =~= a + front);
        assert((a + b).last() == b.last());
        law_digits_count_by_their_places(a, front, digit);
        let p = power::pow(10, front.len());
        let vf = text::digits_value(front) as int;
        assert(power::pow(10, b.len()) == 10 * p);
        assert(10 * (va * p + vf) == va * (10 * p) + 10 * vf) by (nonlinear_arith);
    }
}

/// A text with anything but digits behind its plus sign is no number.
pub proof fn law_only_digits_are_numbers(s: Seq<u8>, max: nat, i: int)
    requires
        0 <= i < s.len(),
        !('0' as u8 <= s[i] <= '9' as u8),
        i > 0 || s[0] != '+' as u8,
    ensures
        text::unsigned_value(s, max) is None,
        text::unsigned_value(Seq::empty(), max) is None,
        text::unsigned_value(seq!['+' as u8], max) is None,
{
    let digits = text::without_plus(s);
    if s[0] == '+' as u8 {
        assert(digits[i - 1] == s[i]);
        assert(!text::is_digit_byte(digits[i - 1]));
    } else {
        assert(!text::is_digit_byte(digits[i]));
    }
}

/// Texts are in order by the first character in which they differ, and the beginning of
/// a text comes before it.
pub proof fn law_texts_are_in_order_by_their_first_difference(
    same: Seq<char>,
    a: Seq<char>,
    b: Seq<char>,
)
    ensures
        a.len() > 0 && b.len() > 0 && a[0] != b[0] ==> (text::text_less(same + a, same + b)
            <==> a[0] < b[0]),
        b.len() > 0 ==> text::text_less(same, same + b),
        !text::text_less(same + b, same),
    decreases same.len(),
{
    if same.len() > 0 {
        let rest = same.drop_first();
        law_texts_are_in_order_by_their_first_difference(rest, a, b);
        assert((same + a).drop_first() =~= rest + a);
        assert((same + b).drop_first() =~= rest + b);
    } else {
        assert(same + a =~= a);
        assert(same + b =~= b);
    }
}

/// A pair of hexadecimal digits, in either case, is the byte that it stands for.
pub proof fn law_hexadecimal_pairs_are_bytes(s: Seq<char>, i: int)
    requires
        encoding::is_hex_text(s),
        0 <= i < s.len() / 2,
    ensures
        encoding::hex_bytes(s).len() == s.len() / 2,
        ({
            let b = encoding::hex_bytes(s)[i];
            &&& encoding::hex_char((b / 16) as nat) == text::ascii_lower(s[2 * i])
            &&& encoding::hex_char((b % 16) as nat) == text::ascii_lower(s[2 * i + 1])
        }),
{
    let high = s[2 * i];
    let low = s[2 * i + 1];
    assert(encoding::is_hex_char(high) && encoding::is_hex_char(low));
    assert(encoding::hex_value(high) < 16 && encoding::hex_value(low) < 16);
}

/// The sixteen digits stand for the values from zero on, and are different.
pub proof fn law_hexadecimal_digits(a: nat, b: nat)
    requires
        a < 16,
        b < 16,
    ensures
        encoding::is_hex_char(encoding::hex_char(a)),
        encoding::hex_value(encoding::hex_char(a)) == a,
        a <= 9 ==> encoding::hex_char(a) as u32 == '0' as u32 + a,
        a >= 10 ==> encoding::hex_char(a) as u32 == 'a' as u32 + a - 10,
        encoding::hex_char(a) == encoding::hex_char(b) ==> a == b,
{
}

/// Numbers are in order by their bits where they are not negative, the other way round
/// where they are, and negative ones come before the others; what is not a number is in
/// no order, and both zeros are equal.
pub proof fn law_numbers_are_in_order(a: u32, b: u32, c: u32)
    ensures
        a <= b <= 0x7f80_0000 ==> number::at_most(a, b),
        b < a <= 0x7f80_0000 ==> !number::at_most(a, b),
        0x8000_0000 <= a <= b <= 0xff80_0000 ==> number::at_most(b, a),
        0x8000_0000 <= a < b <= 0xff80_0000 ==> !number::at_most(a, b),
        a <= 0x7f80_0000 && 0x8000_0000 <= b <= 0xff80_0000 ==> number::at_most(b, a),
        0 < a <= 0x7f80_0000 && 0x8000_0000 <= b <= 0xff80_0000 ==> !number::at_most(a, b),
        number::same_single(0, 0x8000_0000),
        0x7f80_0000 < a < 0x8000_0000 || a > 0xff80_0000 ==> !number::at_most(a, b)
            && !number::at_most(b, a) && !number::same_single(a, b),
        number::at_most(a, b) && number::at_most(b, c) ==> number::at_most(a, c),
        number::same_single(a, b) <==> number::at_most(a, b) && number::at_most(b, a),
{
}

/// The first byte that is no digit is what is wrong with a text, unless the number was
/// too large before it.
pub proof fn law_first_problem_is_told(digits: Seq<u8>, wrong: u8, rest: Seq<u8>, max: nat)
    requires
        digits.len() > 0,
        digits[0] != '+' as u8,
        forall|i: int| 0 <= i < digits.len() ==> '0' as u8 <= #[trigger] digits[i] <= '9' as u8,
        text::digits_value(digits) <= max,
        !('0' as u8 <= wrong <= '9' as u8),
    ensures
        text::number_problem(digits, max) is None,
        text::number_problem(digits.push(wrong) + rest, max) == Some(NumberProblem::InvalidDigit),
        text::number_problem(Seq::empty(), max) == Some(NumberProblem::Empty),
        text::number_problem(seq!['+' as u8], max) == Some(NumberProblem::InvalidDigit),
    decreases rest.len(),
{
    let all = digits.push(wrong) + rest;
    text::law_number_has_no_problem(digits, max);
    assert forall|i: int| 0 <= i < digits.len() implies text::is_digit_byte(
        #[trigger] digits[i],
    ) by {}
    assert(all[0] == digits[0]);
    if rest.len() == 0 {
        assert(all =~= digits.push(wrong));
        assert(all.drop_last() =~= digits);
    } else {
        law_first_problem_is_told(digits, wrong, rest.drop_last(), max);
        assert(all.drop_last() =~= digits.push(wrong) + rest.drop_last());
        assert((digits.push(wrong) + rest.drop_last())[0] == digits[0]);
    }
}

/// A number of digits alone that is above the limit is too large.
pub proof fn law_large_number_is_too_large(digits: Seq<u8>, max: nat)
    requires
        digits.len() > 0,
        forall|i: int| 0 <= i < digits.len() ==> '0' as u8 <= #[trigger] digits[i] <= '9' as u8,
        text::digits_value(digits) > max,
    ensures
        text::number_problem(digits, max) == Some(NumberProblem::TooLarge),
    decreases digits.len(),
{
    assert('0' as u8 <= digits[0]);
    assert(text::without_plus(digits) == digits);
    lemma_too_large(digits, max);
}

proof fn lemma_too_large(digits: Seq<u8>, max: nat)
    requires
        forall|i: int| 0 <= i < digits.len() ==> '0' as u8 <= #[trigger] digits[i] <= '9' as u8,
    ensures
        text::digits_value(digits) > max ==> text::digits_problem(digits, max) == Some(
            NumberProblem::TooLarge,
        ),
        text::digits_value(digits) <= max ==> text::digits_problem(digits, max) is None,
    decreases digits.len(),
{
    if digits.len() > 0 {
        let shorter = digits.drop_last();
        assert forall|i: int| 0 <= i < shorter.len() implies '0' as u8 <= #[trigger] shorter[i]
            <= '9' as u8 by {
            assert(shorter[i] == digits[i]);
        }
        lemma_too_large(shorter, max);
        assert(digits.last() == digits[digits.len() - 1]);
    }
}

/// Numbers of both signs are equal where they are finite and the same, or both zero, or
/// neither is finite.
pub proof fn law_doubles_are_equal(a: u64, b: u64)
    ensures
        ({
            let finite = |bits: u64| bits < 0x7ff0_0000_0000_0000 || 0x8000_0000_0000_0000 <= bits
                < 0xfff0_0000_0000_0000;
            let zero = |bits: u64| bits == 0 || bits == 0x8000_0000_0000_0000;
            &&& finite(a) && finite(b) ==> (number::same_double(a, b) <==> a == b || zero(a)
                && zero(b))
            &&& finite(a) != finite(b) ==> !number::same_double(a, b)
            &&& !finite(a) && !finite(b) ==> number::same_double(a, b)
            &&& number::same_double(a, a)
            &&& number::same_double(a, b) <==> number::same_double(b, a)
        }),
{
}

} // verus!
