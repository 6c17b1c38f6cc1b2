//! Identifiers, hexadecimal text and UTF-8.
use vstd::prelude::*;

verus! {

/// Whether a character is a hexadecimal digit.
pub open spec fn is_hex_char(c: char) -> bool {
    ('0' <= c <= '9') || ('a' <= c <= 'f') || ('A' <= c <= 'F')
}

/// The value of a hexadecimal digit in either case.
pub open spec fn hex_value(c: char) -> nat {
    if '0' <= c <= '9' {
        (c as nat - 48) as nat
    } else if 'a' <= c <= 'f' {
        (c as nat - 87) as nat
    } else {
        (c as nat - 55) as nat
    }
}

/// The lower-case hexadecimal digit of a value below sixteen.
pub open spec fn hex_char(d: nat) -> char {
    if d < 10 {
        (48 + d) as char
    } else {
        (87 + d) as char
    }
}

/// Whether a text is made of hexadecimal digits alone.
pub open spec fn all_hex(s: Seq<char>) -> bool {
    forall|i: int| 0 <= i < s.len() ==> is_hex_char(#[trigger] s[i])
}

/// Whether a text is an even number of hexadecimal digits.
pub open spec fn is_hex_text(s: Seq<char>) -> bool {
    s.len() % 2 == 0 && all_hex(s)
}

/// The bytes that hexadecimal text stands for, two digits to a byte.
pub open spec fn hex_bytes(s: Seq<char>) -> Seq<u8> {
    Seq::new(s.len() / 2, |i: int| (16 * hex_value(s[2 * i]) + hex_value(s[2 * i + 1])) as u8)
}

/// Calls `hex::decode`: the bytes when the text is an even number of
/// hexadecimal digits in either case, high digit first, and nothing otherwise.
#[verifier::external_body]
pub(crate) fn decode_hex(text: &str) -> (r: Option<Vec<u8>>)
    ensures
        r is Some <==> is_hex_text(text@),
        r matches Some(bytes) ==> bytes@ == hex_bytes(text@),
{
    hex::decode(text).ok()
}

/// The number that hexadecimal digits stand for, most significant first.
pub open spec fn hex_number(s: Seq<char>) -> nat
    decreases s.len(),
{
    if s.len() == 0 {
        0
    } else {
        16 * hex_number(s.drop_last()) + hex_value(s.last())
    }
}

/// The last `n` hexadecimal digits of a number, in lower case.
pub open spec fn hex_digits(value: nat, n: nat) -> Seq<char>
    decreases n,
{
    if n == 0 {
        Seq::empty()
    } else {
        hex_digits(value / 16, (n - 1) as nat).push(hex_char(value % 16))
    }
}

/// The digits of a hyphenated identifier (8-4-4-4-12) without its hyphens.
pub open spec fn unhyphenated(s: Seq<char>) -> Seq<char> {
    s.subrange(0, 8) + s.subrange(9, 13) + s.subrange(14, 18) + s.subrange(19, 23) + s.subrange(
        24,
        36,
    )
}

/// Whether a text is 32 hexadecimal digits grouped 8-4-4-4-12 by hyphens.
pub open spec fn is_hyphenated(s: Seq<char>) -> bool {
    s.len() == 36 && s[8] == '-' && s[13] == '-' && s[18] == '-' && s[23] == '-' && all_hex(
        unhyphenated(s),
    )
}

/// Whether a text starts with `urn:uuid:` up to ASCII case.
pub open spec fn has_urn_prefix(s: Seq<char>) -> bool {
    s.len() >= 9 && crate::text::ascii_lower_text(s.subrange(0, 9)) == seq![
        'u',
        'r',
        'n',
        ':',
        'u',
        'u',
        'i',
        'd',
        ':',
    ]
}

/// The 128-bit identifier that a text names: 32 digits, or the hyphenated form
/// alone, in braces, or behind `urn:uuid:`.
pub open spec fn uuid_value(s: Seq<char>) -> Option<u128> {
    if s.len() == 32 && all_hex(s) {
        Some(hex_number(s) as u128)
    } else if is_hyphenated(s) {
        Some(hex_number(unhyphenated(s)) as u128)
    } else if s.len() == 38 && s[0] == '{' && s[37] == '}' && is_hyphenated(s.subrange(1, 37)) {
        Some(hex_number(unhyphenated(s.subrange(1, 37))) as u128)
    } else if s.len() == 45 && has_urn_prefix(s) && is_hyphenated(s.subrange(9, 45)) {
        Some(hex_number(unhyphenated(s.subrange(9, 45))) as u128)
    } else {
        None
    }
}

/// An identifier in lower-case hyphenated form.
pub open spec fn uuid_text(value: u128) -> Seq<char> {
    let d = hex_digits(value as nat, 32);
    d.subrange(0, 8) + seq!['-'] + d.subrange(8, 12) + seq!['-'] + d.subrange(12, 16) + seq!['-']
        + d.subrange(16, 20) + seq!['-'] + d.subrange(20, 32)
}

/// What `uuid::Error` says of a text that names no identifier.
pub uninterp spec fn uuid_error_text(text: Seq<char>) -> Seq<char>;

/// Calls `uuid::Uuid::parse_str`: the identifier when the text has one of the
/// accepted forms, and what the error says otherwise.
#[verifier::external_body]
pub(crate) fn parse_uuid(text: &str) -> (r: Result<u128, String>)
    ensures
        r is Ok <==> uuid_value(text@) is Some,
        r matches Ok(value) ==> uuid_value(text@) == Some(value),
        r matches Err(reason) ==> reason@ == uuid_error_text(text@),
{
    uuid::Uuid::parse_str(text).map(|id| id.as_u128()).map_err(|error| error.to_string())
}

/// Calls `Display` of `uuid::Uuid`: the lower-case hyphenated form.
#[verifier::external_body]
pub(crate) fn format_uuid(value: u128) -> (r: String)
    ensures
        r@ == uuid_text(value),
{
    uuid::Uuid::from_u128(value).to_string()
}

/// Whether an identifier carries the marks of a random one: version 4 and the
/// variant bits 10.
pub open spec fn is_random_uuid(value: u128) -> bool {
    value & 0x0000_0000_0000_f000_c000_0000_0000_0000u128
        == 0x0000_0000_0000_4000_8000_0000_0000_0000u128
}

/// Calls `uuid::Uuid::new_v4`: a random identifier, of which only the version
/// and the variant are fixed. That two of them differ is not promised here.
#[verifier::external_body]
pub(crate) fn random_uuid() -> (r: u128)
    ensures
        is_random_uuid(r),
{
    uuid::Uuid::new_v4().as_u128()
}

/// What `std::str::Utf8Error` says of bytes that are not valid UTF-8.
pub uninterp spec fn utf8_error_text(bytes: Seq<u8>) -> Seq<char>;

/// Calls `std::str::from_utf8`: the text when the bytes are valid UTF-8, and
/// what the error says otherwise.
#[verifier::external_body]
pub(crate) fn utf8_text(bytes: &[u8]) -> (r: Result<&str, String>)
    ensures
        r is Ok <==> vstd::utf8::valid_utf8(bytes@),
        r matches Ok(text) ==> text@ == vstd::utf8::decode_utf8(bytes@),
        r matches Err(reason) ==> reason@ == utf8_error_text(bytes@),
{
    std::str::from_utf8(bytes).map_err(|error| error.to_string())
}

/// The text that `String::from_utf8_lossy` makes of bytes.
pub uninterp spec fn lossy_text(bytes: Seq<u8>) -> Seq<char>;

/// Calls `String::from_utf8_lossy`: the text of the bytes, in which marks stand
/// for what is not valid UTF-8; where all of it is valid, just the text.
#[verifier::external_body]
pub(crate) fn decode_lossy(bytes: &[u8]) -> (r: String)
    ensures
        r@ == lossy_text(bytes@),
        vstd::utf8::valid_utf8(bytes@) ==> r@ == vstd::utf8::decode_utf8(bytes@),
{
    String::from_utf8_lossy(bytes).into_owned()
}

/// How `Debug` of `std::time::Duration` writes a time in nanoseconds.
pub uninterp spec fn duration_text(nanos: u64) -> Seq<char>;

/// Calls `Debug` of `std::time::Duration`: a readable form of a time.
#[verifier::external_body]
pub(crate) fn format_duration(nanos: u64) -> (r: String)
    ensures
        r@ == duration_text(nanos),
{
    format!("{:?}", std::time::Duration::from_nanos(nanos))
}

proof fn lemma_hex_digits_len(value: nat, n: nat)
    ensures
        hex_digits(value, n).len() == n,
        all_hex(hex_digits(value, n)),
    decreases n,
{
    if n > 0 {
        lemma_hex_digits_len(value / 16, (n - 1) as nat);
    }
}

proof fn lemma_hex_round_trip(value: nat, n: nat)
    requires
        value < vstd::arithmetic::power::pow(16, n),
    ensures
        hex_number(hex_digits(value, n)) == value,
    decreases n,
{
    vstd::arithmetic::power::lemma_pow0(16);
    if n > 0 {
        let m = (n - 1) as nat;
        assert(value / 16 < vstd::arithmetic::power::pow(16, m)) by {
            reveal_with_fuel(vstd::arithmetic::power::pow, 2);
            assert(vstd::arithmetic::power::pow(16, n) == 16 * vstd::arithmetic::power::pow(16, m));
        }
        lemma_hex_round_trip(value / 16, m);
        let s = hex_digits(value, n);
        assert(s.drop_last() =~= hex_digits(value / 16, m));
        assert(hex_value(hex_char(value % 16)) == value % 16);
    }
}

/// An identifier's text is 36 ASCII characters, and so 36 bytes.
pub proof fn lemma_uuid_text_is_ascii(value: u128)
    ensures
        uuid_text(value).len() == 36,
        vstd::utf8::is_ascii_chars(uuid_text(value)),
        vstd::utf8::encode_utf8(uuid_text(value)).len() == 36,
{
    let d = hex_digits(value as nat, 32);
    lemma_hex_digits_len(value as nat, 32);
    let t = uuid_text(value);
    assert forall|i: int| 0 <= i < t.len() implies 0 <= (#[trigger] t[i]) as nat <= 127 by {
        let k = if i < 8 {
            i
        } else if i < 13 {
            i - 1
        } else if i < 18 {
            i - 2
        } else if i < 23 {
            i - 3
        } else {
            i - 4
        };
        if i != 8 && i != 13 && i != 18 && i != 23 {
            assert(t[i] == d[k]);
            assert(is_hex_char(d[k]));
        }
    }
    vstd::utf8::is_ascii_chars_encode_utf8(t);
}

/// Reading an identifier's text gives the identifier back.
pub proof fn law_uuid_text_is_read_back(value: u128)
    ensures
        uuid_value(uuid_text(value)) == Some(value),
{
    let d = hex_digits(value as nat, 32);
    lemma_hex_digits_len(value as nat, 32);
    let t = uuid_text(value);
    assert(unhyphenated(t) =~= d);
    assert(vstd::arithmetic::power::pow(16, 32) == 0x1_0000_0000_0000_0000_0000_0000_0000_0000int)
        by {
        reveal_with_fuel(vstd::arithmetic::power::pow, 33);
    }
    lemma_hex_round_trip(value as nat, 32);
}

} // verus!
