//! Texts as bytes and numerals: base64, UTF-16 and hexadecimal.
use crate::text;
use crate::text::chars_of;
use vstd::prelude::*;
use vstd::string::*;

verus! {

// ---------------------------------------------------------------------------
// Outside encodings
// ---------------------------------------------------------------------------

/// The bytes in base64 with padding, as `base64` writes them.
pub uninterp spec fn base64_text(bytes: Seq<u8>) -> Seq<char>;

/// `encode` of `base64::engine::general_purpose::STANDARD`: the text is a
/// function of the bytes.
#[verifier::external_body]
pub(crate) fn encode_base64(bytes: &[u8]) -> (encoded: String)
    ensures
        encoded@ == base64_text(bytes@),
{
    base64::Engine::encode(&base64::engine::general_purpose::STANDARD, bytes)
}

/// A text as a diagnostic shows it: between double quotes, with escapes.
pub uninterp spec fn debug_text(value: Seq<char>) -> Seq<char>;

/// `std`'s `Debug` of `str`: the text is a function of the characters.
#[verifier::external_body]
pub(crate) fn show_text(value: &str) -> (shown: String)
    ensures
        shown@ == debug_text(value@),
{
    format!("{value:?}")
}

// ---------------------------------------------------------------------------
// UTF-16
// ---------------------------------------------------------------------------

/// The UTF-16 code units of a character.
pub open spec fn utf16_char(ch: char) -> Seq<u16> {
    let code = ch as u32;
    if code < 0x10000 {
        seq![code as u16]
    } else {
        seq![
            (0xD800 + (code - 0x10000) / 0x400) as u16,
            (0xDC00 + (code - 0x10000) % 0x400) as u16,
        ]
    }
}

/// The UTF-16 code units of a text.
pub open spec fn utf16_units(value: Seq<char>) -> Seq<u16>
    decreases value.len(),
{
    if value.len() == 0 {
        Seq::empty()
    } else {
        utf16_units(value.drop_last()) + utf16_char(value.last())
    }
}

/// The two bytes of each unit, the lower one first.
pub open spec fn little_endian(units: Seq<u16>) -> Seq<u8>
    decreases units.len(),
{
    if units.len() == 0 {
        Seq::empty()
    } else {
        little_endian(units.drop_last()) + seq![
            (units.last() % 256) as u8,
            (units.last() / 256) as u8,
        ]
    }
}

pub proof fn lemma_little_endian_push(units: Seq<u16>, unit: u16)
    ensures
        little_endian(units.push(unit)) == little_endian(units) + seq![
            (unit % 256) as u8,
            (unit / 256) as u8,
        ],
{
    assert(units.push(unit).drop_last() =~= units);
}

fn push_unit(bytes: &mut Vec<u8>, unit: u16, Ghost(units): Ghost<Seq<u16>>)
    requires
        old(bytes)@ == little_endian(units),
    ensures
        final(bytes)@ == little_endian(units.push(unit)),
{
    bytes.push((unit % 256) as u8);
    bytes.push((unit / 256) as u8);
    proof {
        lemma_little_endian_push(units, unit);
        assert(bytes@ =~= old(bytes)@ + seq![(unit % 256) as u8, (unit / 256) as u8]);
    }
}

/// Appends the text in UTF-16, the lower byte of each unit first, to bytes that
/// hold such units already.
fn push_utf16(bytes: &mut Vec<u8>, value: &str, Ghost(before): Ghost<Seq<u16>>)
    requires
        old(bytes)@ == little_endian(before),
    ensures
        final(bytes)@ == little_endian(before + utf16_units(value@)),
{
    let chars = chars_of(value);
    let mut i: usize = 0;
    assert(value@.take(0) =~= Seq::<char>::empty());
    assert(before + utf16_units(value@.take(0)) =~= before);
    while i < chars.len()
        invariant
            i <= chars@.len(),
            chars@ == value@,
            bytes@ == little_endian(before + utf16_units(value@.take(i as int))),
        decreases chars@.len() - i,
    {
        let ghost units = before + utf16_units(value@.take(i as int));
        proof {
            let now = value@.take(i + 1);
            assert(now.drop_last() =~= value@.take(i as int));
            assert(now.last() == value@[i as int]);
        }
        let code = chars[i] as u32;
        if code < 0x10000 {
            push_unit(bytes, code as u16, Ghost(units));
            assert(units.push(code as u16) =~= before + utf16_units(value@.take(i + 1)));
        } else {
            let high: u16 = (0xD800 + (code - 0x10000) / 0x400) as u16;
            let low: u16 = (0xDC00 + (code - 0x10000) % 0x400) as u16;
            push_unit(bytes, high, Ghost(units));
            push_unit(bytes, low, Ghost(units.push(high)));
            assert(units.push(high).push(low) =~= before + utf16_units(value@.take(i + 1)));
        }
        i += 1;
    }
    assert(value@.take(i as int) =~= value@);
}

/// The text in UTF-16, the lower byte of each unit first.
pub fn utf16le(value: &str) -> (bytes: Vec<u8>)
    ensures
        bytes@ == little_endian(utf16_units(value@)),
{
    let mut bytes: Vec<u8> = Vec::new();
    push_utf16(&mut bytes, value, Ghost(Seq::empty()));
    assert(Seq::<u16>::empty() + utf16_units(value@) =~= utf16_units(value@));
    bytes
}

/// The byte order mark.
pub open spec fn order_mark() -> Seq<u16> {
    seq![0xFEFFu16]
}

/// The text in UTF-16 behind a byte order mark.
pub fn utf16le_marked(value: &str) -> (bytes: Vec<u8>)
    ensures
        bytes@ == little_endian(order_mark() + utf16_units(value@)),
{
    let mut bytes: Vec<u8> = Vec::new();
    push_unit(&mut bytes, 0xFEFF, Ghost(Seq::empty()));
    assert(Seq::<u16>::empty().push(0xFEFF) =~= order_mark());
    push_utf16(&mut bytes, value, Ghost(order_mark()));
    bytes
}

// ---------------------------------------------------------------------------
// Hexadecimal
// ---------------------------------------------------------------------------

pub open spec fn hex_char(value: nat) -> char {
    if value < 10 {
        text::digit_char(value)
    } else {
        (('a' as u8 + (value - 10)) as u8) as char
    }
}

/// The last `width` hexadecimal digits of a number.
pub open spec fn hex_digits(value: nat, width: nat) -> Seq<char>
    decreases width,
{
    if width == 0 {
        Seq::empty()
    } else {
        hex_digits(value / 16, (width - 1) as nat).push(hex_char(value % 16))
    }
}

fn push_hex(out: &mut String, value: u64, width: u32)
    ensures
        final(out)@ == old(out)@ + hex_digits(value as nat, width as nat),
    decreases width,
{
    if width == 0 {
        assert(old(out)@ + hex_digits(value as nat, 0) =~= old(out)@);
    } else {
        push_hex(out, value / 16, width - 1);
        let digit: u8 = (value % 16) as u8;
        let ch = if digit < 10 {
            (48u8 + digit) as char
        } else {
            (97u8 + (digit - 10)) as char
        };
        out.push(ch);
        assert(out@ =~= old(out)@ + hex_digits(value as nat, width as nat));
    }
}

/// The number in sixteen hexadecimal digits.
pub fn hex16(value: u64) -> (digits: String)
    ensures
        digits@ == hex_digits(value as nat, 16),
{
    let mut digits = String::new();
    push_hex(&mut digits, value, 16);
    assert(Seq::<char>::empty() + hex_digits(value as nat, 16) =~= hex_digits(value as nat, 16));
    digits
}

/// The number in six hexadecimal digits.
pub fn hex6(value: u32) -> (digits: String)
    ensures
        digits@ == hex_digits(value as nat, 6),
{
    let mut digits = String::new();
    push_hex(&mut digits, value as u64, 6);
    assert(Seq::<char>::empty() + hex_digits(value as nat, 6) =~= hex_digits(value as nat, 6));
    digits
}

pub open spec fn is_hex(ch: char) -> bool {
    text::is_digit(ch) || 'a' <= ch <= 'f' || 'A' <= ch <= 'F'
}

pub open spec fn hex_value_of(ch: char) -> nat {
    if text::is_digit(ch) {
        (ch as nat - '0' as nat) as nat
    } else if 'a' <= ch <= 'f' {
        (ch as nat - 'a' as nat + 10) as nat
    } else {
        (ch as nat - 'A' as nat + 10) as nat
    }
}

pub open spec fn hex_value(digits: Seq<char>) -> nat
    decreases digits.len(),
{
    if digits.len() == 0 {
        0
    } else {
        hex_value(digits.drop_last()) * 16 + hex_value_of(digits.last())
    }
}

pub open spec fn all_hex(digits: Seq<char>) -> bool {
    forall|i: int| 0 <= i < digits.len() ==> is_hex(#[trigger] digits[i])
}

/// The number that a hexadecimal numeral stands for, with an optional plus sign
/// in front, where it fits.
pub open spec fn parse_hex(value: Seq<char>) -> Option<u64> {
    let body = if value.len() > 0 && value[0] == '+' {
        value.skip(1)
    } else {
        value
    };
    if body.len() > 0 && all_hex(body) && hex_value(body) <= u64::MAX {
        Some(hex_value(body) as u64)
    } else {
        None
    }
}

proof fn lemma_hex_value_grows(digits: Seq<char>, i: int)
    requires
        0 <= i <= digits.len(),
    ensures
        hex_value(digits.take(i)) <= hex_value(digits),
    decreases digits.len() - i,
{
    if i < digits.len() {
        lemma_hex_value_grows(digits, i + 1);
        assert(digits.take(i + 1).drop_last() =~= digits.take(i));
    } else {
        assert(digits.take(i) =~= digits);
    }
}

pub fn parse_hex_u64(value: &str) -> (number: Option<u64>)
    ensures
        number == parse_hex(value@),
{
    let chars = chars_of(value);
    let start: usize = if chars.len() > 0 && chars[0] == '+' {
        1
    } else {
        0
    };
    let ghost body = value@.skip(start as int);
    assert(start == 0 ==> body =~= value@);
    if start == chars.len() {
        return None;
    }
    let mut number: u64 = 0;
    let mut over = false;
    let mut i: usize = start;
    assert(body.take(0) =~= Seq::<char>::empty());
    while i < chars.len()
        invariant
            start <= i <= chars@.len(),
            chars@ == value@,
            start == if value@.len() > 0 && value@[0] == '+' { 1int } else { 0int },
            start == 0 ==> body == value@,
            body == value@.skip(start as int),
            body.len() > 0,
            forall|j: int| 0 <= j < i - start ==> is_hex(#[trigger] body[j]),
            over ==> hex_value(body.take(i - start)) > u64::MAX,
            !over ==> number == hex_value(body.take(i - start)),
        decreases chars@.len() - i,
    {
        let ch = chars[i];
        proof {
            let now = body.take(i - start + 1);
            assert(now.drop_last() =~= body.take(i - start));
            assert(now.last() == value@[i as int]);
            assert(body[i - start] == ch);
        }
        let digit: u64 = if '0' <= ch && ch <= '9' {
            ch as u64 - '0' as u64
        } else if 'a' <= ch && ch <= 'f' {
            ch as u64 - 'a' as u64 + 10
        } else if 'A' <= ch && ch <= 'F' {
            ch as u64 - 'A' as u64 + 10
        } else {
            assert(!is_hex(body[i - start]));
            return None;
        };
        if over || number > (u64::MAX - digit) / 16 {
            over = true;
        } else {
            number = number * 16 + digit;
        }
        i += 1;
    }
    assert(body.take(body.len() as int) =~= body);
    if over {
        None
    } else {
        Some(number)
    }
}

/// Sixteen hexadecimal digits are read back as the number they were written
/// for.
pub proof fn hex_is_read_back(value: u64)
    ensures
        parse_hex(hex_digits(value as nat, 16)) == Some(value),
{
    lemma_hex_digits(value as nat, 16);
    lemma_power16();
    let digits = hex_digits(value as nat, 16);
    assert(is_hex(digits[0]));
}

pub proof fn lemma_hex_text(value: nat, width: nat)
    ensures
        hex_digits(value, width).len() == width,
        all_hex(hex_digits(value, width)),
        !text::has_char(hex_digits(value, width), ':'),
{
    lemma_hex_digits(value, width);
    let digits = hex_digits(value, width);
    if text::has_char(digits, ':') {
        let i = choose|i: int| 0 <= i < digits.len() && digits[i] == ':';
        assert(is_hex(digits[i]));
    }
}

pub open spec fn power16(width: nat) -> nat
    decreases width,
{
    if width == 0 {
        1
    } else {
        16 * power16((width - 1) as nat)
    }
}

pub proof fn lemma_hex6(value: nat)
    requires
        value < 0x1000000,
    ensures
        hex_value(hex_digits(value, 6)) == value,
{
    lemma_hex_digits(value, 6);
    reveal_with_fuel(power16, 7);
}

proof fn lemma_power16()
    ensures
        power16(16) == 0x1_0000_0000_0000_0000,
{
    reveal_with_fuel(power16, 17);
}

proof fn lemma_hex_digits(value: nat, width: nat)
    ensures
        hex_digits(value, width).len() == width,
        all_hex(hex_digits(value, width)),
        value < power16(width) ==> hex_value(hex_digits(value, width)) == value,
    decreases width,
{
    if width > 0 {
        lemma_hex_digits(value / 16, (width - 1) as nat);
        let head = hex_digits(value / 16, (width - 1) as nat);
        let digits = hex_digits(value, width);
        assert(digits.drop_last() =~= head);
        assert(digits.last() == hex_char(value % 16));
        assert(is_hex(hex_char(value % 16)));
        assert(hex_value_of(hex_char(value % 16)) == value % 16);
        assert forall|i: int| 0 <= i < digits.len() implies is_hex(#[trigger] digits[i]) by {
            if i < head.len() {
                assert(digits[i] == head[i]);
            }
        }
    }
}

// ---------------------------------------------------------------------------
// What holds of the code units
// ---------------------------------------------------------------------------

/// Each unit is two bytes, and is read back from them with the lower one first.
pub proof fn units_are_read_back(units: Seq<u16>, i: int)
    requires
        0 <= i < units.len(),
    ensures
        little_endian(units).len() == 2 * units.len(),
        little_endian(units)[2 * i] + 256 * little_endian(units)[2 * i + 1] == units[i],
    decreases units.len(),
{
    let before = units.drop_last();
    if before.len() > 0 {
        units_are_read_back(before, if i < before.len() { i } else { 0 });
    } else {
        assert(little_endian(before) =~= Seq::<u8>::empty());
    }
}

/// A character below the first supplementary one is its own unit, and any other
/// is a leading and a trailing surrogate from which it is put together.
pub proof fn characters_are_read_back(ch: char)
    ensures
        ({
            let units = utf16_units(seq![ch]);
            let code = ch as int;
            &&& code < 0x10000 ==> units.len() == 1 && units[0] == code
            &&& code >= 0x10000 ==> {
                &&& units.len() == 2
                &&& 0xD800 <= units[0] < 0xDC00
                &&& 0xDC00 <= units[1] < 0xE000
                &&& 0x10000 + (units[0] - 0xD800) * 0x400 + (units[1] - 0xDC00) == code
            }
        }),
{
    let one = seq![ch];
    assert(one.drop_last() =~= Seq::<char>::empty());
    assert(utf16_units(one.drop_last()) =~= Seq::<u16>::empty());
    assert(utf16_units(one) =~= utf16_char(ch));
}

/// The units of a text come in the order of its characters.
pub proof fn texts_are_encoded_in_order(a: Seq<char>, b: Seq<char>)
    ensures
        utf16_units(a + b) == utf16_units(a) + utf16_units(b),
    decreases b.len(),
{
    if b.len() == 0 {
        assert(a + b =~= a);
        assert(utf16_units(a) + utf16_units(b) =~= utf16_units(a));
    } else {
        texts_are_encoded_in_order(a, b.drop_last());
        assert((a + b).drop_last() =~= a + b.drop_last());
        assert(utf16_units(a + b) =~= utf16_units(a) + utf16_units(b));
    }
}

} // verus!
