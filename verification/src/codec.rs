//! The persisted blob.
//!
//! A blob is a run of lines, each closed by a line feed.  A line is a field's
//! name, an equals sign and the field's value:
//!
//! ```text
//! text_style=Body
//! position=TopRight
//! background_alpha=3f400000
//! ```
//!
//! The opacity is written as the eight hexadecimal digits of its bit pattern.
//! A reader takes the fields in any order, skips a line whose name it does not
//! know, and gives up on the whole blob when a line has no equals sign, when the
//! last line is not closed, when a known field comes twice, or when the value of
//! a known field cannot be read.

use crate::legend::{Corner, LegendConfig, TextStyle};
use vstd::prelude::*;
use vstd::slice::slice_subrange;
use vstd::string::*;

verus! {

/// The byte that closes a line.
pub const LINE_FEED: u8 = '\n' as u8;

/// The byte between a field's name and its value.
pub const EQUALS: u8 = '=' as u8;

/// The bytes of a text made of ASCII characters.
pub open spec fn ascii(text: Seq<char>) -> Seq<u8> {
    Seq::new(text.len(), |i: int| text[i] as u8)
}

fn ascii_bytes(text: &'static str) -> (r: &'static [u8])
    requires
        is_ascii(text),
    ensures
        r@ == ascii(text@),
{
    proof {
        is_ascii_spec_bytes(text);
    }
    text.as_bytes()
}

/// Whether two byte strings hold the same bytes.
fn same_bytes(a: &[u8], b: &[u8]) -> (r: bool)
    ensures
        r == (a@ == b@),
{
    if a.len() != b.len() {
        return false;
    }
    let mut i: usize = 0;
    while i < a.len()
        invariant
            a@.len() == b@.len(),
            i <= a@.len(),
            forall|j: int| 0 <= j < i ==> a@[j] == b@[j],
        decreases a@.len() - i,
    {
        if a[i] != b[i] {
            return false;
        }
        i += 1;
    }
    assert(a@ =~= b@);
    true
}

/// The place of the first `mark` in `bytes` at or after `from`, or the length
/// of `bytes` when there is none.
pub open spec fn first_at(bytes: Seq<u8>, from: int, mark: u8) -> int
    decreases bytes.len() - from,
{
    if from < 0 || from >= bytes.len() {
        bytes.len() as int
    } else if bytes[from] == mark {
        from
    } else {
        first_at(bytes, from + 1, mark)
    }
}

/// `first_at` finds the first mark: everything it passes over is something
/// else, and it stops on a mark or at the end.
pub proof fn lemma_first_at(bytes: Seq<u8>, from: int, mark: u8)
    requires
        0 <= from <= bytes.len(),
    ensures
        from <= first_at(bytes, from, mark) <= bytes.len(),
        forall|i: int| from <= i < first_at(bytes, from, mark) ==> bytes[i] != mark,
        first_at(bytes, from, mark) < bytes.len() ==> bytes[first_at(bytes, from, mark)] == mark,
    decreases bytes.len() - from,
{
    if from < bytes.len() && bytes[from] != mark {
        lemma_first_at(bytes, from + 1, mark);
    }
}

/// The first place at or after `from` that holds `mark` is `at`, when no
/// place before `at` holds it and `at` does, or is the end.
pub proof fn lemma_first_at_is(bytes: Seq<u8>, from: int, at: int, mark: u8)
    requires
        0 <= from <= at <= bytes.len(),
        forall|i: int| from <= i < at ==> bytes[i] != mark,
        at < bytes.len() ==> bytes[at] == mark,
    ensures
        first_at(bytes, from, mark) == at,
    decreases at - from,
{
    if from < at {
        lemma_first_at_is(bytes, from + 1, at, mark);
    }
}

fn find_first(bytes: &[u8], from: usize, mark: u8) -> (at: usize)
    requires
        from <= bytes@.len(),
    ensures
        at == first_at(bytes@, from as int, mark),
        from <= at <= bytes@.len(),
{
    let mut at: usize = from;
    while at < bytes.len() && bytes[at] != mark
        invariant
            from <= at <= bytes@.len(),
            forall|i: int| from <= i < at ==> bytes@[i] != mark,
        decreases bytes@.len() - at,
    {
        at += 1;
    }
    proof {
        lemma_first_at_is(bytes@, from as int, at as int, mark);
    }
    at
}

/// The byte of the digit `0`.
pub const DIGIT_ZERO: u8 = '0' as u8;

/// The byte of the letter `a`, the digit for ten.
pub const DIGIT_TEN: u8 = 'a' as u8;

/// The hexadecimal digit that writes a number below sixteen.
pub open spec fn hex_digit(n: int) -> u8 {
    if n < 10 {
        (DIGIT_ZERO + n) as u8
    } else {
        (DIGIT_TEN + (n - 10)) as u8
    }
}

/// The number that a hexadecimal digit writes; capital letters are no digits
/// here.
pub open spec fn hex_value(digit: u8) -> Option<int> {
    if DIGIT_ZERO <= digit <= DIGIT_ZERO + 9 {
        Some(digit - DIGIT_ZERO)
    } else if DIGIT_TEN <= digit <= DIGIT_TEN + 5 {
        Some(digit - DIGIT_TEN + 10)
    } else {
        None
    }
}

/// The digit of `bits` at the place that is worth `place`, a power of
/// sixteen.
pub open spec fn digit_at(bits: u32, place: int) -> int {
    (bits as int / place) % 16
}

/// A bit pattern as eight hexadecimal digits, the most significant first.
pub open spec fn hex8(bits: u32) -> Seq<u8> {
    seq![
        hex_digit(digit_at(bits, 0x1000_0000)),
        hex_digit(digit_at(bits, 0x100_0000)),
        hex_digit(digit_at(bits, 0x10_0000)),
        hex_digit(digit_at(bits, 0x1_0000)),
        hex_digit(digit_at(bits, 0x1000)),
        hex_digit(digit_at(bits, 0x100)),
        hex_digit(digit_at(bits, 0x10)),
        hex_digit(digit_at(bits, 1)),
    ]
}

/// The bit pattern that eight hexadecimal digits write, if `text` is that.
pub open spec fn hex8_number(text: Seq<u8>) -> Option<u32> {
    if text.len() == 8 && (forall|i: int| 0 <= i < 8 ==> hex_value(#[trigger] text[i]) is Some) {
        Some(
            (hex_value(text[0]).unwrap() * 0x1000_0000 + hex_value(text[1]).unwrap() * 0x100_0000
                + hex_value(text[2]).unwrap() * 0x10_0000 + hex_value(text[3]).unwrap() * 0x1_0000
                + hex_value(text[4]).unwrap() * 0x1000 + hex_value(text[5]).unwrap() * 0x100
                + hex_value(text[6]).unwrap() * 0x10 + hex_value(text[7]).unwrap()) as u32,
        )
    } else {
        None
    }
}

/// A bit pattern is the sum of its eight digits, each times the worth of its
/// place.
proof fn lemma_digits_sum(bits: u32)
    ensures
        bits == digit_at(bits, 0x1000_0000) * 0x1000_0000 + digit_at(bits, 0x100_0000)
            * 0x100_0000 + digit_at(bits, 0x10_0000) * 0x10_0000 + digit_at(bits, 0x1_0000)
            * 0x1_0000 + digit_at(bits, 0x1000) * 0x1000 + digit_at(bits, 0x100) * 0x100
            + digit_at(bits, 0x10) * 0x10 + digit_at(bits, 1),
{
    assert(bits == (bits / 0x1000_0000 % 16) * 0x1000_0000 + (bits / 0x100_0000 % 16)
        * 0x100_0000 + (bits / 0x10_0000 % 16) * 0x10_0000 + (bits / 0x1_0000 % 16) * 0x1_0000 + (
    bits / 0x1000 % 16) * 0x1000 + (bits / 0x100 % 16) * 0x100 + (bits / 0x10 % 16) * 0x10 + bits
        % 16) by (bit_vector);
}

/// Reading the eight digits of a bit pattern gives the pattern back.
pub proof fn lemma_hex8_round_trip(bits: u32)
    ensures
        hex8_number(hex8(bits)) == Some(bits),
{
    let text = hex8(bits);
    assert forall|i: int| 0 <= i < 8 implies hex_value(#[trigger] text[i]) is Some by {}
    assert(hex_value(text[0]) == Some(digit_at(bits, 0x1000_0000)));
    assert(hex_value(text[1]) == Some(digit_at(bits, 0x100_0000)));
    assert(hex_value(text[2]) == Some(digit_at(bits, 0x10_0000)));
    assert(hex_value(text[3]) == Some(digit_at(bits, 0x1_0000)));
    assert(hex_value(text[4]) == Some(digit_at(bits, 0x1000)));
    assert(hex_value(text[5]) == Some(digit_at(bits, 0x100)));
    assert(hex_value(text[6]) == Some(digit_at(bits, 0x10)));
    assert(hex_value(text[7]) == Some(digit_at(bits, 1)));
    lemma_digits_sum(bits);
}

fn hex_digit_for(n: u32) -> (r: u8)
    requires
        n < 16,
    ensures
        r == hex_digit(n as int),
{
    if n < 10 {
        DIGIT_ZERO + n as u8
    } else {
        DIGIT_TEN + (n as u8 - 10)
    }
}

fn hex_value_of(digit: u8) -> (r: Option<u32>)
    ensures
        r.is_some() == hex_value(digit).is_some(),
        r matches Some(n) ==> hex_value(digit) == Some(n as int) && n < 16,
{
    if DIGIT_ZERO <= digit && digit <= DIGIT_ZERO + 9 {
        Some((digit - DIGIT_ZERO) as u32)
    } else if DIGIT_TEN <= digit && digit <= DIGIT_TEN + 5 {
        Some((digit - DIGIT_TEN) as u32 + 10)
    } else {
        None
    }
}

fn push_hex8(out: &mut Vec<u8>, bits: u32)
    ensures
        final(out)@ == old(out)@ + hex8(bits),
{
    out.push(hex_digit_for(bits / 0x1000_0000 % 16));
    out.push(hex_digit_for(bits / 0x100_0000 % 16));
    out.push(hex_digit_for(bits / 0x10_0000 % 16));
    out.push(hex_digit_for(bits / 0x1_0000 % 16));
    out.push(hex_digit_for(bits / 0x1000 % 16));
    out.push(hex_digit_for(bits / 0x100 % 16));
    out.push(hex_digit_for(bits / 0x10 % 16));
    out.push(hex_digit_for(bits % 16));
    assert(out@ =~= old(out)@ + hex8(bits));
}

fn parse_hex8(text: &[u8]) -> (r: Option<u32>)
    ensures
        r == hex8_number(text@),
{
    if text.len() != 8 {
        return None;
    }
    let d0 = hex_value_of(text[0])?;
    let d1 = hex_value_of(text[1])?;
    let d2 = hex_value_of(text[2])?;
    let d3 = hex_value_of(text[3])?;
    let d4 = hex_value_of(text[4])?;
    let d5 = hex_value_of(text[5])?;
    let d6 = hex_value_of(text[6])?;
    let d7 = hex_value_of(text[7])?;
    Some(
        d0 * 0x1000_0000 + d1 * 0x100_0000 + d2 * 0x10_0000 + d3 * 0x1_0000 + d4 * 0x1000 + d5
            * 0x100 + d6 * 0x10 + d7,
    )
}

/// What a blob says of each field: its value, or nothing.
#[derive(Clone, Copy, Debug, PartialEq, Eq)]
pub struct Fields {
    pub text_style: Option<TextStyle>,
    pub position: Option<Corner>,
    pub background_alpha: Option<u32>,
}

impl Fields {
    /// What an empty blob says: nothing.
    pub open spec fn none() -> Fields {
        Fields { text_style: None, position: None, background_alpha: None }
    }

    /// What a blob says that holds every field of `config`.
    pub open spec fn all(config: LegendConfig) -> Fields {
        Fields {
            text_style: Some(config.text_style),
            position: Some(config.position),
            background_alpha: Some(config.background_alpha),
        }
    }
}

/// The name of the field that holds the text style.
pub open spec fn text_style_key() -> Seq<u8> {
    ascii("text_style"@)
}

/// The name of the field that holds the corner.
pub open spec fn position_key() -> Seq<u8> {
    ascii("position"@)
}

/// The name of the field that holds the opacity.
pub open spec fn background_alpha_key() -> Seq<u8> {
    ascii("background_alpha"@)
}

/// The text style that goes by the given name.
pub open spec fn text_style_named(name: Seq<u8>) -> Option<TextStyle> {
    if name == ascii(TextStyle::Small.name_of()) {
        Some(TextStyle::Small)
    } else if name == ascii(TextStyle::Body.name_of()) {
        Some(TextStyle::Body)
    } else if name == ascii(TextStyle::Monospace.name_of()) {
        Some(TextStyle::Monospace)
    } else if name == ascii(TextStyle::Button.name_of()) {
        Some(TextStyle::Button)
    } else if name == ascii(TextStyle::Heading.name_of()) {
        Some(TextStyle::Heading)
    } else {
        None
    }
}

/// The corner that goes by the given name.
pub open spec fn corner_named(name: Seq<u8>) -> Option<Corner> {
    if name == ascii(Corner::TopLeft.name_of()) {
        Some(Corner::TopLeft)
    } else if name == ascii(Corner::TopRight.name_of()) {
        Some(Corner::TopRight)
    } else if name == ascii(Corner::BottomLeft.name_of()) {
        Some(Corner::BottomLeft)
    } else if name == ascii(Corner::BottomRight.name_of()) {
        Some(Corner::BottomRight)
    } else {
        None
    }
}

/// One line of a blob.
pub open spec fn line(name: Seq<u8>, value: Seq<u8>) -> Seq<u8> {
    name + seq![EQUALS] + value + seq![LINE_FEED]
}

/// The blob that holds the three fields of `config`.
pub open spec fn encoding(config: LegendConfig) -> Seq<u8> {
    line(text_style_key(), ascii(config.text_style.name_of())) + line(
        position_key(),
        ascii(config.position.name_of()),
    ) + line(background_alpha_key(), hex8(config.background_alpha))
}

/// What is known after one more line, which comes without its line feed, or
/// `None` when the line is one that a reader gives up on.
pub open spec fn read_line(seen: Fields, line: Seq<u8>) -> Option<Fields> {
    let split = first_at(line, 0, EQUALS);
    if split >= line.len() {
        None
    } else {
        let name = line.subrange(0, split);
        let value = line.subrange(split + 1, line.len() as int);
        if name == text_style_key() {
            match (seen.text_style, text_style_named(value)) {
                (None, Some(style)) => Some(Fields { text_style: Some(style), ..seen }),
                _ => None,
            }
        } else if name == position_key() {
            match (seen.position, corner_named(value)) {
                (None, Some(corner)) => Some(Fields { position: Some(corner), ..seen }),
                _ => None,
            }
        } else if name == background_alpha_key() {
            match (seen.background_alpha, hex8_number(value)) {
                (None, Some(bits)) => Some(Fields { background_alpha: Some(bits), ..seen }),
                _ => None,
            }
        } else {
            Some(seen)
        }
    }
}

/// What is known at the end of `bytes`, when `seen` is known before the line
/// that starts at `from`.
pub open spec fn read_lines(bytes: Seq<u8>, from: int, seen: Fields) -> Option<Fields>
    decreases bytes.len() - from,
{
    if from < 0 || from >= bytes.len() {
        Some(seen)
    } else {
        let end = first_at(bytes, from, LINE_FEED);
        if end >= bytes.len() {
            None
        } else {
            proof {
                lemma_first_at(bytes, from, LINE_FEED);
            }
            match read_line(seen, bytes.subrange(from, end)) {
                Some(next) => read_lines(bytes, end + 1, next),
                None => None,
            }
        }
    }
}

/// What a blob says of each field, or `None` when a reader gives up on it.
pub open spec fn decoding(bytes: Seq<u8>) -> Option<Fields> {
    read_lines(bytes, 0, Fields::none())
}

fn text_style_bytes(style: TextStyle) -> (r: &'static [u8])
    ensures
        r@ == ascii(style.name_of()),
{
    proof {
        reveal_strlit("Small");
        reveal_strlit("Body");
        reveal_strlit("Monospace");
        reveal_strlit("Button");
        reveal_strlit("Heading");
    }
    ascii_bytes(style.name())
}

fn corner_bytes(corner: Corner) -> (r: &'static [u8])
    ensures
        r@ == ascii(corner.name_of()),
{
    proof {
        reveal_strlit("TopLeft");
        reveal_strlit("TopRight");
        reveal_strlit("BottomLeft");
        reveal_strlit("BottomRight");
    }
    ascii_bytes(corner.name())
}

fn text_style_key_bytes() -> (r: &'static [u8])
    ensures
        r@ == text_style_key(),
{
    proof {
        reveal_strlit("text_style");
    }
    ascii_bytes("text_style")
}

fn position_key_bytes() -> (r: &'static [u8])
    ensures
        r@ == position_key(),
{
    proof {
        reveal_strlit("position");
    }
    ascii_bytes("position")
}

fn background_alpha_key_bytes() -> (r: &'static [u8])
    ensures
        r@ == background_alpha_key(),
{
    proof {
        reveal_strlit("background_alpha");
    }
    ascii_bytes("background_alpha")
}

fn text_style_from(name: &[u8]) -> (r: Option<TextStyle>)
    ensures
        r == text_style_named(name@),
{
    if same_bytes(name, text_style_bytes(TextStyle::Small)) {
        Some(TextStyle::Small)
    } else if same_bytes(name, text_style_bytes(TextStyle::Body)) {
        Some(TextStyle::Body)
    } else if same_bytes(name, text_style_bytes(TextStyle::Monospace)) {
        Some(TextStyle::Monospace)
    } else if same_bytes(name, text_style_bytes(TextStyle::Button)) {
        Some(TextStyle::Button)
    } else if same_bytes(name, text_style_bytes(TextStyle::Heading)) {
        Some(TextStyle::Heading)
    } else {
        None
    }
}

fn corner_from(name: &[u8]) -> (r: Option<Corner>)
    ensures
        r == corner_named(name@),
{
    if same_bytes(name, corner_bytes(Corner::TopLeft)) {
        Some(Corner::TopLeft)
    } else if same_bytes(name, corner_bytes(Corner::TopRight)) {
        Some(Corner::TopRight)
    } else if same_bytes(name, corner_bytes(Corner::BottomLeft)) {
        Some(Corner::BottomLeft)
    } else if same_bytes(name, corner_bytes(Corner::BottomRight)) {
        Some(Corner::BottomRight)
    } else {
        None
    }
}

/// Writes the three fields of `config` as a blob.
pub fn encode(config: &LegendConfig) -> (out: Vec<u8>)
    ensures
        out@ == encoding(*config),
        is_text(out@),
{
    proof {
        lemma_encoding_is_text(*config);
    }
    let mut out: Vec<u8> = Vec::new();
    out.extend_from_slice(text_style_key_bytes());
    out.push(EQUALS);
    out.extend_from_slice(text_style_bytes(config.text_style));
    out.push(LINE_FEED);
    out.extend_from_slice(position_key_bytes());
    out.push(EQUALS);
    out.extend_from_slice(corner_bytes(config.position));
    out.push(LINE_FEED);
    out.extend_from_slice(background_alpha_key_bytes());
    out.push(EQUALS);
    push_hex8(&mut out, config.background_alpha);
    out.push(LINE_FEED);
    assert(out@ =~= encoding(*config));
    out
}

fn absorb_line(seen: Fields, line: &[u8]) -> (r: Option<Fields>)
    ensures
        r == read_line(seen, line@),
{
    let split = find_first(line, 0, EQUALS);
    if split >= line.len() {
        return None;
    }
    let name = slice_subrange(line, 0, split);
    let value = slice_subrange(line, split + 1, line.len());
    if same_bytes(name, text_style_key_bytes()) {
        match (seen.text_style, text_style_from(value)) {
            (None, Some(style)) => Some(
                Fields {
                    text_style: Some(style),
                    position: seen.position,
                    background_alpha: seen.background_alpha,
                },
            ),
            _ => None,
        }
    } else if same_bytes(name, position_key_bytes()) {
        match (seen.position, corner_from(value)) {
            (None, Some(corner)) => Some(
                Fields {
                    text_style: seen.text_style,
                    position: Some(corner),
                    background_alpha: seen.background_alpha,
                },
            ),
            _ => None,
        }
    } else if same_bytes(name, background_alpha_key_bytes()) {
        match (seen.background_alpha, parse_hex8(value)) {
            (None, Some(bits)) => Some(
                Fields {
                    text_style: seen.text_style,
                    position: seen.position,
                    background_alpha: Some(bits),
                },
            ),
            _ => None,
        }
    } else {
        Some(seen)
    }
}

/// Reads a blob: what it says of each field, or `None` when it is one that a
/// reader gives up on.
pub fn decode(bytes: &[u8]) -> (r: Option<Fields>)
    ensures
        r == decoding(bytes@),
{
    let mut seen = Fields { text_style: None, position: None, background_alpha: None };
    let mut from: usize = 0;
    while from < bytes.len()
        invariant
            from <= bytes@.len(),
            read_lines(bytes@, from as int, seen) == decoding(bytes@),
        decreases bytes@.len() - from,
    {
        let end = find_first(bytes, from, LINE_FEED);
        if end >= bytes.len() {
            return None;
        }
        match absorb_line(seen, slice_subrange(bytes, from, end)) {
            Some(next) => {
                seen = next;
                from = end + 1;
            },
            None => {
                return None;
            },
        }
    }
    Some(seen)
}

/// Whether `mark` occurs nowhere in `bytes`.
pub open spec fn free_of(bytes: Seq<u8>, mark: u8) -> bool {
    forall|i: int| 0 <= i < bytes.len() ==> bytes[i] != mark
}

/// A line splits at its first equals sign into the name and the value it was
/// made of, when the name holds no equals sign.
proof fn lemma_line_splits(name: Seq<u8>, value: Seq<u8>)
    requires
        free_of(name, EQUALS),
    ensures
        ({
            let text = name + seq![EQUALS] + value;
            &&& first_at(text, 0, EQUALS) == name.len()
            &&& name.len() < text.len()
            &&& text.subrange(0, name.len() as int) == name
            &&& text.subrange(name.len() as int + 1, text.len() as int) == value
        }),
{
    let text = name + seq![EQUALS] + value;
    lemma_first_at_is(text, 0, name.len() as int, EQUALS);
    assert(text.subrange(0, name.len() as int) =~= name);
    assert(text.subrange(name.len() as int + 1, text.len() as int) =~= value);
}

/// Reading on from the start of a line takes that line in and goes on behind
/// it.
proof fn lemma_read_lines_step(
    bytes: Seq<u8>,
    from: int,
    name: Seq<u8>,
    value: Seq<u8>,
    seen: Fields,
)
    requires
        0 <= from,
        from + line(name, value).len() <= bytes.len(),
        bytes.subrange(from, from + line(name, value).len()) == line(name, value),
        free_of(name, LINE_FEED),
        free_of(value, LINE_FEED),
    ensures
        read_lines(bytes, from, seen) == match read_line(seen, name + seq![EQUALS] + value) {
            Some(next) => read_lines(bytes, from + line(name, value).len(), next),
            None => None,
        },
{
    let whole = line(name, value);
    let end = from + whole.len() - 1;
    assert forall|i: int| from <= i <= end implies bytes[i] == whole[i - from] by {
        assert(bytes.subrange(from, from + whole.len())[i - from] == bytes[i]);
    }
    assert forall|i: int| from <= i < end implies bytes[i] != LINE_FEED by {
        let k = i - from;
        if k < name.len() {
            assert(whole[k] == name[k]);
        } else if k == name.len() {
            assert(whole[k] == EQUALS);
        } else {
            assert(whole[k] == value[k - name.len() - 1]);
        }
    }
    assert(bytes[end] == LINE_FEED);
    lemma_first_at_is(bytes, from, end, LINE_FEED);
    assert(bytes.subrange(from, end) =~= name + seq![EQUALS] + value);
}

/// Names and values that a writer puts into a blob hold neither an equals
/// sign nor a line feed, and no two names of one kind are alike.
proof fn lemma_words(config: LegendConfig)
    ensures
        free_of(text_style_key(), EQUALS),
        free_of(text_style_key(), LINE_FEED),
        free_of(position_key(), EQUALS),
        free_of(position_key(), LINE_FEED),
        free_of(background_alpha_key(), EQUALS),
        free_of(background_alpha_key(), LINE_FEED),
        text_style_key().len() == 10,
        position_key().len() == 8,
        background_alpha_key().len() == 16,
        free_of(ascii(config.text_style.name_of()), LINE_FEED),
        free_of(ascii(config.position.name_of()), LINE_FEED),
        free_of(hex8(config.background_alpha), LINE_FEED),
        text_style_named(ascii(config.text_style.name_of())) == Some(config.text_style),
        corner_named(ascii(config.position.name_of())) == Some(config.position),
{
    reveal_strlit("text_style");
    reveal_strlit("position");
    reveal_strlit("background_alpha");
    reveal_strlit("Small");
    reveal_strlit("Body");
    reveal_strlit("Monospace");
    reveal_strlit("Button");
    reveal_strlit("Heading");
    reveal_strlit("TopLeft");
    reveal_strlit("TopRight");
    reveal_strlit("BottomLeft");
    reveal_strlit("BottomRight");
    assert(ascii("Small"@).len() == 5);
    assert(ascii("Body"@).len() == 4);
    assert(ascii("Monospace"@).len() == 9);
    assert(ascii("Button"@).len() == 6);
    assert(ascii("Heading"@).len() == 7);
    assert(ascii("TopLeft"@).len() == 7);
    assert(ascii("TopRight"@).len() == 8);
    assert(ascii("BottomLeft"@).len() == 10);
    assert(ascii("BottomRight"@).len() == 11);
}

/// Whether every byte is an ASCII character, so that the bytes are a text.
pub open spec fn is_text(bytes: Seq<u8>) -> bool {
    forall|i: int| 0 <= i < bytes.len() ==> bytes[i] < 128
}

/// A line of a name and a value that are texts is a text.
proof fn lemma_line_is_text(name: Seq<u8>, value: Seq<u8>)
    requires
        is_text(name),
        is_text(value),
    ensures
        is_text(line(name, value)),
{
}

/// What a writer puts into a blob is a text.
pub proof fn lemma_encoding_is_text(config: LegendConfig)
    ensures
        is_text(encoding(config)),
{
    reveal_strlit("text_style");
    reveal_strlit("position");
    reveal_strlit("background_alpha");
    reveal_strlit("Small");
    reveal_strlit("Body");
    reveal_strlit("Monospace");
    reveal_strlit("Button");
    reveal_strlit("Heading");
    reveal_strlit("TopLeft");
    reveal_strlit("TopRight");
    reveal_strlit("BottomLeft");
    reveal_strlit("BottomRight");
    let style = ascii(config.text_style.name_of());
    let corner = ascii(config.position.name_of());
    let alpha = hex8(config.background_alpha);
    assert(is_text(text_style_key()));
    assert(is_text(position_key()));
    assert(is_text(background_alpha_key()));
    assert(is_text(style));
    assert(is_text(corner));
    assert(is_text(alpha));
    lemma_line_is_text(text_style_key(), style);
    lemma_line_is_text(position_key(), corner);
    lemma_line_is_text(background_alpha_key(), alpha);
}

/// Reading what was written gives every field back.
pub proof fn lemma_decoding_of_encoding(config: LegendConfig)
    ensures
        decoding(encoding(config)) == Some(Fields::all(config)),
{
    let bytes = encoding(config);
    let style = ascii(config.text_style.name_of());
    let corner = ascii(config.position.name_of());
    let alpha = hex8(config.background_alpha);
    let first = line(text_style_key(), style);
    let second = line(position_key(), corner);
    let third = line(background_alpha_key(), alpha);
    let seen1 = Fields { text_style: Some(config.text_style), ..Fields::none() };
    let seen2 = Fields { position: Some(config.position), ..seen1 };
    let seen3 = Fields { background_alpha: Some(config.background_alpha), ..seen2 };
    lemma_words(config);
    lemma_hex8_round_trip(config.background_alpha);

    assert(bytes.subrange(0, first.len() as int) =~= first);
    lemma_read_lines_step(bytes, 0, text_style_key(), style, Fields::none());
    lemma_line_splits(text_style_key(), style);
    assert(read_line(Fields::none(), text_style_key() + seq![EQUALS] + style) == Some(seen1));

    let at2 = first.len() as int;
    assert(bytes.subrange(at2, at2 + second.len()) =~= second);
    lemma_read_lines_step(bytes, at2, position_key(), corner, seen1);
    lemma_line_splits(position_key(), corner);
    assert(read_line(seen1, position_key() + seq![EQUALS] + corner) == Some(seen2));

    let at3 = at2 + second.len();
    assert(bytes.subrange(at3, at3 + third.len()) =~= third);
    lemma_read_lines_step(bytes, at3, background_alpha_key(), alpha, seen2);
    lemma_line_splits(background_alpha_key(), alpha);
    assert(read_line(seen2, background_alpha_key() + seq![EQUALS] + alpha) == Some(seen3));

    assert(at3 + third.len() == bytes.len());
    assert(read_lines(bytes, bytes.len() as int, seen3) == Some(seen3));
}

} // verus!
