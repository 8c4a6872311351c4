//! Colours in the light's own format.
//!
//! The light takes a colour as four bytes: a mode byte and three channel
//! bytes that give the proportions of the channels on a scale of 255, the
//! second and third channel exchanged.

use vstd::prelude::*;

verus! {

/// Why a colour could not be turned into a command.
#[derive(Clone, Copy, Debug, PartialEq, Eq, Structural)]
pub enum ColorError {
    /// The text is not six hexadecimal digits, alone or after one `#`.
    InvalidHex,
    /// The rescaled channels add up to more than the full scale.
    InvalidColor,
}

impl ColorError {
    /// The text that describes the error.
    pub open spec fn message_spec(self) -> Seq<char> {
        match self {
            ColorError::InvalidHex => "Invalid hex color code"@,
            ColorError::InvalidColor => "Invalid color: channels exceed the scale"@,
        }
    }

    /// The text that describes the error.
    pub fn message(&self) -> (text: &'static str)
        ensures
            text@ == self.message_spec(),
    {
        match self {
            ColorError::InvalidHex => "Invalid hex color code",
            ColorError::InvalidColor => "Invalid color: channels exceed the scale",
        }
    }
}

/// First byte of every colour command.
pub const COLOR_MODE: u8 = 0x01;

/// Full scale: what the three channel bytes of a command share out.
pub const SCALE: u8 = 0xff;

/// A channel as it enters the division: never zero.
pub open spec fn clamp_channel(channel: u8) -> int {
    if channel == 0 {
        1
    } else {
        channel as int
    }
}

/// Sum of the three clamped channels.
pub open spec fn clamped_total(rgb: Seq<u8>) -> int {
    clamp_channel(rgb[0]) + clamp_channel(rgb[1]) + clamp_channel(rgb[2])
}

/// `255 * part / total` rounded to the nearest integer, a half rounded up.
///
/// [`lemma_rescale_is_nearest`] says so without a division, which is how the
/// value for given numbers is best had.
pub open spec fn rescale(part: int, total: int) -> int {
    (2 * (255 * part) + total) / (2 * total)
}

/// The three channels of `rgb`, clamped and rescaled, in the order of `rgb`.
pub open spec fn rescaled(rgb: Seq<u8>) -> Seq<int> {
    let total = clamped_total(rgb);
    seq![
        rescale(clamp_channel(rgb[0]), total),
        rescale(clamp_channel(rgb[1]), total),
        rescale(clamp_channel(rgb[2]), total),
    ]
}

/// The command for the colour `rgb`: the mode byte, then the rescaled
/// channels with the second and the third exchanged.
pub open spec fn convert_spec(rgb: Seq<u8>) -> Result<Seq<u8>, ColorError> {
    let scaled = rescaled(rgb);
    if scaled[0] + scaled[1] + scaled[2] > 255 {
        Err(ColorError::InvalidColor)
    } else {
        Ok(seq![COLOR_MODE, scaled[0] as u8, scaled[2] as u8, scaled[1] as u8])
    }
}

/// A command, or the error in its place, with the bytes as a sequence.
pub open spec fn payload_view(payload: Result<[u8; 4], ColorError>) -> Result<Seq<u8>, ColorError> {
    match payload {
        Ok(bytes) => Ok(bytes@),
        Err(e) => Err(e),
    }
}

/// Whether `value` is the integer nearest to `255 * part / total`, and of two
/// that are equally near the larger one: it lies within half a unit of the
/// quotient, the upper end included.
pub open spec fn is_nearest(part: int, total: int, value: int) -> bool {
    &&& 0 <= value
    &&& 2 * total * value - total <= 2 * (255 * part)
    &&& 2 * (255 * part) < 2 * total * value + total
}

/// The rescaled value is the integer nearest to `255 * part / total`, and of
/// two that are equally near the larger one.
pub proof fn lemma_rescale_is_nearest(part: int, total: int)
    requires
        0 <= part,
        0 < total,
    ensures
        is_nearest(part, total, rescale(part, total)),
{
    let n = 2 * (255 * part) + total;
    let d = 2 * total;
    vstd::arithmetic::div_mod::lemma_fundamental_div_mod(n, d);
    vstd::arithmetic::div_mod::lemma_mod_bound(n, d);
    vstd::arithmetic::div_mod::lemma_div_pos_is_pos(n, d);
    assert(d * (n / d) == 2 * total * rescale(part, total)) by (nonlinear_arith)
        requires
            d == 2 * total,
            n / d == rescale(part, total),
    ;
}

fn clamp(channel: u8) -> (clamped: u32)
    ensures
        clamped == clamp_channel(channel),
{
    if channel == 0 {
        1
    } else {
        channel as u32
    }
}

fn rescale_channel(part: u32, total: u32) -> (scaled: u32)
    requires
        1 <= part <= 255,
        part <= total <= 765,
    ensures
        scaled == rescale(part as int, total as int),
        scaled <= 255,
{
    let scaled = (2 * (255 * part) + total) / (2 * total);
    proof {
        lemma_rescale_is_nearest(part as int, total as int);
        assert(scaled <= 255) by (nonlinear_arith)
            requires
                2 * total * scaled - total <= 2 * (255 * part),
                part <= total,
                0 < total,
        ;
    }
    scaled
}

/// Turns a colour given as red, green and blue into the light's command.
///
/// Each channel is raised to at least 1, then the three are rescaled so
/// that they keep their proportions and add up to about 255. The command
/// is the mode byte, the rescaled red, the rescaled blue and the rescaled
/// green, in that order. Where rounding takes the sum of the three above
/// 255 there is no command, and the result is `InvalidColor`.
pub fn convert(rgb: &[u8; 3]) -> (payload: Result<[u8; 4], ColorError>)
    ensures
        payload_view(payload) == convert_spec(rgb@),
        payload matches Ok(bytes) ==> bytes@[0] == COLOR_MODE && bytes@[1] + bytes@[2] + bytes@[3]
            <= SCALE,
        payload matches Err(e) ==> e == ColorError::InvalidColor,
{
    let red = clamp(rgb[0]);
    let green = clamp(rgb[1]);
    let blue = clamp(rgb[2]);
    let total = red + green + blue;
    let r = rescale_channel(red, total);
    let g = rescale_channel(green, total);
    let b = rescale_channel(blue, total);
    if r + g + b > 255 {
        return Err(ColorError::InvalidColor);
    }
    let bytes = [COLOR_MODE, r as u8, b as u8, g as u8];
    assert(bytes@ =~= seq![COLOR_MODE, r as u8, b as u8, g as u8]);
    Ok(bytes)
}

/// The value of a hexadecimal digit, of either case.
pub open spec fn hex_value(digit: char) -> Option<int> {
    if '0' <= digit <= '9' {
        Some(digit as int - '0' as int)
    } else if 'a' <= digit <= 'f' {
        Some(digit as int - 'a' as int + 10)
    } else if 'A' <= digit <= 'F' {
        Some(digit as int - 'A' as int + 10)
    } else {
        None
    }
}

/// The six characters that are to be the digits: all of a text of six, and
/// what follows the `#` in a text of seven that begins with one.
pub open spec fn hex_digits(text: Seq<char>) -> Option<Seq<char>> {
    if text.len() == 6 {
        Some(text)
    } else if text.len() == 7 && text[0] == '#' {
        Some(text.subrange(1, 7))
    } else {
        None
    }
}

/// The byte that two hexadecimal digits spell, if both are digits.
pub open spec fn hex_pair(high: char, low: char) -> Option<u8> {
    match (hex_value(high), hex_value(low)) {
        (Some(h), Some(l)) => Some((16 * h + l) as u8),
        _ => None,
    }
}

/// Red, green and blue as `text` spells them.
pub open spec fn parse_hex_spec(text: Seq<char>) -> Option<Seq<u8>> {
    match hex_digits(text) {
        Some(d) => match (hex_pair(d[0], d[1]), hex_pair(d[2], d[3]), hex_pair(d[4], d[5])) {
            (Some(red), Some(green), Some(blue)) => Some(seq![red, green, blue]),
            _ => None,
        },
        None => None,
    }
}

/// The command for the colour that `text` spells.
pub open spec fn color_spec(text: Seq<char>) -> Result<Seq<u8>, ColorError> {
    match parse_hex_spec(text) {
        Some(rgb) => convert_spec(rgb),
        None => Err(ColorError::InvalidHex),
    }
}

/// Whether `text` is a colour that [`color`] reads: six hexadecimal digits,
/// alone or after one `#`.
pub open spec fn is_hex_color(text: Seq<char>) -> bool {
    match hex_digits(text) {
        Some(d) => forall|i: int| 0 <= i < 6 ==> hex_value(#[trigger] d[i]) is Some,
        None => false,
    }
}

/// The three channel bytes of a command never add up to more than 255, and
/// the only error of a conversion from red, green and blue is `InvalidColor`.
pub proof fn lemma_channels_within_scale(rgb: Seq<u8>)
    requires
        rgb.len() == 3,
    ensures
        match convert_spec(rgb) {
            Ok(bytes) => bytes.len() == 4 && bytes[0] == COLOR_MODE && bytes[1] + bytes[2]
                + bytes[3] <= 255,
            Err(e) => e == ColorError::InvalidColor,
        },
{
    let total = clamped_total(rgb);
    lemma_rescale_is_nearest(clamp_channel(rgb[0]), total);
    lemma_rescale_is_nearest(clamp_channel(rgb[1]), total);
    lemma_rescale_is_nearest(clamp_channel(rgb[2]), total);
}

/// A command carries the rescaled channels in the order first, third,
/// second: red, then blue, then green.
pub proof fn lemma_channel_order(rgb: Seq<u8>)
    requires
        rgb.len() == 3,
    ensures
        convert_spec(rgb) matches Ok(bytes) ==> bytes[1] == rescaled(rgb)[0] && bytes[2]
            == rescaled(rgb)[2] && bytes[3] == rescaled(rgb)[1],
{
    let total = clamped_total(rgb);
    lemma_rescale_is_nearest(clamp_channel(rgb[0]), total);
    lemma_rescale_is_nearest(clamp_channel(rgb[1]), total);
    lemma_rescale_is_nearest(clamp_channel(rgb[2]), total);
}

/// Every channel enters the division as at least 1, so the divisor is at
/// least 3 whatever the colour, black included; a colour and the same colour
/// with its zero channels raised to 1 give the same result.
pub proof fn lemma_zero_channels_are_raised(rgb: Seq<u8>)
    requires
        rgb.len() == 3,
    ensures
        clamped_total(rgb) >= 3,
        forall|i: int| 0 <= i < 3 ==> 1 <= clamp_channel(#[trigger] rgb[i]) <= 255,
        convert_spec(rgb) == convert_spec(
            seq![
                clamp_channel(rgb[0]) as u8,
                clamp_channel(rgb[1]) as u8,
                clamp_channel(rgb[2]) as u8,
            ],
        ),
{
}

/// A `#` before the six digits changes nothing.
pub proof fn lemma_prefix_is_cosmetic(digits: Seq<char>)
    requires
        digits.len() == 6,
    ensures
        color_spec(seq!['#'] + digits) == color_spec(digits),
{
    let text = seq!['#'] + digits;
    assert(text.subrange(1, 7) =~= digits);
}

/// A text's colour is the conversion of the red, green and blue it spells.
pub proof fn lemma_color_is_convert(text: Seq<char>)
    ensures
        parse_hex_spec(text) matches Some(rgb) ==> rgb.len() == 3 && color_spec(text)
            == convert_spec(rgb),
{
}

/// `InvalidHex` is the result for exactly the texts that are not six
/// hexadecimal digits, alone or after one `#`: among them every text whose
/// length is neither 6 nor 7, and every text with a character among the six
/// that is no hexadecimal digit.
pub proof fn lemma_invalid_hex(text: Seq<char>)
    ensures
        color_spec(text) == Err::<Seq<u8>, ColorError>(ColorError::InvalidHex) <==> !is_hex_color(
            text,
        ),
        text.len() != 6 && text.len() != 7 ==> !is_hex_color(text),
        text.len() == 7 && text[0] != '#' ==> !is_hex_color(text),
        forall|i: int|
            text.len() == 6 && 0 <= i < 6 && hex_value(#[trigger] text[i]) is None
                ==> !is_hex_color(text),
        forall|i: int|
            text.len() == 7 && 1 <= i < 7 && hex_value(#[trigger] text[i]) is None
                ==> !is_hex_color(text),
{
    if text.len() == 7 {
        let d = text.subrange(1, 7);
        assert forall|i: int| 1 <= i < 7 && hex_value(#[trigger] text[i]) is None implies !is_hex_color(
            text,
        ) by {
            assert(d[i - 1] == text[i]);
        }
    }
    match hex_digits(text) {
        Some(d) => {
            if is_hex_color(text) {
                assert(hex_value(d[0]) is Some && hex_value(d[1]) is Some);
                assert(hex_value(d[2]) is Some && hex_value(d[3]) is Some);
                assert(hex_value(d[4]) is Some && hex_value(d[5]) is Some);
                let rgb = parse_hex_spec(text)->0;
                lemma_channels_within_scale(rgb);
            }
        },
        None => {},
    }
}

fn hex_digit(digit: char) -> (value: Option<u8>)
    ensures
        match value {
            Some(v) => hex_value(digit) == Some(v as int) && v < 16,
            None => hex_value(digit) is None,
        },
{
    if '0' <= digit && digit <= '9' {
        Some((digit as u32 - '0' as u32) as u8)
    } else if 'a' <= digit && digit <= 'f' {
        Some((digit as u32 - 'a' as u32 + 10) as u8)
    } else if 'A' <= digit && digit <= 'F' {
        Some((digit as u32 - 'A' as u32 + 10) as u8)
    } else {
        None
    }
}

fn hex_byte(text: &str, at: usize) -> (byte: Option<u8>)
    requires
        at + 1 < text@.len() <= 7,
    ensures
        byte == hex_pair(text@[at as int], text@[at + 1]),
{
    match (hex_digit(text.get_char(at)), hex_digit(text.get_char(at + 1))) {
        (Some(high), Some(low)) => Some(16 * high + low),
        _ => None,
    }
}

/// Reads red, green and blue from six hexadecimal digits, which may follow
/// one `#`. Any other text is `InvalidHex`.
pub fn parse_hex(hexstr: &str) -> (rgb: Result<[u8; 3], ColorError>)
    ensures
        match rgb {
            Ok(channels) => parse_hex_spec(hexstr@) == Some(channels@),
            Err(e) => parse_hex_spec(hexstr@) is None && e == ColorError::InvalidHex,
        },
{
    let len = hexstr.unicode_len();
    let start: usize = if len == 6 {
        0
    } else if len == 7 && hexstr.get_char(0) == '#' {
        1
    } else {
        return Err(ColorError::InvalidHex);
    };
    match (hex_byte(hexstr, start), hex_byte(hexstr, start + 2), hex_byte(hexstr, start + 4)) {
        (Some(red), Some(green), Some(blue)) => {
            let channels = [red, green, blue];
            assert(channels@ =~= seq![red, green, blue]);
            Ok(channels)
        },
        _ => Err(ColorError::InvalidHex),
    }
}

/// Turns a colour written as six hexadecimal digits, with or without a `#`
/// before them, into the light's command.
///
/// The digits are red, green and blue, two each; the command is that of
/// [`convert`] for them. A text of any other shape is `InvalidHex`.
pub fn color(hexstr: &str) -> (payload: Result<[u8; 4], ColorError>)
    ensures
        payload_view(payload) == color_spec(hexstr@),
{
    match parse_hex(hexstr) {
        Ok(rgb) => convert(&rgb),
        Err(e) => Err(e),
    }
}

} // verus!
