//! 24-bit RGB colours and their packed `0xRRGGBB` form.

use vstd::prelude::*;

verus! {

/// A colour with three 8-bit channels.
#[derive(Debug, Clone, Copy, PartialEq, Eq, Structural)]
pub struct Color {
    r: u8,
    g: u8,
    b: u8,
}

/// The packed form of three channels: red in bits 16..24, green in bits 8..16,
/// blue in bits 0..8.
pub open spec fn pack(r: u8, g: u8, b: u8) -> int {
    r as int * 0x1_0000 + g as int * 0x100 + b as int
}

/// The sum of two channels, held at 255.
pub open spec fn saturating_sum(a: u8, b: u8) -> u8 {
    if a + b > 255 {
        255u8
    } else {
        (a + b) as u8
    }
}

/// The character of a decimal digit.
pub open spec fn digit(d: nat) -> char {
    if d == 0 {
        '0'
    } else if d == 1 {
        '1'
    } else if d == 2 {
        '2'
    } else if d == 3 {
        '3'
    } else if d == 4 {
        '4'
    } else if d == 5 {
        '5'
    } else if d == 6 {
        '6'
    } else if d == 7 {
        '7'
    } else if d == 8 {
        '8'
    } else {
        '9'
    }
}

/// A number in decimal, without leading zeros.
pub open spec fn decimal(n: nat) -> Seq<char>
    decreases n,
{
    if n < 10 {
        seq![digit(n)]
    } else {
        decimal(n / 10).push(digit(n % 10))
    }
}

/// `String::push`: the text with the character added at its end.
#[verifier::external_body]
fn push_char(text: &mut String, c: char)
    ensures
        final(text)@ == old(text)@.push(c),
{
    text.push(c);
}

/// `String::push_str`: the text with the slice added at its end.
#[verifier::external_body]
fn push_text(text: &mut String, more: &str)
    ensures
        final(text)@ == old(text)@ + more@,
{
    text.push_str(more);
}

/// The character of a decimal digit.
fn digit_char(d: u8) -> (c: char)
    requires
        d < 10,
    ensures
        c == digit(d as nat),
{
    match d {
        0 => '0',
        1 => '1',
        2 => '2',
        3 => '3',
        4 => '4',
        5 => '5',
        6 => '6',
        7 => '7',
        8 => '8',
        _ => '9',
    }
}

/// Adds a channel's value in decimal to the end of a text.
fn push_decimal(text: &mut String, n: u8)
    ensures
        final(text)@ == old(text)@ + decimal(n as nat),
{
    proof {
        reveal_with_fuel(decimal, 3);
    }
    if n >= 100 {
        push_char(text, digit_char(n / 100));
    }
    if n >= 10 {
        push_char(text, digit_char((n / 10) % 10));
    }
    push_char(text, digit_char(n % 10));
    assert(text@ =~= old(text)@ + decimal(n as nat));
}

impl Color {
    /// The red channel.
    pub closed spec fn red(self) -> u8 {
        self.r
    }

    /// The green channel.
    pub closed spec fn green(self) -> u8 {
        self.g
    }

    /// The blue channel.
    pub closed spec fn blue(self) -> u8 {
        self.b
    }

    /// The colour made of three channels.
    pub closed spec fn rgb(r: u8, g: u8, b: u8) -> Color {
        Color { r, g, b }
    }

    /// The packed 24-bit value of this colour.
    pub open spec fn hex(self) -> int {
        pack(self.red(), self.green(), self.blue())
    }

    /// The colour whose packed value is `hex`, bits 24 and above left out.
    pub open spec fn unpack(hex: int) -> Color {
        Color::rgb(
            ((hex / 0x1_0000) % 0x100) as u8,
            ((hex / 0x100) % 0x100) as u8,
            (hex % 0x100) as u8,
        )
    }

    /// The colour written out, as in `Color(r: 135, g: 206, b: 235)`.
    pub open spec fn text(self) -> Seq<char> {
        "Color(r: "@ + decimal(self.red() as nat) + ", g: "@ + decimal(self.green() as nat)
            + ", b: "@ + decimal(self.blue() as nat) + ")"@
    }

    /// The channel-wise saturating sum of two colours.
    pub open spec fn plus(self, other: Color) -> Color {
        Color::rgb(
            saturating_sum(self.red(), other.red()),
            saturating_sum(self.green(), other.green()),
            saturating_sum(self.blue(), other.blue()),
        )
    }

    /// A colour is its three channels and nothing else.
    pub broadcast proof fn channels_determine(self)
        ensures
            #![trigger self.red(), self.green(), self.blue()]
            self == Color::rgb(self.red(), self.green(), self.blue()),
    {
    }

    /// The channels of `rgb(r, g, b)` are `r`, `g` and `b`.
    pub broadcast proof fn rgb_channels(r: u8, g: u8, b: u8)
        ensures
            (#[trigger] Color::rgb(r, g, b)).red() == r,
            Color::rgb(r, g, b).green() == g,
            Color::rgb(r, g, b).blue() == b,
    {
    }

    pub fn new(r: u8, g: u8, b: u8) -> (c: Color)
        ensures
            c == Color::rgb(r, g, b),
            c.red() == r,
            c.green() == g,
            c.blue() == b,
    {
        Color { r, g, b }
    }

    /// Unpacks `0xRRGGBB`; bits 24 and above are ignored.
    pub fn from_hex(hex: u32) -> (c: Color)
        ensures
            c == Color::unpack(hex as int),
            c.red() == (hex / 0x1_0000) % 0x100,
            c.green() == (hex / 0x100) % 0x100,
            c.blue() == hex % 0x100,
            c.hex() == hex % 0x100_0000,
    {
        assert((hex >> 16) & 0xFF == (hex / 0x1_0000) % 0x100) by (bit_vector);
        assert((hex >> 8) & 0xFF == (hex / 0x100) % 0x100) by (bit_vector);
        assert(hex & 0xFF == hex % 0x100) by (bit_vector);
        Color {
            r: ((hex >> 16) & 0xFF) as u8,
            g: ((hex >> 8) & 0xFF) as u8,
            b: (hex & 0xFF) as u8,
        }
    }

    /// Packs the colour as `0xRRGGBB`.
    pub fn to_hex(self) -> (hex: u32)
        ensures
            hex == self.hex(),
            hex < 0x100_0000,
    {
        let r: u32 = self.r as u32;
        let g: u32 = self.g as u32;
        let b: u32 = self.b as u32;
        assert(r << 16 | g << 8 | b == r * 0x1_0000 + g * 0x100 + b) by (bit_vector)
            requires
                r < 0x100,
                g < 0x100,
                b < 0x100,
        ;
        r << 16 | g << 8 | b
    }

    /// The colour written out, each channel in decimal.
    pub fn to_string(&self) -> (text: String)
        ensures
            text@ == self.text(),
    {
        let mut text: String = String::new();
        push_text(&mut text, "Color(r: ");
        push_decimal(&mut text, self.r);
        push_text(&mut text, ", g: ");
        push_decimal(&mut text, self.g);
        push_text(&mut text, ", b: ");
        push_decimal(&mut text, self.b);
        push_text(&mut text, ")");
        assert(text@ =~= self.text());
        text
    }

    pub fn r(self) -> (r: u8)
        ensures
            r == self.red(),
    {
        self.r
    }

    pub fn g(self) -> (g: u8)
        ensures
            g == self.green(),
    {
        self.g
    }

    pub fn b(self) -> (b: u8)
        ensures
            b == self.blue(),
    {
        self.b
    }
}

impl vstd::std_specs::ops::AddSpecImpl for Color {
    open spec fn obeys_add_spec() -> bool {
        true
    }

    open spec fn add_req(self, other: Color) -> bool {
        true
    }

    open spec fn add_spec(self, other: Color) -> Color {
        self.plus(other)
    }
}

impl core::ops::Add for Color {
    type Output = Color;

    /// Adds channel by channel, each sum held at 255.
    fn add(self, other: Color) -> (sum: Color)
        ensures
            sum == self.plus(other),
    {
        Color {
            r: self.r.saturating_add(other.r),
            g: self.g.saturating_add(other.g),
            b: self.b.saturating_add(other.b),
        }
    }
}

/// Packing a colour and unpacking the result gives the colour back.
pub proof fn unpack_inverts_hex(c: Color)
    ensures
        0 <= c.hex() < 0x100_0000,
        Color::unpack(c.hex()) == c,
{
}

/// Unpacking a value and packing the result gives the low 24 bits back.
pub proof fn hex_inverts_unpack(hex: u32)
    ensures
        Color::unpack(hex as int).hex() == hex % 0x100_0000,
{
}

/// Adding colours never lowers a channel, and black changes nothing.
pub proof fn plus_is_monotone(a: Color, b: Color)
    ensures
        a.plus(b).red() >= a.red(),
        a.plus(b).green() >= a.green(),
        a.plus(b).blue() >= a.blue(),
        a.plus(b) == b.plus(a),
        a.plus(Color::rgb(0, 0, 0)) == a,
{
}

} // verus!
