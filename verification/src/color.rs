//! Color values carried by the rendering preferences, stored as 8-bit
//! channels.

use vstd::prelude::*;
use vstd::string::StringExecFns;

verus! {

/// The character for a single decimal digit.
pub open spec fn digit_char(d: int) -> char {
    if d == 0 {
        '0'
    } else if d == 1 {
        '1'
    } else if d == 2 {
        '2'
    } else if d == 3 {
        '3'
    } else if d == 4 {
        '4'
    } else if d == 5 {
        '5'
    } else if d == 6 {
        '6'
    } else if d == 7 {
        '7'
    } else if d == 8 {
        '8'
    } else {
        '9'
    }
}

/// The decimal numeral of a channel value, without leading zeros.
pub open spec fn decimal(n: int) -> Seq<char> {
    if n < 10 {
        seq![digit_char(n)]
    } else if n < 100 {
        seq![digit_char(n / 10), digit_char(n % 10)]
    } else {
        seq![digit_char(n / 100), digit_char((n / 10) % 10), digit_char(n % 10)]
    }
}

/// Returns the single-character numeral of one decimal digit.
fn digit_str(d: u8) -> (r: &'static str)
    requires
        d < 10,
    ensures
        r@ == seq![digit_char(d as int)],
{
    let r: &'static str = if d == 0 {
        "0"
    } else if d == 1 {
        "1"
    } else if d == 2 {
        "2"
    } else if d == 3 {
        "3"
    } else if d == 4 {
        "4"
    } else if d == 5 {
        "5"
    } else if d == 6 {
        "6"
    } else if d == 7 {
        "7"
    } else if d == 8 {
        "8"
    } else {
        "9"
    };
    proof {
        reveal_strlit("0");
        reveal_strlit("1");
        reveal_strlit("2");
        reveal_strlit("3");
        reveal_strlit("4");
        reveal_strlit("5");
        reveal_strlit("6");
        reveal_strlit("7");
        reveal_strlit("8");
        reveal_strlit("9");
        assert(r@ =~= seq![digit_char(d as int)]);
    }
    r
}

/// Returns the decimal numeral of a channel value.
fn channel_string(n: u8) -> (s: String)
    ensures
        s@ == decimal(n as int),
{
    let mut s = String::new();
    if n >= 100 {
        s.append(digit_str(n / 100));
    }
    if n >= 10 {
        s.append(digit_str((n / 10) % 10));
    }
    s.append(digit_str(n % 10));
    proof {
        assert(s@ =~= decimal(n as int));
    }
    s
}

/// The character for a single hexadecimal digit, in lower case.
pub open spec fn hex_digit_char(d: int) -> char {
    if d < 10 {
        digit_char(d)
    } else if d == 10 {
        'a'
    } else if d == 11 {
        'b'
    } else if d == 12 {
        'c'
    } else if d == 13 {
        'd'
    } else if d == 14 {
        'e'
    } else {
        'f'
    }
}

/// The two-digit lower-case hexadecimal numeral of a channel value.
pub open spec fn hex_byte(n: int) -> Seq<char> {
    seq![hex_digit_char(n / 16), hex_digit_char(n % 16)]
}

/// Returns the single-character numeral of one hexadecimal digit.
fn hex_digit_str(d: u8) -> (r: &'static str)
    requires
        d < 16,
    ensures
        r@ == seq![hex_digit_char(d as int)],
{
    if d < 10 {
        digit_str(d)
    } else {
        let r: &'static str = if d == 10 {
            "a"
        } else if d == 11 {
            "b"
        } else if d == 12 {
            "c"
        } else if d == 13 {
            "d"
        } else if d == 14 {
            "e"
        } else {
            "f"
        };
        proof {
            reveal_strlit("a");
            reveal_strlit("b");
            reveal_strlit("c");
            reveal_strlit("d");
            reveal_strlit("e");
            reveal_strlit("f");
            assert(r@ =~= seq![hex_digit_char(d as int)]);
        }
        r
    }
}

/// Returns the two-digit hexadecimal numeral of a channel value.
fn hex_byte_string(n: u8) -> (s: String)
    ensures
        s@ == hex_byte(n as int),
{
    let mut s = String::new();
    s.append(hex_digit_str(n / 16));
    s.append(hex_digit_str(n % 16));
    proof {
        assert(s@ =~= hex_byte(n as int));
    }
    s
}

/// This struct represents colors in 8-bit precision as separate
/// Red, Green, and Blue channels plus a separate Alpha (Opacity) channel
#[derive(Clone, Copy, Debug, Eq, PartialEq, Structural)]
pub struct ReducedRGBA {
    pub red: u8,
    pub green: u8,
    pub blue: u8,
    pub alpha: u8,
}

impl ReducedRGBA {
    /// The `RGBA(red, green, blue, alpha)` rendering of this color, with
    /// each channel written in decimal.
    pub open spec fn rgba_string(self) -> Seq<char> {
        "RGBA("@ + decimal(self.red as int) + ", "@ + decimal(self.green as int) + ", "@ + decimal(
            self.blue as int,
        ) + ", "@ + decimal(self.alpha as int) + ")"@
    }

    /// Renders the color as `RGBA(red, green, blue, alpha)` with decimal
    /// channel values.
    pub fn to_string(&self) -> (r: String)
        ensures
            r@ == self.rgba_string(),
    {
        let mut s = String::from_str("RGBA(");
        let red = channel_string(self.red);
        s.append(red.as_str());
        s.append(", ");
        let green = channel_string(self.green);
        s.append(green.as_str());
        s.append(", ");
        let blue = channel_string(self.blue);
        s.append(blue.as_str());
        s.append(", ");
        let alpha = channel_string(self.alpha);
        s.append(alpha.as_str());
        s.append(")");
        proof {
            assert(s@ =~= self.rgba_string());
        }
        s
    }

    /// The `#rrggbb` hex rendering of this color, in lower case, with the
    /// alpha channel left aside as svg carries opacity separately.
    pub open spec fn hex_string_spec(self) -> Seq<char> {
        "#"@ + hex_byte(self.red as int) + hex_byte(self.green as int) + hex_byte(
            self.blue as int,
        )
    }

    /// Renders the color channels as a `#rrggbb` hex color string suitable
    /// for embedding into an svg image.
    pub fn hex_string(&self) -> (r: String)
        ensures
            r@ == self.hex_string_spec(),
    {
        let mut s = String::from_str("#");
        let red = hex_byte_string(self.red);
        s.append(red.as_str());
        let green = hex_byte_string(self.green);
        s.append(green.as_str());
        let blue = hex_byte_string(self.blue);
        s.append(blue.as_str());
        proof {
            assert(s@ =~= self.hex_string_spec());
        }
        s
    }

    /// Sets the red channel, leaving the other channels unchanged.
    pub fn set_red(&mut self, color: u8)
        ensures
            final(self).red == color,
            final(self).green == old(self).green,
            final(self).blue == old(self).blue,
            final(self).alpha == old(self).alpha,
    {
        self.red = color;
    }

    /// Sets the green channel, leaving the other channels unchanged.
    pub fn set_green(&mut self, color: u8)
        ensures
            final(self).green == color,
            final(self).red == old(self).red,
            final(self).blue == old(self).blue,
            final(self).alpha == old(self).alpha,
    {
        self.green = color;
    }

    /// Sets the blue channel, leaving the other channels unchanged.
    pub fn set_blue(&mut self, color: u8)
        ensures
            final(self).blue == color,
            final(self).red == old(self).red,
            final(self).green == old(self).green,
            final(self).alpha == old(self).alpha,
    {
        self.blue = color;
    }

    /// Sets the alpha channel, leaving the other channels unchanged.
    pub fn set_alpha(&mut self, color: u8)
        ensures
            final(self).alpha == color,
            final(self).red == old(self).red,
            final(self).green == old(self).green,
            final(self).blue == old(self).blue,
    {
        self.alpha = color;
    }

    /// Returns "black" as a [ReducedRGBA] struct
    pub fn black() -> (r: Self)
        ensures
            r == (ReducedRGBA { red: 0, green: 0, blue: 0, alpha: 255 }),
    {
        ReducedRGBA { red: 0, green: 0, blue: 0, alpha: 255 }
    }

    /// Returns "white" as a [ReducedRGBA] struct
    pub fn white() -> (r: Self)
        ensures
            r == (ReducedRGBA { red: 255, green: 255, blue: 255, alpha: 255 }),
    {
        ReducedRGBA { red: 255, green: 255, blue: 255, alpha: 255 }
    }

    /// Returns "red" as a [ReducedRGBA] struct
    pub fn red() -> (r: Self)
        ensures
            r == (ReducedRGBA { red: 255, green: 0, blue: 0, alpha: 255 }),
    {
        ReducedRGBA { red: 255, green: 0, blue: 0, alpha: 255 }
    }

    /// Returns "green" as a [ReducedRGBA] struct
    pub fn green() -> (r: Self)
        ensures
            r == (ReducedRGBA { red: 0, green: 255, blue: 0, alpha: 255 }),
    {
        ReducedRGBA { red: 0, green: 255, blue: 0, alpha: 255 }
    }

    /// Returns "blue" as a [ReducedRGBA] struct
    pub fn blue() -> (r: Self)
        ensures
            r == (ReducedRGBA { red: 0, green: 0, blue: 255, alpha: 255 }),
    {
        ReducedRGBA { red: 0, green: 0, blue: 255, alpha: 255 }
    }

    /// Returns "yellow" as a [ReducedRGBA] struct
    pub fn yellow() -> (r: Self)
        ensures
            r == (ReducedRGBA { red: 255, green: 255, blue: 0, alpha: 255 }),
    {
        ReducedRGBA { red: 255, green: 255, blue: 0, alpha: 255 }
    }

    /// Returns "cyan" as a [ReducedRGBA] struct
    pub fn cyan() -> (r: Self)
        ensures
            r == (ReducedRGBA { red: 0, green: 255, blue: 255, alpha: 255 }),
    {
        ReducedRGBA { red: 0, green: 255, blue: 255, alpha: 255 }
    }

    /// Returns "magenta" as a [ReducedRGBA] struct
    pub fn magenta() -> (r: Self)
        ensures
            r == (ReducedRGBA { red: 255, green: 0, blue: 255, alpha: 255 }),
    {
        ReducedRGBA { red: 255, green: 0, blue: 255, alpha: 255 }
    }
}

} // verus!
