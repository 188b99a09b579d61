//! The font requested for the specification text of a rendering.

use crate::text::str_eq;
use vstd::prelude::*;
use vstd::string::StringExecFns;

verus! {

/// Error returned if unable to parse a font property from a given `str`
#[derive(Clone, Copy, Debug, Eq, PartialEq, Structural)]
pub struct ParseFontError;

/// The style of the font
#[derive(Clone, Copy, Debug, Eq, PartialEq, Structural)]
pub enum Style {
    Normal,
    Oblique,
    Italic,
}

impl Default for Style {
    /// Returns `Style::Normal`
    fn default() -> (r: Self)
        ensures
            r == Style::Normal,
    {
        Style::Normal
    }
}

/// Which `Style` a token names; each variant may be spelled with its
/// name capitalized or in lower case.
pub open spec fn parse_style(s: Seq<char>) -> Result<Style, ParseFontError> {
    if s == "Style::Normal"@ || s == "Style::normal"@ {
        Ok(Style::Normal)
    } else if s == "Style::Oblique"@ || s == "Style::oblique"@ {
        Ok(Style::Oblique)
    } else if s == "Style::Italic"@ || s == "Style::italic"@ {
        Ok(Style::Italic)
    } else {
        Err(ParseFontError)
    }
}

impl Style {
    /// The value this style contributes to a `font-style` CSS property.
    pub open spec fn css(self) -> Seq<char> {
        match self {
            Style::Normal => "Normal"@,
            Style::Oblique => "Oblique"@,
            Style::Italic => "Italic"@,
        }
    }

    /// Returns the `font-style` CSS value for this style.
    pub fn css_value(&self) -> (r: &'static str)
        ensures
            r@ == self.css(),
    {
        match self {
            Style::Normal => "Normal",
            Style::Oblique => "Oblique",
            Style::Italic => "Italic",
        }
    }

    /// The canonical `Style::`-prefixed token naming this value, as it is
    /// written into persisted preferences.
    pub open spec fn token(self) -> Seq<char> {
        match self {
            Style::Normal => "Style::Normal"@,
            Style::Oblique => "Style::Oblique"@,
            Style::Italic => "Style::Italic"@,
        }
    }

    /// Returns the canonical token naming this value.
    pub fn name(&self) -> (r: &'static str)
        ensures
            r@ == self.token(),
    {
        match self {
            Style::Normal => "Style::Normal",
            Style::Oblique => "Style::Oblique",
            Style::Italic => "Style::Italic",
        }
    }

    /// Parses a `Style` from its `Style::`-prefixed token.
    pub fn parse(s: &str) -> (r: Result<Style, ParseFontError>)
        ensures
            r == parse_style(s@),
    {
        if str_eq(s, "Style::Normal") || str_eq(s, "Style::normal") {
            Ok(Style::Normal)
        } else if str_eq(s, "Style::Oblique") || str_eq(s, "Style::oblique") {
            Ok(Style::Oblique)
        } else if str_eq(s, "Style::Italic") || str_eq(s, "Style::italic") {
            Ok(Style::Italic)
        } else {
            Err(ParseFontError)
        }
    }
}

/// Law: the token a `Style` writes into persisted preferences parses back
/// to the same value.
pub proof fn lemma_style_token_round_trip(s: Style)
    ensures
        parse_style(s.token()) == Ok::<Style, ParseFontError>(s),
{
    reveal_strlit("Style::Normal");
    reveal_strlit("Style::normal");
    reveal_strlit("Style::Oblique");
    reveal_strlit("Style::oblique");
    reveal_strlit("Style::Italic");
    reveal_strlit("Style::italic");
    assert("Style::Normal"@.len() == 13);
    assert("Style::Oblique"@.len() == 14);
    assert("Style::Italic"@.len() == 13);
    assert("Style::Italic"@[7] == 'I');
    assert("Style::Normal"@[7] == 'N');
    assert("Style::normal"@[7] == 'n');
    assert("Style::Italic"@ != "Style::Normal"@);
    assert("Style::Italic"@ != "Style::normal"@);
}

impl core::str::FromStr for Style {
    type Err = ParseFontError;

    fn from_str(s: &str) -> Result<Self, Self::Err> {
        Style::parse(s)
    }
}

/// The weight of the font
#[derive(Clone, Copy, Debug, Eq, PartialEq, Structural)]
pub enum Weight {
    Thin,
    Ultralight,
    Light,
    Semilight,
    Book,
    Normal,
    Medium,
    Semibold,
    Bold,
    Ultrabold,
    Heavy,
    Ultraheavy,
}

impl Default for Weight {
    /// Returns `Weight::Normal`
    fn default() -> (r: Self)
        ensures
            r == Weight::Normal,
    {
        Weight::Normal
    }
}

/// Which `Weight` a token names; each variant may be spelled with its
/// name capitalized or in lower case, and `Normal` also answers to
/// `Regular`.
pub open spec fn parse_weight(s: Seq<char>) -> Result<Weight, ParseFontError> {
    if s == "Weight::Thin"@ || s == "Weight::thin"@ {
        Ok(Weight::Thin)
    } else if s == "Weight::Ultralight"@ || s == "Weight::ultralight"@ {
        Ok(Weight::Ultralight)
    } else if s == "Weight::Light"@ || s == "Weight::light"@ {
        Ok(Weight::Light)
    } else if s == "Weight::Semilight"@ || s == "Weight::semilight"@ {
        Ok(Weight::Semilight)
    } else if s == "Weight::Book"@ || s == "Weight::book"@ {
        Ok(Weight::Book)
    } else if s == "Weight::Normal"@ || s == "Weight::normal"@ || s == "Weight::Regular"@ || s
        == "Weight::regular"@ {
        Ok(Weight::Normal)
    } else if s == "Weight::Medium"@ || s == "Weight::medium"@ {
        Ok(Weight::Medium)
    } else if s == "Weight::Semibold"@ || s == "Weight::semibold"@ {
        Ok(Weight::Semibold)
    } else if s == "Weight::Bold"@ || s == "Weight::bold"@ {
        Ok(Weight::Bold)
    } else if s == "Weight::Ultrabold"@ || s == "Weight::ultrabold"@ {
        Ok(Weight::Ultrabold)
    } else if s == "Weight::Heavy"@ || s == "Weight::heavy"@ {
        Ok(Weight::Heavy)
    } else if s == "Weight::Ultraheavy"@ || s == "Weight::ultraheavy"@ {
        Ok(Weight::Ultraheavy)
    } else {
        Err(ParseFontError)
    }
}

impl Weight {
    /// The value this weight contributes to a `font-weight` CSS property.
    pub open spec fn css(self) -> Seq<char> {
        match self {
            Weight::Thin => "100"@,
            Weight::Ultralight => "200"@,
            Weight::Light => "300"@,
            Weight::Semilight => "350"@,
            Weight::Book => "400"@,
            Weight::Normal => "400"@,
            Weight::Medium => "500"@,
            Weight::Semibold => "600"@,
            Weight::Bold => "700"@,
            Weight::Ultrabold => "800"@,
            Weight::Heavy => "900"@,
            Weight::Ultraheavy => "950"@,
        }
    }

    /// Returns the numeric `font-weight` CSS value for this weight.
    pub fn css_value(&self) -> (r: &'static str)
        ensures
            r@ == self.css(),
    {
        match self {
            Weight::Thin => "100",
            Weight::Ultralight => "200",
            Weight::Light => "300",
            Weight::Semilight => "350",
            Weight::Book => "400",
            Weight::Normal => "400",
            Weight::Medium => "500",
            Weight::Semibold => "600",
            Weight::Bold => "700",
            Weight::Ultrabold => "800",
            Weight::Heavy => "900",
            Weight::Ultraheavy => "950",
        }
    }

    /// The canonical `Weight::`-prefixed token naming this value, as it is
    /// written into persisted preferences.
    pub open spec fn token(self) -> Seq<char> {
        match self {
            Weight::Thin => "Weight::Thin"@,
            Weight::Ultralight => "Weight::Ultralight"@,
            Weight::Light => "Weight::Light"@,
            Weight::Semilight => "Weight::Semilight"@,
            Weight::Book => "Weight::Book"@,
            Weight::Normal => "Weight::Normal"@,
            Weight::Medium => "Weight::Medium"@,
            Weight::Semibold => "Weight::Semibold"@,
            Weight::Bold => "Weight::Bold"@,
            Weight::Ultrabold => "Weight::Ultrabold"@,
            Weight::Heavy => "Weight::Heavy"@,
            Weight::Ultraheavy => "Weight::Ultraheavy"@,
        }
    }

    /// Returns the canonical token naming this value.
    pub fn name(&self) -> (r: &'static str)
        ensures
            r@ == self.token(),
    {
        match self {
            Weight::Thin => "Weight::Thin",
            Weight::Ultralight => "Weight::Ultralight",
            Weight::Light => "Weight::Light",
            Weight::Semilight => "Weight::Semilight",
            Weight::Book => "Weight::Book",
            Weight::Normal => "Weight::Normal",
            Weight::Medium => "Weight::Medium",
            Weight::Semibold => "Weight::Semibold",
            Weight::Bold => "Weight::Bold",
            Weight::Ultrabold => "Weight::Ultrabold",
            Weight::Heavy => "Weight::Heavy",
            Weight::Ultraheavy => "Weight::Ultraheavy",
        }
    }

    /// Parses a `Weight` from its `Weight::`-prefixed token.
    pub fn parse(s: &str) -> (r: Result<Weight, ParseFontError>)
        ensures
            r == parse_weight(s@),
    {
        if str_eq(s, "Weight::Thin") || str_eq(s, "Weight::thin") {
            Ok(Weight::Thin)
        } else if str_eq(s, "Weight::Ultralight") || str_eq(s, "Weight::ultralight") {
            Ok(Weight::Ultralight)
        } else if str_eq(s, "Weight::Light") || str_eq(s, "Weight::light") {
            Ok(Weight::Light)
        } else if str_eq(s, "Weight::Semilight") || str_eq(s, "Weight::semilight") {
            Ok(Weight::Semilight)
        } else if str_eq(s, "Weight::Book") || str_eq(s, "Weight::book") {
            Ok(Weight::Book)
        } else if str_eq(s, "Weight::Normal") || str_eq(s, "Weight::normal") || str_eq(
            s,
            "Weight::Regular",
        ) || str_eq(s, "Weight::regular") {
            Ok(Weight::Normal)
        } else if str_eq(s, "Weight::Medium") || str_eq(s, "Weight::medium") {
            Ok(Weight::Medium)
        } else if str_eq(s, "Weight::Semibold") || str_eq(s, "Weight::semibold") {
            Ok(Weight::Semibold)
        } else if str_eq(s, "Weight::Bold") || str_eq(s, "Weight::bold") {
            Ok(Weight::Bold)
        } else if str_eq(s, "Weight::Ultrabold") || str_eq(s, "Weight::ultrabold") {
            Ok(Weight::Ultrabold)
        } else if str_eq(s, "Weight::Heavy") || str_eq(s, "Weight::heavy") {
            Ok(Weight::Heavy)
        } else if str_eq(s, "Weight::Ultraheavy") || str_eq(s, "Weight::ultraheavy") {
            Ok(Weight::Ultraheavy)
        } else {
            Err(ParseFontError)
        }
    }
}

/// Law: the token a `Weight` writes into persisted preferences parses back
/// to the same value.
pub proof fn lemma_weight_token_round_trip(w: Weight)
    ensures
        parse_weight(w.token()) == Ok::<Weight, ParseFontError>(w),
{
    reveal_strlit("Weight::Thin");
    reveal_strlit("Weight::thin");
    reveal_strlit("Weight::Ultralight");
    reveal_strlit("Weight::ultralight");
    reveal_strlit("Weight::Light");
    reveal_strlit("Weight::light");
    reveal_strlit("Weight::Semilight");
    reveal_strlit("Weight::semilight");
    reveal_strlit("Weight::Book");
    reveal_strlit("Weight::book");
    reveal_strlit("Weight::Normal");
    reveal_strlit("Weight::normal");
    reveal_strlit("Weight::Regular");
    reveal_strlit("Weight::regular");
    reveal_strlit("Weight::Medium");
    reveal_strlit("Weight::medium");
    reveal_strlit("Weight::Semibold");
    reveal_strlit("Weight::semibold");
    reveal_strlit("Weight::Bold");
    reveal_strlit("Weight::bold");
    reveal_strlit("Weight::Ultrabold");
    reveal_strlit("Weight::ultrabold");
    reveal_strlit("Weight::Heavy");
    reveal_strlit("Weight::heavy");
    reveal_strlit("Weight::Ultraheavy");
    reveal_strlit("Weight::ultraheavy");
    assert("Weight::Thin"@.len() == 12 && "Weight::thin"@.len() == 12);
    assert("Weight::Ultralight"@.len() == 18 && "Weight::ultralight"@.len() == 18);
    assert("Weight::Light"@.len() == 13 && "Weight::light"@.len() == 13);
    assert("Weight::Semilight"@.len() == 17 && "Weight::semilight"@.len() == 17);
    assert("Weight::Book"@.len() == 12 && "Weight::book"@.len() == 12);
    assert("Weight::Normal"@.len() == 14 && "Weight::normal"@.len() == 14);
    assert("Weight::Regular"@.len() == 15 && "Weight::regular"@.len() == 15);
    assert("Weight::Medium"@.len() == 14 && "Weight::medium"@.len() == 14);
    assert("Weight::Semibold"@.len() == 16 && "Weight::semibold"@.len() == 16);
    assert("Weight::Bold"@.len() == 12 && "Weight::bold"@.len() == 12);
    assert("Weight::Ultrabold"@.len() == 17 && "Weight::ultrabold"@.len() == 17);
    assert("Weight::Heavy"@.len() == 13 && "Weight::heavy"@.len() == 13);
    assert("Weight::Ultraheavy"@.len() == 18 && "Weight::ultraheavy"@.len() == 18);
    assert("Weight::Book"@[8] == 'B' && "Weight::Thin"@[8] == 'T' && "Weight::thin"@[8] == 't');
    assert("Weight::Book"@ != "Weight::Thin"@ && "Weight::Book"@ != "Weight::thin"@);
    assert("Weight::Bold"@[8] == 'B' && "Weight::Bold"@[10] == 'l' && "Weight::Book"@[10] == 'o'
        && "Weight::book"@[8] == 'b');
    assert("Weight::Bold"@ != "Weight::Thin"@ && "Weight::Bold"@ != "Weight::thin"@
        && "Weight::Bold"@ != "Weight::Book"@ && "Weight::Bold"@ != "Weight::book"@);
    assert("Weight::Medium"@[8] == 'M' && "Weight::Normal"@[8] == 'N' && "Weight::normal"@[8]
        == 'n');
    assert("Weight::Medium"@ != "Weight::Normal"@ && "Weight::Medium"@ != "Weight::normal"@);
    assert("Weight::Ultrabold"@[8] == 'U' && "Weight::Semilight"@[8] == 'S'
        && "Weight::semilight"@[8] == 's');
    assert("Weight::Ultrabold"@ != "Weight::Semilight"@ && "Weight::Ultrabold"@
        != "Weight::semilight"@);
    assert("Weight::Heavy"@[8] == 'H' && "Weight::Light"@[8] == 'L' && "Weight::light"@[8] == 'l');
    assert("Weight::Heavy"@ != "Weight::Light"@ && "Weight::Heavy"@ != "Weight::light"@);
    assert("Weight::Ultraheavy"@[13] == 'h' && "Weight::Ultralight"@[13] == 'l'
        && "Weight::ultralight"@[8] == 'u' && "Weight::Ultraheavy"@[8] == 'U');
    assert("Weight::Ultraheavy"@ != "Weight::Ultralight"@ && "Weight::Ultraheavy"@
        != "Weight::ultralight"@);
}

impl core::str::FromStr for Weight {
    type Err = ParseFontError;

    fn from_str(s: &str) -> Result<Self, Self::Err> {
        Weight::parse(s)
    }
}

/// The stretch of the font
#[derive(Clone, Copy, Debug, Eq, PartialEq, Structural)]
pub enum Stretch {
    UltraCondensed,
    ExtraCondensed,
    Condensed,
    SemiCondensed,
    Normal,
    SemiExpanded,
    Expanded,
    ExtraExpanded,
    UltraExpanded,
}

impl Default for Stretch {
    /// Returns `Stretch::Normal`
    fn default() -> (r: Self)
        ensures
            r == Stretch::Normal,
    {
        Stretch::Normal
    }
}

/// Which `Stretch` a token names.
pub open spec fn parse_stretch(s: Seq<char>) -> Result<Stretch, ParseFontError> {
    if s == "Stretch::UltraCondensed"@ {
        Ok(Stretch::UltraCondensed)
    } else if s == "Stretch::ExtraCondensed"@ {
        Ok(Stretch::ExtraCondensed)
    } else if s == "Stretch::Condensed"@ {
        Ok(Stretch::Condensed)
    } else if s == "Stretch::SemiCondensed"@ {
        Ok(Stretch::SemiCondensed)
    } else if s == "Stretch::Normal"@ {
        Ok(Stretch::Normal)
    } else if s == "Stretch::SemiExpanded"@ {
        Ok(Stretch::SemiExpanded)
    } else if s == "Stretch::Expanded"@ {
        Ok(Stretch::Expanded)
    } else if s == "Stretch::ExtraExpanded"@ {
        Ok(Stretch::ExtraExpanded)
    } else if s == "Stretch::UltraExpanded"@ {
        Ok(Stretch::UltraExpanded)
    } else {
        Err(ParseFontError)
    }
}

impl Stretch {
    /// The value this stretch contributes to a `font-stretch` CSS property.
    pub open spec fn css(self) -> Seq<char> {
        match self {
            Stretch::UltraCondensed => "ultra-condensed"@,
            Stretch::ExtraCondensed => "extra-condensed"@,
            Stretch::Condensed => "condensed"@,
            Stretch::SemiCondensed => "semi-condensed"@,
            Stretch::Normal => "normal"@,
            Stretch::SemiExpanded => "semi-expanded"@,
            Stretch::Expanded => "expanded"@,
            Stretch::ExtraExpanded => "extra-expanded"@,
            Stretch::UltraExpanded => "ultra-expanded"@,
        }
    }

    /// Returns the `font-stretch` CSS value for this stretch.
    pub fn css_value(&self) -> (r: &'static str)
        ensures
            r@ == self.css(),
    {
        match self {
            Stretch::UltraCondensed => "ultra-condensed",
            Stretch::ExtraCondensed => "extra-condensed",
            Stretch::Condensed => "condensed",
            Stretch::SemiCondensed => "semi-condensed",
            Stretch::Normal => "normal",
            Stretch::SemiExpanded => "semi-expanded",
            Stretch::Expanded => "expanded",
            Stretch::ExtraExpanded => "extra-expanded",
            Stretch::UltraExpanded => "ultra-expanded",
        }
    }

    /// The canonical `Stretch::`-prefixed token naming this value, as it
    /// is written into persisted preferences.
    pub open spec fn token(self) -> Seq<char> {
        match self {
            Stretch::UltraCondensed => "Stretch::UltraCondensed"@,
            Stretch::ExtraCondensed => "Stretch::ExtraCondensed"@,
            Stretch::Condensed => "Stretch::Condensed"@,
            Stretch::SemiCondensed => "Stretch::SemiCondensed"@,
            Stretch::Normal => "Stretch::Normal"@,
            Stretch::SemiExpanded => "Stretch::SemiExpanded"@,
            Stretch::Expanded => "Stretch::Expanded"@,
            Stretch::ExtraExpanded => "Stretch::ExtraExpanded"@,
            Stretch::UltraExpanded => "Stretch::UltraExpanded"@,
        }
    }

    /// Returns the canonical token naming this value.
    pub fn name(&self) -> (r: &'static str)
        ensures
            r@ == self.token(),
    {
        match self {
            Stretch::UltraCondensed => "Stretch::UltraCondensed",
            Stretch::ExtraCondensed => "Stretch::ExtraCondensed",
            Stretch::Condensed => "Stretch::Condensed",
            Stretch::SemiCondensed => "Stretch::SemiCondensed",
            Stretch::Normal => "Stretch::Normal",
            Stretch::SemiExpanded => "Stretch::SemiExpanded",
            Stretch::Expanded => "Stretch::Expanded",
            Stretch::ExtraExpanded => "Stretch::ExtraExpanded",
            Stretch::UltraExpanded => "Stretch::UltraExpanded",
        }
    }

    /// Parses a `Stretch` from its `Stretch::`-prefixed token.
    pub fn parse(s: &str) -> (r: Result<Stretch, ParseFontError>)
        ensures
            r == parse_stretch(s@),
    {
        if str_eq(s, "Stretch::UltraCondensed") {
            Ok(Stretch::UltraCondensed)
        } else if str_eq(s, "Stretch::ExtraCondensed") {
            Ok(Stretch::ExtraCondensed)
        } else if str_eq(s, "Stretch::Condensed") {
            Ok(Stretch::Condensed)
        } else if str_eq(s, "Stretch::SemiCondensed") {
            Ok(Stretch::SemiCondensed)
        } else if str_eq(s, "Stretch::Normal") {
            Ok(Stretch::Normal)
        } else if str_eq(s, "Stretch::SemiExpanded") {
            Ok(Stretch::SemiExpanded)
        } else if str_eq(s, "Stretch::Expanded") {
            Ok(Stretch::Expanded)
        } else if str_eq(s, "Stretch::ExtraExpanded") {
            Ok(Stretch::ExtraExpanded)
        } else if str_eq(s, "Stretch::UltraExpanded") {
            Ok(Stretch::UltraExpanded)
        } else {
            Err(ParseFontError)
        }
    }
}

/// Law: the token a `Stretch` writes into persisted preferences parses
/// back to the same value.
pub proof fn lemma_stretch_token_round_trip(s: Stretch)
    ensures
        parse_stretch(s.token()) == Ok::<Stretch, ParseFontError>(s),
{
    reveal_strlit("Stretch::UltraCondensed");
    reveal_strlit("Stretch::ExtraCondensed");
    reveal_strlit("Stretch::Condensed");
    reveal_strlit("Stretch::SemiCondensed");
    reveal_strlit("Stretch::Normal");
    reveal_strlit("Stretch::SemiExpanded");
    reveal_strlit("Stretch::Expanded");
    reveal_strlit("Stretch::ExtraExpanded");
    reveal_strlit("Stretch::UltraExpanded");
    assert("Stretch::UltraCondensed"@.len() == 23);
    assert("Stretch::ExtraCondensed"@.len() == 23);
    assert("Stretch::Condensed"@.len() == 18);
    assert("Stretch::SemiCondensed"@.len() == 22);
    assert("Stretch::Normal"@.len() == 15);
    assert("Stretch::SemiExpanded"@.len() == 21);
    assert("Stretch::Expanded"@.len() == 17);
    assert("Stretch::ExtraExpanded"@.len() == 22);
    assert("Stretch::UltraExpanded"@.len() == 22);
    assert("Stretch::ExtraCondensed"@[9] == 'E' && "Stretch::UltraCondensed"@[9] == 'U');
    assert("Stretch::ExtraCondensed"@ != "Stretch::UltraCondensed"@);
    assert("Stretch::ExtraExpanded"@[9] == 'E' && "Stretch::SemiCondensed"@[9] == 'S');
    assert("Stretch::ExtraExpanded"@ != "Stretch::SemiCondensed"@);
    assert("Stretch::UltraExpanded"@[9] == 'U');
    assert("Stretch::UltraExpanded"@ != "Stretch::SemiCondensed"@);
    assert("Stretch::UltraExpanded"@ != "Stretch::ExtraExpanded"@);
}

impl core::str::FromStr for Stretch {
    type Err = ParseFontError;

    fn from_str(s: &str) -> Result<Self, Self::Err> {
        Stretch::parse(s)
    }
}

/// The font used to print the description in the output file
#[derive(Clone, Debug)]
pub struct Font {
    family: String,
    style: Style,
    weight: Weight,
    stretch: Stretch,
    size: i32,
}

impl Font {
    /// The family name of the font, as a character sequence.
    pub closed spec fn spec_family(self) -> Seq<char> {
        self.family@
    }

    /// The style of the font.
    pub closed spec fn spec_style(self) -> Style {
        self.style
    }

    /// The weight of the font.
    pub closed spec fn spec_weight(self) -> Weight {
        self.weight
    }

    /// The stretch of the font.
    pub closed spec fn spec_stretch(self) -> Stretch {
        self.stretch
    }

    /// The size of the font, in Pango units of 1/1024 point.
    pub closed spec fn spec_size(self) -> i32 {
        self.size
    }

    /// Returns a builder initialized with the default font.
    pub fn builder() -> (r: FontBuilder)
        ensures
            r.is_default(),
    {
        FontBuilder::new()
    }

    /// Get the *family* of the font
    pub fn family(&self) -> (r: String)
        ensures
            r@ == self.spec_family(),
    {
        self.family.clone()
    }

    /// Set the *family* of the font
    pub fn set_family(&mut self, family: String)
        ensures
            final(self).spec_family() == family@,
            final(self).spec_style() == old(self).spec_style(),
            final(self).spec_weight() == old(self).spec_weight(),
            final(self).spec_stretch() == old(self).spec_stretch(),
            final(self).spec_size() == old(self).spec_size(),
    {
        self.family = family;
    }

    /// Get the *style* of the font
    pub fn style(&self) -> (r: Style)
        ensures
            r == self.spec_style(),
    {
        self.style
    }

    /// Set the *style* of the font
    pub fn set_style(&mut self, style: Style)
        ensures
            final(self).spec_style() == style,
            final(self).spec_family() == old(self).spec_family(),
            final(self).spec_weight() == old(self).spec_weight(),
            final(self).spec_stretch() == old(self).spec_stretch(),
            final(self).spec_size() == old(self).spec_size(),
    {
        self.style = style;
    }

    /// Get the *weight* of the font
    pub fn weight(&self) -> (r: Weight)
        ensures
            r == self.spec_weight(),
    {
        self.weight
    }

    /// Set the *weight* of the font
    pub fn set_weight(&mut self, weight: Weight)
        ensures
            final(self).spec_weight() == weight,
            final(self).spec_family() == old(self).spec_family(),
            final(self).spec_style() == old(self).spec_style(),
            final(self).spec_stretch() == old(self).spec_stretch(),
            final(self).spec_size() == old(self).spec_size(),
    {
        self.weight = weight;
    }

    /// Get the *stretch* of the font
    pub fn stretch(&self) -> (r: Stretch)
        ensures
            r == self.spec_stretch(),
    {
        self.stretch
    }

    /// Set the *stretch* of the font
    pub fn set_stretch(&mut self, stretch: Stretch)
        ensures
            final(self).spec_stretch() == stretch,
            final(self).spec_family() == old(self).spec_family(),
            final(self).spec_style() == old(self).spec_style(),
            final(self).spec_weight() == old(self).spec_weight(),
            final(self).spec_size() == old(self).spec_size(),
    {
        self.stretch = stretch;
    }

    /// Get the *size* of the font
    pub fn size(&self) -> (r: i32)
        ensures
            r == self.spec_size(),
    {
        self.size
    }

    /// Set the *size* of the font
    pub fn set_size(&mut self, size: i32)
        ensures
            final(self).spec_size() == size,
            final(self).spec_family() == old(self).spec_family(),
            final(self).spec_style() == old(self).spec_style(),
            final(self).spec_weight() == old(self).spec_weight(),
            final(self).spec_stretch() == old(self).spec_stretch(),
    {
        self.size = size;
    }
}

impl Default for Font {
    /// Returns "Sans Normal" at the default size
    fn default() -> (r: Self)
        ensures
            r.spec_family() == "Sans"@,
            r.spec_style() == Style::Normal,
            r.spec_weight() == Weight::Normal,
            r.spec_stretch() == Stretch::Normal,
            r.spec_size() == 12288int,
    {
        Font {
            family: String::from_str("Sans"),
            style: Style::Normal,
            weight: Weight::Normal,
            stretch: Stretch::Normal,
            size: 12288,
        }
    }
}

/// A builder for a [Font]
pub struct FontBuilder {
    family: String,
    style: Style,
    weight: Weight,
    stretch: Stretch,
    size: i32,
}

impl FontBuilder {
    /// The family name the builder holds, as a character sequence.
    pub closed spec fn spec_family(self) -> Seq<char> {
        self.family@
    }

    /// The style the builder holds.
    pub closed spec fn spec_style(self) -> Style {
        self.style
    }

    /// The weight the builder holds.
    pub closed spec fn spec_weight(self) -> Weight {
        self.weight
    }

    /// The stretch the builder holds.
    pub closed spec fn spec_stretch(self) -> Stretch {
        self.stretch
    }

    /// The size the builder holds, in Pango units of 1/1024 point.
    pub closed spec fn spec_size(self) -> i32 {
        self.size
    }

    /// Whether the builder holds the default font: the `Sans` family with
    /// every property at its default and the default size.
    pub open spec fn is_default(self) -> bool {
        &&& self.spec_family() == "Sans"@
        &&& self.spec_style() == Style::Normal
        &&& self.spec_weight() == Weight::Normal
        &&& self.spec_stretch() == Stretch::Normal
        &&& self.spec_size() == 12288i32
    }

    /// Returns a builder initialized with the default font.
    pub fn new() -> (r: Self)
        ensures
            r.is_default(),
    {
        FontBuilder {
            family: String::from_str("Sans"),
            style: Style::Normal,
            weight: Weight::Normal,
            stretch: Stretch::Normal,
            size: 12288,
        }
    }

    /// Replaces the family the builder holds.
    pub fn family(self, family: &str) -> (r: Self)
        ensures
            r.spec_family() == family@,
            r.spec_style() == self.spec_style(),
            r.spec_weight() == self.spec_weight(),
            r.spec_stretch() == self.spec_stretch(),
            r.spec_size() == self.spec_size(),
    {
        FontBuilder {
            family: String::from_str(family),
            style: self.style,
            weight: self.weight,
            stretch: self.stretch,
            size: self.size,
        }
    }

    /// Replaces the style the builder holds.
    pub fn style(self, style: Style) -> (r: Self)
        ensures
            r.spec_style() == style,
            r.spec_family() == self.spec_family(),
            r.spec_weight() == self.spec_weight(),
            r.spec_stretch() == self.spec_stretch(),
            r.spec_size() == self.spec_size(),
    {
        FontBuilder {
            family: self.family,
            style,
            weight: self.weight,
            stretch: self.stretch,
            size: self.size,
        }
    }

    /// Replaces the weight the builder holds.
    pub fn weight(self, weight: Weight) -> (r: Self)
        ensures
            r.spec_weight() == weight,
            r.spec_family() == self.spec_family(),
            r.spec_style() == self.spec_style(),
            r.spec_stretch() == self.spec_stretch(),
            r.spec_size() == self.spec_size(),
    {
        FontBuilder {
            family: self.family,
            style: self.style,
            weight,
            stretch: self.stretch,
            size: self.size,
        }
    }

    /// Replaces the stretch the builder holds.
    pub fn stretch(self, stretch: Stretch) -> (r: Self)
        ensures
            r.spec_stretch() == stretch,
            r.spec_family() == self.spec_family(),
            r.spec_style() == self.spec_style(),
            r.spec_weight() == self.spec_weight(),
            r.spec_size() == self.spec_size(),
    {
        FontBuilder {
            family: self.family,
            style: self.style,
            weight: self.weight,
            stretch,
            size: self.size,
        }
    }

    /// Replaces the size the builder holds.
    pub fn size(self, size: i32) -> (r: Self)
        ensures
            r.spec_size() == size,
            r.spec_family() == self.spec_family(),
            r.spec_style() == self.spec_style(),
            r.spec_weight() == self.spec_weight(),
            r.spec_stretch() == self.spec_stretch(),
    {
        FontBuilder {
            family: self.family,
            style: self.style,
            weight: self.weight,
            stretch: self.stretch,
            size,
        }
    }

    /// Builds the [Font] the builder holds.
    pub fn build(self) -> (r: Font)
        ensures
            r.spec_family() == self.spec_family(),
            r.spec_style() == self.spec_style(),
            r.spec_weight() == self.spec_weight(),
            r.spec_stretch() == self.spec_stretch(),
            r.spec_size() == self.spec_size(),
    {
        Font {
            family: self.family,
            style: self.style,
            weight: self.weight,
            stretch: self.stretch,
            size: self.size,
        }
    }
}

impl Default for FontBuilder {
    /// Returns a builder initialized with the default font.
    fn default() -> (r: Self)
        ensures
            r.is_default(),
    {
        FontBuilder::new()
    }
}

} // verus!
