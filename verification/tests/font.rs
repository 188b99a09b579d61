use fretboard_layout::config::font::{Font, FontBuilder, ParseFontError, Stretch, Style, Weight};
use std::str::FromStr;

#[test]
fn mod_font_weight_from_str() {
    assert_eq!(Err(ParseFontError), Weight::from_str("foo"));
    assert_eq!(Ok(Weight::Bold), Weight::from_str("Weight::bold"));
}

#[test]
fn style_from_str() {
    assert_eq!(Ok(Style::Normal), Style::from_str("Style::Normal"));
    assert_eq!(Ok(Style::Normal), Style::from_str("Style::normal"));
    assert_eq!(Ok(Style::Oblique), Style::from_str("Style::oblique"));
    assert_eq!(Ok(Style::Italic), Style::from_str("Style::Italic"));
    assert_eq!(Err(ParseFontError), Style::from_str("Normal"));
    assert_eq!(Err(ParseFontError), Style::from_str(""));
}

#[test]
fn weight_from_str_all_variants() {
    assert_eq!(Ok(Weight::Thin), Weight::from_str("Weight::Thin"));
    assert_eq!(Ok(Weight::Ultralight), Weight::from_str("Weight::ultralight"));
    assert_eq!(Ok(Weight::Light), Weight::from_str("Weight::light"));
    assert_eq!(Ok(Weight::Semilight), Weight::from_str("Weight::Semilight"));
    assert_eq!(Ok(Weight::Book), Weight::from_str("Weight::book"));
    assert_eq!(Ok(Weight::Normal), Weight::from_str("Weight::Normal"));
    assert_eq!(Ok(Weight::Normal), Weight::from_str("Weight::Regular"));
    assert_eq!(Ok(Weight::Normal), Weight::from_str("Weight::regular"));
    assert_eq!(Ok(Weight::Medium), Weight::from_str("Weight::medium"));
    assert_eq!(Ok(Weight::Semibold), Weight::from_str("Weight::Semibold"));
    assert_eq!(Ok(Weight::Ultrabold), Weight::from_str("Weight::ultrabold"));
    assert_eq!(Ok(Weight::Heavy), Weight::from_str("Weight::heavy"));
    assert_eq!(Ok(Weight::Ultraheavy), Weight::from_str("Weight::Ultraheavy"));
    assert_eq!(Err(ParseFontError), Weight::from_str("Weight::"));
}

#[test]
fn stretch_from_str() {
    assert_eq!(Ok(Stretch::UltraCondensed), Stretch::from_str("Stretch::UltraCondensed"));
    assert_eq!(Ok(Stretch::Normal), Stretch::from_str("Stretch::Normal"));
    assert_eq!(Ok(Stretch::UltraExpanded), Stretch::from_str("Stretch::UltraExpanded"));
    assert_eq!(Err(ParseFontError), Stretch::from_str("Stretch::normal"));
}

#[test]
fn style_css_values() {
    assert_eq!(Style::Normal.css_value(), "Normal");
    assert_eq!(Style::Oblique.css_value(), "Oblique");
    assert_eq!(Style::Italic.css_value(), "Italic");
}

#[test]
fn weight_css_values() {
    assert_eq!(Weight::Thin.css_value(), "100");
    assert_eq!(Weight::Ultralight.css_value(), "200");
    assert_eq!(Weight::Light.css_value(), "300");
    assert_eq!(Weight::Semilight.css_value(), "350");
    assert_eq!(Weight::Book.css_value(), "400");
    assert_eq!(Weight::Normal.css_value(), "400");
    assert_eq!(Weight::Medium.css_value(), "500");
    assert_eq!(Weight::Semibold.css_value(), "600");
    assert_eq!(Weight::Bold.css_value(), "700");
    assert_eq!(Weight::Ultrabold.css_value(), "800");
    assert_eq!(Weight::Heavy.css_value(), "900");
    assert_eq!(Weight::Ultraheavy.css_value(), "950");
}

#[test]
fn stretch_css_values() {
    assert_eq!(Stretch::UltraCondensed.css_value(), "ultra-condensed");
    assert_eq!(Stretch::ExtraCondensed.css_value(), "extra-condensed");
    assert_eq!(Stretch::Condensed.css_value(), "condensed");
    assert_eq!(Stretch::SemiCondensed.css_value(), "semi-condensed");
    assert_eq!(Stretch::Normal.css_value(), "normal");
    assert_eq!(Stretch::SemiExpanded.css_value(), "semi-expanded");
    assert_eq!(Stretch::Expanded.css_value(), "expanded");
    assert_eq!(Stretch::ExtraExpanded.css_value(), "extra-expanded");
    assert_eq!(Stretch::UltraExpanded.css_value(), "ultra-expanded");
}

#[test]
fn font_default_values() {
    let font = Font::default();
    assert_eq!(font.family(), "Sans");
    assert_eq!(font.style(), Style::Normal);
    assert_eq!(font.weight(), Weight::Normal);
    assert_eq!(font.stretch(), Stretch::Normal);
    assert_eq!(font.size(), 12288);
}

#[test]
fn font_setters() {
    let mut font = Font::default();
    font.set_family(String::from("Mono"));
    font.set_style(Style::Italic);
    font.set_weight(Weight::Bold);
    font.set_stretch(Stretch::Condensed);
    font.set_size(10240);
    assert_eq!(font.family(), "Mono");
    assert_eq!(font.style(), Style::Italic);
    assert_eq!(font.weight(), Weight::Bold);
    assert_eq!(font.stretch(), Stretch::Condensed);
    assert_eq!(font.size(), 10240);
}

#[test]
fn font_builder_chain() {
    let font = Font::builder()
        .family("Serif")
        .style(Style::Oblique)
        .weight(Weight::Heavy)
        .stretch(Stretch::Expanded)
        .size(8192)
        .build();
    assert_eq!(font.family(), "Serif");
    assert_eq!(font.style(), Style::Oblique);
    assert_eq!(font.weight(), Weight::Heavy);
    assert_eq!(font.stretch(), Stretch::Expanded);
    assert_eq!(font.size(), 8192);
}

#[test]
fn font_builder_default_build() {
    let font = FontBuilder::default().build();
    assert_eq!(font.family(), "Sans");
    assert_eq!(font.style(), Style::Normal);
    assert_eq!(font.weight(), Weight::Normal);
    assert_eq!(font.stretch(), Stretch::Normal);
    assert_eq!(font.size(), 12288);
}

#[test]
fn font_property_defaults() {
    assert_eq!(Style::default(), Style::Normal);
    assert_eq!(Weight::default(), Weight::Normal);
    assert_eq!(Stretch::default(), Stretch::Normal);
}

#[test]
fn font_property_token_round_trips() {
    for style in [Style::Normal, Style::Oblique, Style::Italic] {
        assert_eq!(Ok(style), Style::from_str(style.name()));
    }
    for weight in [
        Weight::Thin,
        Weight::Ultralight,
        Weight::Light,
        Weight::Semilight,
        Weight::Book,
        Weight::Normal,
        Weight::Medium,
        Weight::Semibold,
        Weight::Bold,
        Weight::Ultrabold,
        Weight::Heavy,
        Weight::Ultraheavy,
    ] {
        assert_eq!(Ok(weight), Weight::from_str(weight.name()));
    }
    for stretch in [
        Stretch::UltraCondensed,
        Stretch::ExtraCondensed,
        Stretch::Condensed,
        Stretch::SemiCondensed,
        Stretch::Normal,
        Stretch::SemiExpanded,
        Stretch::Expanded,
        Stretch::ExtraExpanded,
        Stretch::UltraExpanded,
    ] {
        assert_eq!(Ok(stretch), Stretch::from_str(stretch.name()));
    }
}
