use fretboard_layout::color::ReducedRGBA;

#[test]
fn color_black() {
    let c = ReducedRGBA::black();
    assert_eq!(c.red, 0);
    assert_eq!(c.green, 0);
    assert_eq!(c.blue, 0);
    assert_eq!(c.alpha, 255);
}

#[test]
fn color_white() {
    let c = ReducedRGBA::white();
    assert_eq!(c.red, 255);
    assert_eq!(c.green, 255);
    assert_eq!(c.blue, 255);
    assert_eq!(c.alpha, 255);
}

#[test]
fn color_red() {
    let c = ReducedRGBA::red();
    assert_eq!(c.red, 255);
    assert_eq!(c.green, 0);
    assert_eq!(c.blue, 0);
    assert_eq!(c.alpha, 255);
}

#[test]
fn color_green() {
    let c = ReducedRGBA::green();
    assert_eq!(c.red, 0);
    assert_eq!(c.green, 255);
    assert_eq!(c.blue, 0);
    assert_eq!(c.alpha, 255);
}

#[test]
fn color_blue() {
    let c = ReducedRGBA::blue();
    assert_eq!(c.red, 0);
    assert_eq!(c.green, 0);
    assert_eq!(c.blue, 255);
    assert_eq!(c.alpha, 255);
}

#[test]
fn color_yellow() {
    let c = ReducedRGBA::yellow();
    assert_eq!(c.red, 255);
    assert_eq!(c.green, 255);
    assert_eq!(c.blue, 0);
    assert_eq!(c.alpha, 255);
}

#[test]
fn color_cyan() {
    let c = ReducedRGBA::cyan();
    assert_eq!(c.red, 0);
    assert_eq!(c.green, 255);
    assert_eq!(c.blue, 255);
    assert_eq!(c.alpha, 255);
}

#[test]
fn color_magenta() {
    let c = ReducedRGBA::magenta();
    assert_eq!(c.red, 255);
    assert_eq!(c.green, 0);
    assert_eq!(c.blue, 255);
    assert_eq!(c.alpha, 255);
}

#[test]
fn color_setters() {
    let mut c = ReducedRGBA::black();
    c.set_red(1);
    c.set_green(2);
    c.set_blue(3);
    c.set_alpha(4);
    assert_eq!(c.red, 1);
    assert_eq!(c.green, 2);
    assert_eq!(c.blue, 3);
    assert_eq!(c.alpha, 4);
}

#[test]
fn color_set_green_only() {
    let mut c = ReducedRGBA {
        red: 127,
        green: 127,
        blue: 127,
        alpha: 255,
    };
    c.set_green(120);
    assert_eq!(c.green, 120);
    assert_eq!(c.red, 127);
    assert_eq!(c.blue, 127);
    assert_eq!(c.alpha, 255);
}

#[test]
fn color_to_string_yellow() {
    let yellow = ReducedRGBA::yellow();
    assert_eq!(yellow.to_string(), "RGBA(255, 255, 0, 255)");
}

#[test]
fn color_to_string_digit_widths() {
    let c = ReducedRGBA {
        red: 0,
        green: 9,
        blue: 10,
        alpha: 99,
    };
    assert_eq!(c.to_string(), "RGBA(0, 9, 10, 99)");
    let c = ReducedRGBA {
        red: 100,
        green: 101,
        blue: 199,
        alpha: 255,
    };
    assert_eq!(c.to_string(), "RGBA(100, 101, 199, 255)");
}

#[test]
fn color_hex_strings() {
    assert_eq!(ReducedRGBA::black().hex_string(), "#000000");
    assert_eq!(ReducedRGBA::white().hex_string(), "#ffffff");
    assert_eq!(ReducedRGBA::red().hex_string(), "#ff0000");
    assert_eq!(ReducedRGBA::green().hex_string(), "#00ff00");
    assert_eq!(ReducedRGBA::blue().hex_string(), "#0000ff");
}

#[test]
fn color_hex_string_mixed_digits() {
    let c = ReducedRGBA {
        red: 0x1a,
        green: 0x0f,
        blue: 0xc8,
        alpha: 255,
    };
    assert_eq!(c.hex_string(), "#1a0fc8");
}
