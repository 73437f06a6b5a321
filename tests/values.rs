use huectl::value::{
    bridge_level, decimal_string, Adjust, Alert, Brightness, ColorCoordinates, ColorHex, ColorRgb,
    ColorTemperature, Effect, Hue, ParseError, Saturation,
};

#[test]
fn percentage_absolute() {
    assert_eq!(Brightness::parse("50").unwrap(), Brightness(50, Adjust::Override));
    assert_eq!(Saturation::parse("50").unwrap(), Saturation(50, Adjust::Override));
}

#[test]
fn percentage_increment() {
    assert_eq!(Brightness::parse("+10").unwrap(), Brightness(10, Adjust::Increment));
}

#[test]
fn percentage_decrement() {
    assert_eq!(Brightness::parse("-10").unwrap(), Brightness(10, Adjust::Decrement));
}

#[test]
fn percentage_out_of_range() {
    let e = Brightness::parse("101").unwrap_err();
    assert_eq!(
        e.description(),
        "The value must be an integer between 0 and 100 and can have '-' or '+' as prefix."
    );
    assert!(Saturation::parse("+101").is_err());
    assert!(Brightness::parse("1000000000000000000000000").is_err());
}

#[test]
fn percentage_not_a_number() {
    assert!(Brightness::parse("abc").is_err());
    assert!(Brightness::parse("").is_err());
    assert!(Brightness::parse("+").is_err());
    assert!(Brightness::parse("-").is_err());
    assert!(Brightness::parse("5a").is_err());
    assert!(Brightness::parse("+-5").is_err());
}

#[test]
fn percentage_bounds() {
    assert_eq!(Brightness::parse("0").unwrap(), Brightness(0, Adjust::Override));
    assert_eq!(Brightness::parse("100").unwrap(), Brightness(100, Adjust::Override));
    assert_eq!(Brightness::parse("007").unwrap(), Brightness(7, Adjust::Override));
}

#[test]
fn hue_range() {
    assert_eq!(Hue::parse("65535").unwrap(), Hue(65535, Adjust::Override));
    assert_eq!(Hue::parse("-300").unwrap(), Hue(300, Adjust::Decrement));
    let e = Hue::parse("65536").unwrap_err();
    assert_eq!(
        e.description(),
        "The value must be an integer between 0 and 65535 and can have '-' or '+' as prefix."
    );
}

#[test]
fn color_temperature_range() {
    assert_eq!(ColorTemperature::parse("+20").unwrap(), ColorTemperature(20, Adjust::Increment));
    assert_eq!(ColorTemperature::parse("500").unwrap(), ColorTemperature(500, Adjust::Override));
    assert!(ColorTemperature::parse("501").is_err());
}

#[test]
fn hex_color_case_insensitive() {
    let lower = ColorHex::parse("ff00aa").unwrap();
    let upper = ColorHex::parse("FF00AA").unwrap();
    assert_eq!(lower, upper);
    assert_eq!(lower, ColorHex { red: 255, green: 0, blue: 170 });
    assert_eq!(ColorHex::parse("1a2B3c").unwrap(), ColorHex { red: 0x1a, green: 0x2b, blue: 0x3c });
}

#[test]
fn hex_color_wrong_length() {
    assert!(ColorHex::parse("ff00a").is_err());
    assert!(ColorHex::parse("ff00aa0").is_err());
    assert!(ColorHex::parse("").is_err());
}

#[test]
fn hex_color_not_hex() {
    let e = ColorHex::parse("ff00ag").unwrap_err();
    assert_eq!(e.description(), "The value must be a hex color of 6 digits, for example 'ff00aa'.");
    assert!(ColorHex::parse("#ff00a").is_err());
}

#[test]
fn alert_names() {
    assert_eq!(Alert::parse("select").unwrap(), Alert::Select);
    assert_eq!(Alert::parse("LSelect").unwrap(), Alert::LSelect);
    assert_eq!(Alert::parse("NONE").unwrap(), Alert::Off);
    let e = Alert::parse("blink").unwrap_err();
    assert_eq!(e.description(), "The value must be one of 'select', 'lselect' or 'none'.");
    assert_eq!(Alert::variants(), vec!["select", "lselect", "none"]);
}

#[test]
fn effect_names() {
    assert_eq!(Effect::parse("ColorLoop").unwrap(), Effect::Colorloop);
    assert_eq!(Effect::parse("none").unwrap(), Effect::Off);
    let e = Effect::parse("colorloops").unwrap_err();
    assert_eq!(e.description(), "The value must be one of 'colorloop' or 'none'.");
    assert_eq!(Effect::variants(), vec!["colorloop", "none"]);
}

#[test]
fn coordinates_arity() {
    let one = vec!["0.3".to_string()];
    let three = vec!["0.3".to_string(), "0.4".to_string(), "0.5".to_string()];
    let two = vec!["0.3".to_string(), "0.4".to_string()];
    assert_eq!(
        ColorCoordinates::from_values(&one).unwrap_err().description(),
        "Exactly two color space coordinates must be given."
    );
    assert!(ColorCoordinates::from_values(&three).is_err());
    let c = ColorCoordinates::from_values(&two).unwrap();
    assert_eq!(c.x, "0.3");
    assert_eq!(c.y, "0.4");
}

#[test]
fn rgb_arity() {
    assert_eq!(
        ColorRgb::from_values(&vec![1, 2, 3]).unwrap(),
        ColorRgb { red: 1, green: 2, blue: 3 }
    );
    assert_eq!(
        ColorRgb::from_values(&vec![1, 2]).unwrap_err().description(),
        "Exactly three values (red, green and blue) must be given."
    );
    assert!(ColorRgb::from_values(&vec![1, 2, 3, 4]).is_err());
}

#[test]
fn parse_error_texts() {
    assert_eq!(ParseError::new("bad value").description(), "bad value");
    assert_eq!(
        ParseError::from_integer_value(254).description(),
        "The value must be an integer between 0 and 254 and can have '-' or '+' as prefix."
    );
}

#[test]
fn decimal_digits() {
    assert_eq!(decimal_string(0), "0");
    assert_eq!(decimal_string(9), "9");
    assert_eq!(decimal_string(10), "10");
    assert_eq!(decimal_string(65535), "65535");
    assert_eq!(decimal_string(u64::MAX), "18446744073709551615");
}

#[test]
fn percent_to_bridge_level() {
    assert_eq!(bridge_level(0), 0);
    assert_eq!(bridge_level(50), 127);
    assert_eq!(bridge_level(100), 254);
}
