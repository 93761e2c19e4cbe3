use colorwatch::palette::{field_name, is_valid_hex_color, validate_hex_colors, Colors, FIELD_COUNT};

fn uniform(value: &str) -> Colors {
    let values: Vec<String> = (0..FIELD_COUNT).map(|_| value.to_string()).collect();
    Colors::from_values(values)
}

#[test]
fn hex_colors_of_each_length_are_valid() {
    assert!(is_valid_hex_color("#abc"));
    assert!(is_valid_hex_color("#abcd"));
    assert!(is_valid_hex_color("#a1b2c3"));
    assert!(is_valid_hex_color("#A1b2C3d4"));
    assert!(is_valid_hex_color("#000000"));
    assert!(is_valid_hex_color("#FFFFFF"));
}

#[test]
fn malformed_hex_colors_are_invalid() {
    assert!(!is_valid_hex_color("red"));
    assert!(!is_valid_hex_color("#12"));
    assert!(!is_valid_hex_color("#12345"));
    assert!(!is_valid_hex_color("#1234567"));
    assert!(!is_valid_hex_color("#123456789"));
    assert!(!is_valid_hex_color("#zz"));
    assert!(!is_valid_hex_color("#ggg"));
    assert!(!is_valid_hex_color("abcdef"));
    assert!(!is_valid_hex_color(""));
    assert!(!is_valid_hex_color("#"));
    assert!(!is_valid_hex_color("#abc\n"));
    assert!(!is_valid_hex_color(" #abc"));
    assert!(!is_valid_hex_color("##abc"));
}

#[test]
fn field_names_follow_base16_order() {
    let names: Vec<&str> = (0..FIELD_COUNT).map(field_name).collect();
    assert_eq!(
        names,
        vec![
            "base00", "base01", "base02", "base03", "base04", "base05", "base06", "base07", "base08",
            "base09", "base0A", "base0B", "base0C", "base0D", "base0E", "base0F"
        ]
    );
}

#[test]
fn from_values_fills_slots_in_order() {
    let values: Vec<String> = (0..FIELD_COUNT).map(|i| format!("#{:06x}", i)).collect();
    let c = Colors::from_values(values.clone());
    assert_eq!(c.base00, "#000000");
    assert_eq!(c.base0A, "#00000a");
    assert_eq!(c.base0F, "#00000f");
    for i in 0..FIELD_COUNT {
        assert_eq!(c.field(i), &values[i]);
    }
}

#[test]
fn validation_accepts_valid_palette() {
    assert!(validate_hex_colors(&uniform("#1d2021")).is_ok());
}

#[test]
fn validation_names_the_bad_field_and_value() {
    let mut c = uniform("#1d2021");
    c.base07 = "red".to_string();
    let e = validate_hex_colors(&c).unwrap_err();
    assert_eq!(e.field, "base07");
    assert_eq!(e.value, "red");
}

#[test]
fn validation_stops_at_the_first_bad_field() {
    let mut c = uniform("#fff");
    c.base0C = "#1234567".to_string();
    c.base03 = "#12".to_string();
    let e = validate_hex_colors(&c).unwrap_err();
    assert_eq!(e.field, "base03");
    assert_eq!(e.value, "#12");
}
