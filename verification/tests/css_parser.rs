use css_parser::{
    assign_corners, compose_border_radius, read_border_radius_values, border_radius_components, find_named_color, parse_css_background_color,
    split_single_css_value, split_whitespace, str_eq, try_split_single_css_value, BorderCorners,
    ColorU, CssBorderRadiusParseError, CssColorParseError, CssMetric, PixelValueText,
};

#[test]
fn test_parse_background_color() {
    assert_eq!(parse_css_background_color("#F0F8FF"), Ok(ColorU { r: 240, g: 248, b: 255, a: 255 }));
    assert_eq!(parse_css_background_color("#F0F8FF00"), Ok(ColorU { r: 240, g: 248, b: 255, a: 0 }));
    assert_eq!(parse_css_background_color("#EEE"), Ok(ColorU { r: 238, g: 238, b: 238, a: 255 }));
}

#[test]
fn short_hex_color_with_alpha_doubles_each_digit() {
    assert_eq!(parse_css_background_color("#1a2B"), Ok(ColorU { r: 0x11, g: 0xaa, b: 0x22, a: 0xbb }));
    assert_eq!(parse_css_background_color("#1a2B"), parse_css_background_color("#11aa22BB"));
}

#[test]
fn short_hex_color_equals_doubled_long_color() {
    assert_eq!(parse_css_background_color("#abc"), parse_css_background_color("#aabbcc"));
    assert_eq!(parse_css_background_color("#abc"), Ok(ColorU { r: 0xaa, g: 0xbb, b: 0xcc, a: 255 }));
}

#[test]
fn long_hex_color_channels_are_digit_pairs() {
    assert_eq!(parse_css_background_color("#00FFFF"), Ok(ColorU { r: 0, g: 255, b: 255, a: 255 }));
    assert_eq!(parse_css_background_color("#12345678"), Ok(ColorU { r: 0x12, g: 0x34, b: 0x56, a: 0x78 }));
    assert_eq!(parse_css_background_color("#abcdef"), Ok(ColorU { r: 0xab, g: 0xcd, b: 0xef, a: 255 }));
}

#[test]
fn long_hex_color_may_start_with_plus() {
    // Six bytes read as one hexadecimal number: a leading `+` is accepted.
    assert_eq!(parse_css_background_color("#+ABCDE"), Ok(ColorU { r: 0x0A, g: 0xBC, b: 0xDE, a: 255 }));
}

#[test]
fn short_hex_color_reports_first_bad_digit() {
    assert_eq!(parse_css_background_color("#GGG"), Err(CssColorParseError::InvalidColorComponent(b'G')));
    assert_eq!(parse_css_background_color("#1X2Y"), Err(CssColorParseError::InvalidColorComponent(b'X')));
    assert_eq!(parse_css_background_color("#123Z"), Err(CssColorParseError::InvalidColorComponent(b'Z')));
}

#[test]
fn long_hex_color_with_bad_digit_is_a_number_error() {
    assert!(matches!(parse_css_background_color("#12345G"), Err(CssColorParseError::ValueParseErr(_))));
    assert!(matches!(parse_css_background_color("#1234567-"), Err(CssColorParseError::ValueParseErr(_))));
}

#[test]
fn hex_color_of_bad_length_is_invalid() {
    assert_eq!(parse_css_background_color("#12"), Err(CssColorParseError::InvalidColor("12")));
    assert_eq!(parse_css_background_color("#12345"), Err(CssColorParseError::InvalidColor("12345")));
    assert_eq!(parse_css_background_color("#"), Err(CssColorParseError::InvalidColor("")));
}

#[test]
fn named_colors_in_both_spellings() {
    let aliceblue = Ok(ColorU { r: 240, g: 248, b: 255, a: 255 });
    assert_eq!(parse_css_background_color("AliceBlue"), aliceblue);
    assert_eq!(parse_css_background_color("alice-blue"), aliceblue);
    assert_eq!(parse_css_background_color("yellow-green"), Ok(ColorU { r: 0x9A, g: 0xCD, b: 0x32, a: 255 }));
    assert_eq!(parse_css_background_color("RebeccaPurple"), parse_css_background_color("#663399"));
    assert_eq!(find_named_color("Black"), Some("000000"));
    assert_eq!(find_named_color("black"), Some("000000"));
}

#[test]
fn unknown_color_name_is_invalid() {
    assert_eq!(parse_css_background_color("aliceblue"), Err(CssColorParseError::InvalidColor("aliceblue")));
    assert_eq!(parse_css_background_color(""), Err(CssColorParseError::InvalidColor("")));
    assert_eq!(find_named_color("Blurple"), None);
}

#[test]
fn split_single_value_into_number_and_unit() {
    assert_eq!(split_single_css_value("15px"), Ok(PixelValueText { metric: CssMetric::Px, number: "15" }));
    assert_eq!(split_single_css_value("1.2em"), Ok(PixelValueText { metric: CssMetric::Em, number: "1.2" }));
    assert_eq!(split_single_css_value(".5em"), Ok(PixelValueText { metric: CssMetric::Em, number: ".5" }));
}

#[test]
fn split_single_value_with_bad_unit() {
    assert_eq!(
        split_single_css_value("aslkfdjasdflk"),
        Err(CssBorderRadiusParseError::InvalidComponent("aslkfdjasdflk"))
    );
    assert_eq!(split_single_css_value("15pt"), Err(CssBorderRadiusParseError::InvalidComponent("5pt")));
    assert_eq!(split_single_css_value("15"), Err(CssBorderRadiusParseError::InvalidComponent("5")));
    assert_eq!(split_single_css_value("px"), Err(CssBorderRadiusParseError::InvalidComponent("px")));
}

#[test]
fn split_single_value_is_refused_off_a_char_boundary() {
    assert_eq!(try_split_single_css_value(""), None);
    assert_eq!(try_split_single_css_value("\u{e9}px"), None);
    assert_eq!(try_split_single_css_value("1\u{b2}px"), None);
    assert_eq!(
        try_split_single_css_value("\u{e9}5px"),
        Some(Ok(PixelValueText { metric: CssMetric::Px, number: "\u{e9}5" }))
    );
    assert_eq!(
        try_split_single_css_value("15px"),
        Some(Ok(PixelValueText { metric: CssMetric::Px, number: "15" }))
    );
}

#[test]
fn border_radius_values_are_split_at_whitespace() {
    assert_eq!(border_radius_components("15px"), Ok(vec!["15px"]));
    assert_eq!(border_radius_components(" 15px\t50px \n"), Ok(vec!["15px", "50px"]));
    assert_eq!(
        border_radius_components("15px 50px 30px 5px"),
        Ok(vec!["15px", "50px", "30px", "5px"])
    );
}

#[test]
fn border_radius_with_no_or_too_many_values() {
    assert_eq!(border_radius_components(""), Err(CssBorderRadiusParseError::TooManyValues("")));
    assert_eq!(border_radius_components("   "), Err(CssBorderRadiusParseError::TooManyValues("   ")));
    assert_eq!(
        border_radius_components("1px 2px 3px 4px 5px"),
        Err(CssBorderRadiusParseError::TooManyValues("1px 2px 3px 4px 5px"))
    );
}

#[test]
fn corners_of_one_to_four_values() {
    assert_eq!(
        assign_corners(&[15]),
        BorderCorners { top_left: 15, top_right: 15, bottom_right: 15, bottom_left: 15 }
    );
    assert_eq!(
        assign_corners(&[15, 50]),
        BorderCorners { top_left: 15, top_right: 50, bottom_right: 15, bottom_left: 50 }
    );
    assert_eq!(
        assign_corners(&[15, 50, 30]),
        BorderCorners { top_left: 15, top_right: 50, bottom_right: 30, bottom_left: 50 }
    );
    assert_eq!(
        assign_corners(&[15, 50, 30, 5]),
        BorderCorners { top_left: 15, top_right: 50, bottom_right: 30, bottom_left: 5 }
    );
}

#[test]
fn corners_hold_floats_too() {
    assert_eq!(
        assign_corners(&[1.5f32, 2.0]),
        BorderCorners { top_left: 1.5, top_right: 2.0, bottom_right: 1.5, bottom_left: 2.0 }
    );
}

#[test]
fn whitespace_splitting_gives_nonempty_words() {
    assert_eq!(split_whitespace("  a \t bc\n"), vec!["a", "bc"]);
    assert_eq!(split_whitespace("a\u{a0}b\u{3000}c"), vec!["a", "b", "c"]);
    assert_eq!(split_whitespace(""), Vec::<&str>::new());
    for w in split_whitespace(" x  yy   zzz ") {
        assert!(!w.is_empty());
        assert!(!w.chars().any(|c| c.is_whitespace()));
    }
}

#[test]
fn string_equality_compares_characters() {
    assert!(str_eq("px", "px"));
    assert!(!str_eq("px", "em"));
    assert!(!str_eq("px", "pxx"));
    assert!(str_eq("", ""));
    assert!(str_eq("\u{e9}", "\u{e9}"));
}

#[test]
fn whitespace_class_is_that_of_std() {
    for code in 0u32..=0x10FFFF {
        if let Some(c) = char::from_u32(code) {
            assert_eq!(css_parser::is_whitespace_char(c), c.is_whitespace(), "U+{:04X}", code);
        }
    }
}

#[test]
fn hex_parsers_are_public() {
    assert_eq!(css_parser::parse_background_color("F0F8FF"), Ok(ColorU { r: 240, g: 248, b: 255, a: 255 }));
    assert_eq!(css_parser::parse_background_color("fff"), css_parser::parse_background_color("FFFFFF"));
    assert_eq!(css_parser::parse_background_color("abc"), css_parser::parse_background_color("ABCF"));
    assert_eq!(css_parser::parse_background_color_builtin("DarkSlateGray"), css_parser::parse_background_color_builtin("dark-slate-gray"));
    assert_eq!(css_parser::parse_background_color_builtin("red"), css_parser::parse_background_color("FF0000"));
    assert_eq!(css_parser::parse_background_color("12345G"), css_parser::parse_css_background_color("#12345G"));
}

#[test]
fn border_radius_readings_and_corners() {
    let readings = read_border_radius_values("15px  50em").unwrap();
    assert_eq!(
        readings,
        vec![
            Some(Ok(PixelValueText { metric: CssMetric::Px, number: "15" })),
            Some(Ok(PixelValueText { metric: CssMetric::Em, number: "50" })),
        ]
    );
    assert_eq!(read_border_radius_values("1px \u{e9}px").unwrap()[1], None);
    let ok: Vec<Option<Result<i32, &str>>> = vec![Some(Ok(15)), Some(Ok(50)), Some(Ok(30))];
    assert_eq!(
        compose_border_radius(ok),
        Some(Ok(BorderCorners { top_left: 15, top_right: 50, bottom_right: 30, bottom_left: 50 }))
    );
    let first_error: Vec<Option<Result<i32, &str>>> = vec![Some(Ok(1)), Some(Err("bad")), None];
    assert_eq!(compose_border_radius(first_error), Some(Err("bad")));
    let unsliceable_first: Vec<Option<Result<i32, &str>>> = vec![Some(Ok(1)), None, Some(Err("bad"))];
    assert_eq!(compose_border_radius(unsliceable_first), None);
}
