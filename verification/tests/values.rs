use web_parser::css::properties::Property;
use web_parser::css::values::{Color, Number, Unit, Value};

const UNITS: [(Unit, &str); 28] = [
    (Unit::Px, "px"),
    (Unit::Em, "em"),
    (Unit::Rem, "rem"),
    (Unit::Ex, "ex"),
    (Unit::Ch, "ch"),
    (Unit::Vw, "vw"),
    (Unit::Vh, "vh"),
    (Unit::Vmin, "vmin"),
    (Unit::Vmax, "vmax"),
    (Unit::Pt, "pt"),
    (Unit::Pc, "pc"),
    (Unit::In, "in"),
    (Unit::Cm, "cm"),
    (Unit::Mm, "mm"),
    (Unit::Q, "q"),
    (Unit::Percent, "%"),
    (Unit::Deg, "deg"),
    (Unit::Rad, "rad"),
    (Unit::Grad, "grad"),
    (Unit::Turn, "turn"),
    (Unit::S, "s"),
    (Unit::Ms, "ms"),
    (Unit::Hz, "Hz"),
    (Unit::Khz, "kHz"),
    (Unit::Dpi, "dpi"),
    (Unit::Dpcm, "dpcm"),
    (Unit::Dppx, "dppx"),
    (Unit::Fr, "fr"),
];

#[test]
fn unit_text() {
    for (unit, text) in UNITS {
        assert_eq!(unit.to_string(), text);
        assert_eq!(unit.as_str(), text);
    }
}

#[test]
fn unit_from_its_text() {
    for (unit, text) in UNITS {
        if unit == Unit::Percent {
            assert_eq!(Unit::from_name(text), Err(()));
        } else {
            assert_eq!(Unit::from_name(text), Ok(unit));
            assert_eq!(Unit::from_name(&text.to_uppercase()), Ok(unit));
            assert_eq!(text.parse::<Unit>(), Ok(unit));
            assert_eq!(Unit::from_lowercase(&text.to_lowercase()), Some(unit));
        }
    }
    assert_eq!(Unit::from_name(""), Err(()));
    assert_eq!(Unit::from_name("pixels"), Err(()));
    assert_eq!(Unit::from_name(" px"), Err(()));
    assert_eq!("furlong".parse::<Unit>(), Err(()));
    assert_eq!(Unit::from_lowercase("PX"), None);
    // the Kelvin sign lower-cases to the letter k
    assert_eq!(Unit::from_name("\u{212a}hz"), Ok(Unit::Khz));
}

#[test]
fn to_color_of_a_value() {
    let c = Color { r: 1, g: 2, b: 3, a: 4 };
    assert_eq!(Value::Color(c).to_color(), Some(c));
    assert_eq!(Value::CurrentColor.to_color(), None);
    assert_eq!(Value::Keyword("red".to_string()).to_color(), None);
    assert_eq!(Value::Percentage(Number { text: "1".to_string() }).to_color(), None);
}

#[test]
fn parse_hex_forms() {
    assert_eq!(Color::parse_hex("#abc"), Some(Color { r: 0xaa, g: 0xbb, b: 0xcc, a: 255 }));
    assert_eq!(Color::parse_hex("abc"), Some(Color { r: 0xaa, g: 0xbb, b: 0xcc, a: 255 }));
    assert_eq!(Color::parse_hex("##abc"), Some(Color { r: 0xaa, g: 0xbb, b: 0xcc, a: 255 }));
    assert_eq!(Color::parse_hex("#abcd"), Some(Color { r: 0xaa, g: 0xbb, b: 0xcc, a: 0xdd }));
    assert_eq!(Color::parse_hex("#aabbcc"), Some(Color { r: 0xaa, g: 0xbb, b: 0xcc, a: 255 }));
    assert_eq!(Color::parse_hex("#AABBCCDD"), Some(Color { r: 0xaa, g: 0xbb, b: 0xcc, a: 0xdd }));
    assert_eq!(Color::parse_hex("#010203"), Some(Color { r: 1, g: 2, b: 3, a: 255 }));
    assert_eq!(Color::parse_hex("#12345"), None);
    assert_eq!(Color::parse_hex("#"), None);
    assert_eq!(Color::parse_hex(""), None);
    assert_eq!(Color::parse_hex("#ab"), None);
    assert_eq!(Color::parse_hex("#abcdefabc"), None);
    assert_eq!(Color::parse_hex("#abg"), None);
    assert_eq!(Color::parse_hex("#aabbcg"), None);
    assert_eq!(Color::parse_hex("abc#"), None);
    assert_eq!(Color::parse_hex("#a-b"), None);
}

#[test]
fn parse_hex_agrees_with_radix_parsing() {
    let pair = |s: &str| u8::from_str_radix(s, 16).ok();
    for text in ["+f+f+f", "+f+f+f+f", "f+f+f+", "++ffff", "-f-f-f", "+1+2+3", "00+a00"] {
        let expected = match text.len() {
            6 => match (pair(&text[0..2]), pair(&text[2..4]), pair(&text[4..6])) {
                (Some(r), Some(g), Some(b)) => Some(Color { r, g, b, a: 255 }),
                _ => None,
            },
            8 => match (pair(&text[0..2]), pair(&text[2..4]), pair(&text[4..6]), pair(&text[6..8])) {
                (Some(r), Some(g), Some(b), Some(a)) => Some(Color { r, g, b, a }),
                _ => None,
            },
            _ => None,
        };
        assert_eq!(Color::parse_hex(text), expected, "{}", text);
    }
    assert_eq!(Color::parse_hex("+f+f+f"), Some(Color { r: 15, g: 15, b: 15, a: 255 }));
    assert_eq!(Color::parse_hex("+++"), None);
}

#[test]
fn alpha_is_in_255ths() {
    let c = Color::parse_hex("#abcd").unwrap();
    assert_eq!(c.a as f32 / 255.0, 0xdd as f32 / 255.0);
    let c = Color::parse_hex("#abc").unwrap();
    assert_eq!(c.a as f32 / 255.0, 1.0);
}

#[test]
fn parse_named_colors() {
    let table = [
        ("black", 0, 0, 0),
        ("silver", 192, 192, 192),
        ("gray", 128, 128, 128),
        ("white", 255, 255, 255),
        ("maroon", 128, 0, 0),
        ("red", 255, 0, 0),
        ("purple", 128, 0, 128),
        ("fuchsia", 255, 0, 255),
        ("green", 0, 128, 0),
        ("lime", 0, 255, 0),
        ("olive", 128, 128, 0),
        ("yellow", 255, 255, 0),
        ("navy", 0, 0, 128),
        ("blue", 0, 0, 255),
        ("teal", 0, 128, 128),
        ("aqua", 0, 255, 255),
        ("aliceblue", 240, 248, 255),
        ("antiquewhite", 250, 235, 215),
    ];
    for (name, r, g, b) in table {
        assert_eq!(Color::parse_named(name), Some(Color { r, g, b, a: 255 }));
        assert_eq!(Color::parse_named(&name.to_uppercase()), Some(Color { r, g, b, a: 255 }));
        assert_eq!(Color::from_lowercase_name(name), Some(Color { r, g, b, a: 255 }));
    }
    assert_eq!(Color::parse_named("Transparent"), Some(Color { r: 0, g: 0, b: 0, a: 0 }));
    assert_eq!(Color::parse_named("currentcolor"), None);
    assert_eq!(Color::parse_named("rebeccapurple"), None);
    assert_eq!(Color::parse_named(""), None);
    assert_eq!(Color::from_lowercase_name("RED"), None);
}

fn strings(v: &[&str]) -> Option<Vec<String>> {
    Some(v.iter().map(|s| s.to_string()).collect())
}

#[test]
fn rgb_components_as_written() {
    assert_eq!(Color::rgb_components("rgb(1, 2, 3)"), strings(&["1", "2", "3"]));
    assert_eq!(Color::rgb_components("  rgb( 10% ,50%,100% )  "), strings(&["10%", "50%", "100%"]));
    assert_eq!(Color::rgb_components("rgba(1,2,3,0.5)"), strings(&["1", "2", "3", "0.5"]));
    assert_eq!(Color::rgb_components("rgb(1,2,3,4)"), None);
    assert_eq!(Color::rgb_components("rgba(1,2,3)"), None);
    assert_eq!(Color::rgb_components("rgb(1,2)"), None);
    assert_eq!(Color::rgb_components("hsl(1,2,3)"), None);
    assert_eq!(Color::rgb_components("RGB(1,2,3)"), None);
    assert_eq!(Color::rgb_components("rgb 1,2,3"), None);
    assert_eq!(Color::rgb_components(""), None);
    assert_eq!(Color::rgb_components("rgb(,,)"), strings(&["", "", ""]));
    assert_eq!(Color::rgb_components("rgb(1,2,3"), strings(&["1", "2", "3"]));
    assert_eq!(Color::rgb_components("rgb(1,2,3)))"), strings(&["1", "2", "3"]));
    assert_eq!(Color::rgb_components("rgb(rgb(1,2,3)"), strings(&["1", "2", "3"]));
    assert_eq!(Color::rgb_components("rgb(rgba(1,2,3)"), strings(&["1", "2", "3"]));
    assert_eq!(Color::rgb_components("rgba(rgb(1,2,3,4)"), strings(&["rgb(1", "2", "3", "4"]));
}

#[test]
fn rgb_components_agree_with_the_standard_library() {
    for text in [
        "rgb(1, 2, 3)", " rgba( 1 , 2,3 , 4 ) ", "rgb(a,b,c))", "rgb(rgb(rgba(x,y,z)", "rgb()",
        "rgb(,)", "rgb(, ,)", "rgba(,,,)", "rgb(1,2,3) x", "rgb(\u{a0}1\u{a0},2,3)", "rgb", "rgb(",
    ] {
        let t = text.trim();
        let expected = if !t.starts_with("rgb(") && !t.starts_with("rgba(") {
            None
        } else {
            let is_rgba = t.starts_with("rgba(");
            let content =
                t.trim_start_matches("rgb(").trim_start_matches("rgba(").trim_end_matches(')');
            let parts: Vec<String> = content.split(',').map(|s| s.trim().to_string()).collect();
            if (is_rgba && parts.len() != 4) || (!is_rgba && parts.len() != 3) {
                None
            } else {
                Some(parts)
            }
        };
        assert_eq!(Color::rgb_components(text), expected, "{:?}", text);
    }
}

#[test]
fn hsl_components_as_written() {
    assert_eq!(Color::hsl_components("hsl(0, 100%, 50%)"), strings(&["0", "100%", "50%"]));
    assert_eq!(Color::hsl_components("hsla(120deg, 1%, 2%, 1)"), strings(&["120deg", "1%", "2%", "1"]));
    assert_eq!(Color::hsl_components("hsl(0, 100%)"), None);
    assert_eq!(Color::hsl_components("rgb(0, 100%, 50%)"), None);
}

fn scaled(component: &str) -> u8 {
    let (number, is_percentage) = Color::split_percent(component);
    let value = if is_percentage {
        number.parse::<f32>().unwrap() * 255.0 / 100.0
    } else {
        number.parse::<f32>().unwrap()
    };
    value.clamp(0.0, 255.0) as u8
}

#[test]
fn percent_signs_are_split_off() {
    for text in ["10%", "10", "", "%", "10%%", "%10", "1 %", "é%", "100%x"] {
        assert_eq!(
            Color::split_percent(text),
            (text.trim_end_matches('%').to_string(), text.ends_with('%')),
            "{:?}",
            text
        );
    }
    assert_eq!(Color::split_percent("12.5%"), ("12.5".to_string(), true));
    assert_eq!(Color::split_percent("12.5"), ("12.5".to_string(), false));
}

#[test]
fn angle_units_are_stripped() {
    for text in [
        "120deg", "120", "1rad", "1grad", "0.5turn", "1degdeg", "1raddeg", "1degrad", "1turndeg",
        "1gradturn", "deg", "", "1 deg", "1DEG", "1dég", "turnturn", "gradrad",
    ] {
        assert_eq!(
            Color::strip_angle_unit(text),
            text.trim_end_matches("deg")
                .trim_end_matches("rad")
                .trim_end_matches("grad")
                .trim_end_matches("turn"),
            "{:?}",
            text
        );
    }
    assert_eq!(Color::strip_angle_unit("120deg"), "120");
    assert_eq!(Color::strip_angle_unit("1grad"), "1g");
    assert_eq!(Color::strip_angle_unit("0.5turn"), "0.5");
}

#[test]
fn rgb_percentages_scale_to_bytes() {
    let parts = Color::rgb_components("rgb(10%, 50%, 100%)").unwrap();
    assert_eq!(parts.len(), 3);
    let (r, g, b) = (scaled(&parts[0]), scaled(&parts[1]), scaled(&parts[2]));
    assert_eq!(r, 25);
    assert!((g as i32 - 128).abs() <= 1);
    assert_eq!(g, 127);
    assert_eq!(b, 255);
    let alpha: f32 = if parts.len() == 4 { parts[3].parse().unwrap() } else { 1.0 };
    assert_eq!(alpha, 1.0);
    let parts = Color::rgb_components("rgb(300, -5, 12.9)").unwrap();
    assert_eq!((scaled(&parts[0]), scaled(&parts[1]), scaled(&parts[2])), (255, 0, 12));
}

#[test]
fn hsl_red_is_red() {
    let parts = Color::hsl_components("hsl(0, 100%, 50%)").unwrap();
    let h: f32 = Color::strip_angle_unit(&parts[0]).parse().unwrap();
    let s = Color::split_percent(&parts[1]).0.parse::<f32>().unwrap() / 100.0;
    let l = Color::split_percent(&parts[2]).0.parse::<f32>().unwrap() / 100.0;
    let c = (1.0 - (2.0 * l - 1.0).abs()) * s;
    let x = c * (1.0 - ((h / 60.0) % 2.0 - 1.0).abs());
    let m = l - c / 2.0;
    let (r, g, b) = match (h / 60.0).floor() as i32 % 6 {
        0 => (c, x, 0.0),
        1 => (x, c, 0.0),
        2 => (0.0, c, x),
        3 => (0.0, x, c),
        4 => (x, 0.0, c),
        _ => (c, 0.0, x),
    };
    let byte = |v: f32| ((v + m) * 255.0).round() as u8;
    assert_eq!((byte(r), byte(g), byte(b)), (255, 0, 0));
}

#[test]
fn property_names_round_trip() {
    let names = [
        "width", "height", "min-width", "min-height", "max-width", "max-height", "margin",
        "margin-top", "margin-right", "margin-bottom", "margin-left", "padding", "padding-top",
        "padding-right", "padding-bottom", "padding-left", "border", "border-top", "border-right",
        "border-bottom", "border-left", "border-width", "border-style", "border-color",
        "border-radius", "box-sizing", "display", "position", "top", "right", "bottom", "left",
        "z-index", "float", "clear", "color", "font-family", "font-size", "font-style",
        "font-weight", "line-height", "text-align", "text-decoration", "text-transform",
        "letter-spacing", "word-spacing", "white-space", "background-color", "background-image",
        "background-position", "background-repeat", "background-size", "opacity", "visibility",
        "flex-direction", "flex-wrap", "flex-grow", "flex-shrink", "flex-basis", "justify-content",
        "align-items", "align-self", "align-content", "grid-template-columns",
        "grid-template-rows", "grid-column-gap", "grid-row-gap", "grid-column", "grid-row",
        "transition", "animation", "animation-name", "animation-duration",
        "animation-timing-function", "animation-delay", "animation-iteration-count",
        "animation-direction", "cursor", "overflow", "content", "pointer-events", "user-select",
    ];
    assert_eq!(names.len(), 82);
    for name in names {
        let property = Property::parse(name, Value::Auto).unwrap();
        assert_eq!(property.name(), name);
    }
}

#[test]
fn property_keeps_its_value() {
    assert_eq!(
        Property::parse("width", Value::Keyword("x".to_string())),
        Some(Property::Width(Value::Keyword("x".to_string())))
    );
    assert_eq!(Property::parse("z-index", Value::Auto), Some(Property::ZIndex(Value::Auto)));
    assert_eq!(Property::UserSelect(Value::NoneValue).name(), "user-select");
}

#[test]
fn unknown_property_names() {
    assert_eq!(Property::parse("colour", Value::Auto), None);
    assert_eq!(Property::parse("", Value::Auto), None);
    assert_eq!(Property::parse("WIDTH", Value::Auto), None);
    assert_eq!(Property::parse(" width", Value::Auto), None);
}
