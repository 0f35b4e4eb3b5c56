use lucide_floem::{format_width, stroke_attribute, substitute_stroke_width, Icon};

#[test]
fn width_formats_whole_numbers() {
    assert_eq!(format_width(0), "0");
    assert_eq!(format_width(2000), "2");
    assert_eq!(format_width(3000), "3");
    assert_eq!(format_width(12000), "12");
    assert_eq!(format_width(4_294_967_000), "4294967");
}

#[test]
fn width_formats_fractions_without_trailing_zeros() {
    assert_eq!(format_width(1500), "1.5");
    assert_eq!(format_width(2250), "2.25");
    assert_eq!(format_width(125), "0.125");
    assert_eq!(format_width(1005), "1.005");
    assert_eq!(format_width(10050), "10.05");
    assert_eq!(format_width(4_294_967_295), "4294967.295");
}

#[test]
fn attribute_for_width() {
    assert_eq!(stroke_attribute(3000), "stroke-width=\"3\"");
    assert_eq!(stroke_attribute(1500), "stroke-width=\"1.5\"");
}

#[test]
fn substitution_replaces_width_two_by_three() {
    let text = "<svg width=\"24\" stroke-width=\"2\"><path d=\"m6 9 6 6 6-6\"/></svg>";
    let out = substitute_stroke_width(text, 3000);
    assert!(out.contains("stroke-width=\"3\""));
    assert!(!out.contains("stroke-width=\"2\""));
    assert_eq!(out, "<svg width=\"24\" stroke-width=\"3\"><path d=\"m6 9 6 6 6-6\"/></svg>");
}

#[test]
fn substitution_on_bundled_icon() {
    let out = substitute_stroke_width(Icon::Check.get_svg(), 3000);
    assert!(out.contains("stroke-width=\"3\""));
    assert!(!out.contains("stroke-width=\"2\""));
    assert_eq!(out.replace("stroke-width=\"3\"", "stroke-width=\"2\""), Icon::Check.get_svg());
}

#[test]
fn substitution_without_attribute_keeps_text() {
    let text = "<svg width=\"24\" height=\"24\"><path d=\"M5 12h14\"/></svg>";
    assert_eq!(substitute_stroke_width(text, 3000), text);
    assert_eq!(substitute_stroke_width(text, 1500), text);
    assert_eq!(substitute_stroke_width("", 2000), "");
}

#[test]
fn substitution_replaces_every_attribute() {
    let text = "<svg stroke-width=\"2\"><g stroke-width=\"10\"/></svg>";
    assert_eq!(
        substitute_stroke_width(text, 1500),
        "<svg stroke-width=\"1.5\"><g stroke-width=\"1.5\"/></svg>"
    );
}

#[test]
fn substitution_leaves_non_numeric_value() {
    let text = "<svg stroke-width=\"none\"/>";
    assert_eq!(substitute_stroke_width(text, 3000), text);
}
