use lucide_floem::{lucide, Icon, LucideProps, DEFAULT_STROKE_WIDTH};

fn props(stroke_width: u32, font_size: Option<u32>) -> LucideProps {
    LucideProps { stroke_width, font_size }
}

#[test]
fn default_props_have_width_two() {
    let p = LucideProps::default();
    assert_eq!(p.stroke_width, 2000);
    assert_eq!(DEFAULT_STROKE_WIDTH, 2000);
    assert_eq!(p.font_size, None);
}

#[test]
fn fresh_view_shows_source_text() {
    let text = String::from("<svg stroke-width=\"2\"/>");
    let view = lucide(text.clone());
    assert_eq!(view.original_svg(), text);
    assert_eq!(view.rendered_svg(), text);
    assert_eq!(view.size(), None);
}

#[test]
fn style_pass_with_defaults_changes_nothing() {
    let mut view = Icon::Plus.view();
    let action = view.style_pass(LucideProps::default());
    assert!(action.svg_update.is_none());
    assert!(!action.request_all);
    assert_eq!(view.rendered_svg(), Icon::Plus.get_svg());
}

#[test]
fn style_pass_forwards_new_stroke_width() {
    let mut view = lucide(String::from("<svg stroke-width=\"2\"><path/></svg>"));
    let action = view.style_pass(props(3000, None));
    assert!(action.request_all);
    let update = action.svg_update.expect("the width changed");
    assert!(update.contains("stroke-width=\"3\""));
    assert!(!update.contains("stroke-width=\"2\""));
    assert_eq!(view.rendered_svg(), update);
    assert_eq!(view.original_svg(), "<svg stroke-width=\"2\"><path/></svg>");
}

#[test]
fn second_style_pass_with_same_width_is_idle() {
    let mut view = Icon::ChevronDown.view();
    let first = view.style_pass(props(1500, Some(16000)));
    assert!(first.svg_update.is_some());
    let after_first = view.rendered_svg().to_string();
    let second = view.style_pass(props(1500, Some(16000)));
    assert!(second.svg_update.is_none());
    assert!(!second.request_all);
    assert_eq!(view.rendered_svg(), after_first);
}

#[test]
fn substitution_starts_from_source_each_time() {
    let mut view = Icon::X.view();
    view.style_pass(props(3000, None));
    view.style_pass(props(1000, None));
    let update = view.style_pass(props(2500, None)).svg_update.unwrap();
    assert_eq!(update, Icon::X.get_svg().replace("stroke-width=\"2\"", "stroke-width=\"2.5\""));
}

#[test]
fn view_without_attribute_forwards_text_unchanged() {
    let text = "<svg width=\"24\"><path d=\"M5 12h14\"/></svg>";
    let mut view = lucide(String::from(text));
    let action = view.style_pass(props(3000, None));
    assert_eq!(action.svg_update.as_deref(), Some(text));
    assert_eq!(view.rendered_svg(), text);
}

#[test]
fn font_size_change_requests_layout_only() {
    let mut view = Icon::Minus.view();
    let action = view.style_pass(props(2000, Some(24000)));
    assert!(action.request_all);
    assert!(action.svg_update.is_none());
    assert_eq!(view.size(), Some(24000));
}

#[test]
fn size_override_gives_square_box() {
    let mut view = Icon::Check.view();
    assert_eq!(view.layout_box(50000, 20000), (50000, 20000));
    view.style_pass(props(2000, Some(32000)));
    assert_eq!(view.layout_box(50000, 20000), (32000, 32000));
    assert_eq!(view.layout_box(0, 0), (32000, 32000));
    view.style_pass(props(2000, None));
    assert_eq!(view.layout_box(50000, 20000), (50000, 20000));
}
