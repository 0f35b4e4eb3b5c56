use lucide_floem::icons::{CHECK, CHEVRON_DOWN, MINUS, PLUS, X};
use lucide_floem::Icon;

const ALL: [Icon; 8] = [
    Icon::ChevronDown,
    Icon::ChevronUp,
    Icon::ChevronLeft,
    Icon::ChevronRight,
    Icon::X,
    Icon::Check,
    Icon::Plus,
    Icon::Minus,
];

#[test]
fn every_icon_text_is_svg() {
    for icon in ALL {
        let svg = icon.get_svg();
        assert!(!svg.is_empty());
        assert!(svg.contains("<svg"));
        assert!(svg.ends_with("</svg>"));
    }
}

#[test]
fn icon_texts_are_unique() {
    for (i, a) in ALL.iter().enumerate() {
        for (j, b) in ALL.iter().enumerate() {
            if i != j {
                assert_ne!(a.get_svg(), b.get_svg());
            }
        }
    }
}

#[test]
fn icon_constants_match_lookup() {
    assert_eq!(Icon::ChevronDown.get_svg(), CHEVRON_DOWN);
    assert_eq!(Icon::X.get_svg(), X);
    assert_eq!(Icon::Check.get_svg(), CHECK);
    assert_eq!(Icon::Plus.get_svg(), PLUS);
    assert_eq!(Icon::Minus.get_svg(), MINUS);
}

#[test]
fn debug_names_are_variant_names() {
    assert_eq!(Icon::ChevronDown.get_debug_name(), "ChevronDown");
    assert_eq!(Icon::ChevronRight.get_debug_name(), "ChevronRight");
    assert_eq!(Icon::X.get_debug_name(), "X");
    assert_eq!(Icon::Minus.get_debug_name(), "Minus");
}

#[test]
fn icon_view_starts_from_its_text() {
    let view = Icon::ChevronUp.view();
    assert_eq!(view.original_svg(), Icon::ChevronUp.get_svg());
    assert_eq!(view.rendered_svg(), Icon::ChevronUp.get_svg());
    assert_eq!(view.size(), None);
}
