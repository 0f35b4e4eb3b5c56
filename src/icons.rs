//! The bundled icon set: one constant of SVG text per icon, the closed
//! `Icon` enumeration, and the lookups from an icon to its text and its name.

use vstd::prelude::*;

verus! {
/// SVG text of the `chevron-down` icon.
pub const CHEVRON_DOWN: &'static str = "<svg xmlns=\"http://www.w3.org/2000/svg\" width=\"24\" height=\"24\" viewBox=\"0 0 24 24\" fill=\"none\" stroke=\"currentColor\" stroke-width=\"2\" stroke-linecap=\"round\" stroke-linejoin=\"round\"><path d=\"m6 9 6 6 6-6\"/></svg>";
/// SVG text of the `chevron-up` icon.
pub const CHEVRON_UP: &'static str = "<svg xmlns=\"http://www.w3.org/2000/svg\" width=\"24\" height=\"24\" viewBox=\"0 0 24 24\" fill=\"none\" stroke=\"currentColor\" stroke-width=\"2\" stroke-linecap=\"round\" stroke-linejoin=\"round\"><path d=\"m18 15-6-6-6 6\"/></svg>";
/// SVG text of the `chevron-left` icon.
pub const CHEVRON_LEFT: &'static str = "<svg xmlns=\"http://www.w3.org/2000/svg\" width=\"24\" height=\"24\" viewBox=\"0 0 24 24\" fill=\"none\" stroke=\"currentColor\" stroke-width=\"2\" stroke-linecap=\"round\" stroke-linejoin=\"round\"><path d=\"m15 18-6-6 6-6\"/></svg>";
/// SVG text of the `chevron-right` icon.
pub const CHEVRON_RIGHT: &'static str = "<svg xmlns=\"http://www.w3.org/2000/svg\" width=\"24\" height=\"24\" viewBox=\"0 0 24 24\" fill=\"none\" stroke=\"currentColor\" stroke-width=\"2\" stroke-linecap=\"round\" stroke-linejoin=\"round\"><path d=\"m9 18 6-6-6-6\"/></svg>";
/// SVG text of the `x` icon.
pub const X: &'static str = "<svg xmlns=\"http://www.w3.org/2000/svg\" width=\"24\" height=\"24\" viewBox=\"0 0 24 24\" fill=\"none\" stroke=\"currentColor\" stroke-width=\"2\" stroke-linecap=\"round\" stroke-linejoin=\"round\"><path d=\"M18 6 6 18\"/><path d=\"m6 6 12 12\"/></svg>";
/// SVG text of the `check` icon.
pub const CHECK: &'static str = "<svg xmlns=\"http://www.w3.org/2000/svg\" width=\"24\" height=\"24\" viewBox=\"0 0 24 24\" fill=\"none\" stroke=\"currentColor\" stroke-width=\"2\" stroke-linecap=\"round\" stroke-linejoin=\"round\"><path d=\"M20 6 9 17l-5-5\"/></svg>";
/// SVG text of the `plus` icon.
pub const PLUS: &'static str = "<svg xmlns=\"http://www.w3.org/2000/svg\" width=\"24\" height=\"24\" viewBox=\"0 0 24 24\" fill=\"none\" stroke=\"currentColor\" stroke-width=\"2\" stroke-linecap=\"round\" stroke-linejoin=\"round\"><path d=\"M5 12h14\"/><path d=\"M12 5v14\"/></svg>";
/// SVG text of the `minus` icon.
pub const MINUS: &'static str = "<svg xmlns=\"http://www.w3.org/2000/svg\" width=\"24\" height=\"24\" viewBox=\"0 0 24 24\" fill=\"none\" stroke=\"currentColor\" stroke-width=\"2\" stroke-linecap=\"round\" stroke-linejoin=\"round\"><path d=\"M5 12h14\"/></svg>";
/// `s` holds `t` as a contiguous piece.
pub open spec fn contains(s: Seq<char>, t: Seq<char>) -> bool {
    exists|i: int| 0 <= i && i + t.len() <= s.len() && #[trigger] s.subrange(i, i + t.len()) == t
}

/// A sequence that starts with `t` contains `t`.
pub proof fn lemma_prefix_contained(s: Seq<char>, t: Seq<char>)
    requires
        t.len() <= s.len(),
        s.subrange(0, t.len() as int) == t,
    ensures
        contains(s, t),
{
    assert(s.subrange(0, 0int + t.len()) == t);
}

/// The icons of the bundled set, one variant per SVG asset.
#[derive(Clone, Copy, Debug, PartialEq, Eq, Structural)]
pub enum Icon {
    ChevronDown,
    ChevronUp,
    ChevronLeft,
    ChevronRight,
    X,
    Check,
    Plus,
    Minus,
}

/// The SVG text that `icon` stands for.
pub open spec fn svg_text(icon: Icon) -> Seq<char> {
    match icon {
        Icon::ChevronDown => CHEVRON_DOWN@,
        Icon::ChevronUp => CHEVRON_UP@,
        Icon::ChevronLeft => CHEVRON_LEFT@,
        Icon::ChevronRight => CHEVRON_RIGHT@,
        Icon::X => X@,
        Icon::Check => CHECK@,
        Icon::Plus => PLUS@,
        Icon::Minus => MINUS@,
    }
}

/// The name under which `icon` appears in debugging output.
pub open spec fn debug_name_text(icon: Icon) -> Seq<char> {
    match icon {
        Icon::ChevronDown => "ChevronDown"@,
        Icon::ChevronUp => "ChevronUp"@,
        Icon::ChevronLeft => "ChevronLeft"@,
        Icon::ChevronRight => "ChevronRight"@,
        Icon::X => "X"@,
        Icon::Check => "Check"@,
        Icon::Plus => "Plus"@,
        Icon::Minus => "Minus"@,
    }
}

/// Every icon's text is non-empty and holds an opening `<svg` tag.
pub proof fn lemma_svg_text_is_svg(icon: Icon)
    ensures
        svg_text(icon).len() > 0,
        contains(svg_text(icon), "<svg"@),
{
    reveal_strlit("<svg");
    match icon {
        Icon::ChevronDown => {
            reveal_strlit("<svg xmlns=\"http://www.w3.org/2000/svg\" width=\"24\" height=\"24\" viewBox=\"0 0 24 24\" fill=\"none\" stroke=\"currentColor\" stroke-width=\"2\" stroke-linecap=\"round\" stroke-linejoin=\"round\"><path d=\"m6 9 6 6 6-6\"/></svg>");
            assert(CHEVRON_DOWN@.subrange(0, 4) =~= "<svg"@);
        },
        Icon::ChevronUp => {
            reveal_strlit("<svg xmlns=\"http://www.w3.org/2000/svg\" width=\"24\" height=\"24\" viewBox=\"0 0 24 24\" fill=\"none\" stroke=\"currentColor\" stroke-width=\"2\" stroke-linecap=\"round\" stroke-linejoin=\"round\"><path d=\"m18 15-6-6-6 6\"/></svg>");
            assert(CHEVRON_UP@.subrange(0, 4) =~= "<svg"@);
        },
        Icon::ChevronLeft => {
            reveal_strlit("<svg xmlns=\"http://www.w3.org/2000/svg\" width=\"24\" height=\"24\" viewBox=\"0 0 24 24\" fill=\"none\" stroke=\"currentColor\" stroke-width=\"2\" stroke-linecap=\"round\" stroke-linejoin=\"round\"><path d=\"m15 18-6-6 6-6\"/></svg>");
            assert(CHEVRON_LEFT@.subrange(0, 4) =~= "<svg"@);
        },
        Icon::ChevronRight => {
            reveal_strlit("<svg xmlns=\"http://www.w3.org/2000/svg\" width=\"24\" height=\"24\" viewBox=\"0 0 24 24\" fill=\"none\" stroke=\"currentColor\" stroke-width=\"2\" stroke-linecap=\"round\" stroke-linejoin=\"round\"><path d=\"m9 18 6-6-6-6\"/></svg>");
            assert(CHEVRON_RIGHT@.subrange(0, 4) =~= "<svg"@);
        },
        Icon::X => {
            reveal_strlit("<svg xmlns=\"http://www.w3.org/2000/svg\" width=\"24\" height=\"24\" viewBox=\"0 0 24 24\" fill=\"none\" stroke=\"currentColor\" stroke-width=\"2\" stroke-linecap=\"round\" stroke-linejoin=\"round\"><path d=\"M18 6 6 18\"/><path d=\"m6 6 12 12\"/></svg>");
            assert(X@.subrange(0, 4) =~= "<svg"@);
        },
        Icon::Check => {
            reveal_strlit("<svg xmlns=\"http://www.w3.org/2000/svg\" width=\"24\" height=\"24\" viewBox=\"0 0 24 24\" fill=\"none\" stroke=\"currentColor\" stroke-width=\"2\" stroke-linecap=\"round\" stroke-linejoin=\"round\"><path d=\"M20 6 9 17l-5-5\"/></svg>");
            assert(CHECK@.subrange(0, 4) =~= "<svg"@);
        },
        Icon::Plus => {
            reveal_strlit("<svg xmlns=\"http://www.w3.org/2000/svg\" width=\"24\" height=\"24\" viewBox=\"0 0 24 24\" fill=\"none\" stroke=\"currentColor\" stroke-width=\"2\" stroke-linecap=\"round\" stroke-linejoin=\"round\"><path d=\"M5 12h14\"/><path d=\"M12 5v14\"/></svg>");
            assert(PLUS@.subrange(0, 4) =~= "<svg"@);
        },
        Icon::Minus => {
            reveal_strlit("<svg xmlns=\"http://www.w3.org/2000/svg\" width=\"24\" height=\"24\" viewBox=\"0 0 24 24\" fill=\"none\" stroke=\"currentColor\" stroke-width=\"2\" stroke-linecap=\"round\" stroke-linejoin=\"round\"><path d=\"M5 12h14\"/></svg>");
            assert(MINUS@.subrange(0, 4) =~= "<svg"@);
        },
    }
    lemma_prefix_contained(svg_text(icon), "<svg"@);
}

/// Two different icons never share their SVG text.
pub proof fn lemma_svg_text_unique(a: Icon, b: Icon)
    requires
        a != b,
    ensures
        svg_text(a) != svg_text(b),
{
    reveal_strlit("<svg xmlns=\"http://www.w3.org/2000/svg\" width=\"24\" height=\"24\" viewBox=\"0 0 24 24\" fill=\"none\" stroke=\"currentColor\" stroke-width=\"2\" stroke-linecap=\"round\" stroke-linejoin=\"round\"><path d=\"m6 9 6 6 6-6\"/></svg>");
    reveal_strlit("<svg xmlns=\"http://www.w3.org/2000/svg\" width=\"24\" height=\"24\" viewBox=\"0 0 24 24\" fill=\"none\" stroke=\"currentColor\" stroke-width=\"2\" stroke-linecap=\"round\" stroke-linejoin=\"round\"><path d=\"m18 15-6-6-6 6\"/></svg>");
    reveal_strlit("<svg xmlns=\"http://www.w3.org/2000/svg\" width=\"24\" height=\"24\" viewBox=\"0 0 24 24\" fill=\"none\" stroke=\"currentColor\" stroke-width=\"2\" stroke-linecap=\"round\" stroke-linejoin=\"round\"><path d=\"m15 18-6-6 6-6\"/></svg>");
    reveal_strlit("<svg xmlns=\"http://www.w3.org/2000/svg\" width=\"24\" height=\"24\" viewBox=\"0 0 24 24\" fill=\"none\" stroke=\"currentColor\" stroke-width=\"2\" stroke-linecap=\"round\" stroke-linejoin=\"round\"><path d=\"m9 18 6-6-6-6\"/></svg>");
    reveal_strlit("<svg xmlns=\"http://www.w3.org/2000/svg\" width=\"24\" height=\"24\" viewBox=\"0 0 24 24\" fill=\"none\" stroke=\"currentColor\" stroke-width=\"2\" stroke-linecap=\"round\" stroke-linejoin=\"round\"><path d=\"M18 6 6 18\"/><path d=\"m6 6 12 12\"/></svg>");
    reveal_strlit("<svg xmlns=\"http://www.w3.org/2000/svg\" width=\"24\" height=\"24\" viewBox=\"0 0 24 24\" fill=\"none\" stroke=\"currentColor\" stroke-width=\"2\" stroke-linecap=\"round\" stroke-linejoin=\"round\"><path d=\"M20 6 9 17l-5-5\"/></svg>");
    reveal_strlit("<svg xmlns=\"http://www.w3.org/2000/svg\" width=\"24\" height=\"24\" viewBox=\"0 0 24 24\" fill=\"none\" stroke=\"currentColor\" stroke-width=\"2\" stroke-linecap=\"round\" stroke-linejoin=\"round\"><path d=\"M5 12h14\"/><path d=\"M12 5v14\"/></svg>");
    reveal_strlit("<svg xmlns=\"http://www.w3.org/2000/svg\" width=\"24\" height=\"24\" viewBox=\"0 0 24 24\" fill=\"none\" stroke=\"currentColor\" stroke-width=\"2\" stroke-linecap=\"round\" stroke-linejoin=\"round\"><path d=\"M5 12h14\"/></svg>");
    assert(CHEVRON_DOWN@.len() == 211);
    assert(CHEVRON_UP@.len() == 213);
    assert(CHEVRON_LEFT@.len() == 213);
    assert(CHEVRON_RIGHT@.len() == 212);
    assert(X@.len() == 231);
    assert(CHECK@.len() == 214);
    assert(PLUS@.len() == 227);
    assert(MINUS@.len() == 207);
    assert(CHEVRON_UP@[192] != CHEVRON_LEFT@[192]);
}

impl Icon {
    /// The SVG text of this icon.
    pub fn get_svg(&self) -> (r: &'static str)
        ensures
            r@ == svg_text(*self),
            r@.len() > 0,
            contains(r@, "<svg"@),
    {
        proof {
            lemma_svg_text_is_svg(*self);
        }
        match self {
            Icon::ChevronDown => CHEVRON_DOWN,
            Icon::ChevronUp => CHEVRON_UP,
            Icon::ChevronLeft => CHEVRON_LEFT,
            Icon::ChevronRight => CHEVRON_RIGHT,
            Icon::X => X,
            Icon::Check => CHECK,
            Icon::Plus => PLUS,
            Icon::Minus => MINUS,
        }
    }

    /// The name of this icon's variant, for debugging output.
    pub fn get_debug_name(&self) -> (r: &'static str)
        ensures
            r@ == debug_name_text(*self),
    {
        match self {
            Icon::ChevronDown => "ChevronDown",
            Icon::ChevronUp => "ChevronUp",
            Icon::ChevronLeft => "ChevronLeft",
            Icon::ChevronRight => "ChevronRight",
            Icon::X => "X",
            Icon::Check => "Check",
            Icon::Plus => "Plus",
            Icon::Minus => "Minus",
        }
    }
}

} // verus!
