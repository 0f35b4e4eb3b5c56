//! The decisions of the Lucide icon view: what a style pass does with the
//! resolved style properties, and what box layout gives the icon.
//!
//! Lengths are whole numbers of thousandths of a logical pixel.

use vstd::prelude::*;
use crate::icons::{contains, svg_text, Icon};
use crate::stroke::{stroke_substituted, substitute_stroke_width, STROKE_WIDTH_PREFIX};

verus! {

/// The stroke width that an icon has until its style sets another: 2 pixels.
pub const DEFAULT_STROKE_WIDTH: u32 = 2000;

/// The style properties that an icon reads on each style pass.
#[derive(Clone, Copy, Debug, PartialEq, Eq, Structural)]
pub struct LucideProps {
    /// The stroke width, in thousandths of a pixel.
    pub stroke_width: u32,
    /// The font size, in thousandths of a pixel, which sets the icon's
    /// side length where it is given.
    pub font_size: Option<u32>,
}

/// The properties before any style has been read.
pub open spec fn default_props() -> LucideProps {
    LucideProps { stroke_width: DEFAULT_STROKE_WIDTH as u32, font_size: None }
}

impl Default for LucideProps {
    fn default() -> (r: Self)
        ensures
            r == default_props(),
    {
        LucideProps { stroke_width: DEFAULT_STROKE_WIDTH, font_size: None }
    }
}

/// What a Lucide view is, seen from outside.
pub struct LucideModel {
    /// The SVG text that the view was made from.
    pub original: Seq<char>,
    /// The SVG text last handed to the inner SVG node.
    pub rendered: Seq<char>,
    /// The properties that the last style pass read.
    pub props: LucideProps,
    /// The side length of the square that layout gives the view, if set.
    pub size: Option<u32>,
}

/// The state of a Lucide view: its source text, the text it shows, and the
/// properties it last read.
pub struct Lucide {
    original_svg: String,
    rendered_svg: String,
    props: LucideProps,
    size: Option<u32>,
}

impl View for Lucide {
    type V = LucideModel;

    closed spec fn view(&self) -> LucideModel {
        LucideModel {
            original: self.original_svg@,
            rendered: self.rendered_svg@,
            props: self.props,
            size: self.size,
        }
    }
}

/// A view shows either its source text, or that text with the stroke width
/// it last read; a source text without a stroke-width attribute it shows
/// unchanged.
pub open spec fn model_wf(m: LucideModel) -> bool {
    &&& m.rendered == m.original || m.rendered == stroke_substituted(
        m.original,
        m.props.stroke_width as nat,
    )
    &&& !contains(m.original, STROKE_WIDTH_PREFIX@) ==> m.rendered == m.original
}

/// A fresh view of the SVG text `original`.
pub open spec fn initial_model(original: Seq<char>) -> LucideModel {
    LucideModel { original, rendered: original, props: default_props(), size: None }
}

/// Whether a style pass that reads `props` rewrites the SVG text.
pub open spec fn stroke_changed(m: LucideModel, props: LucideProps) -> bool {
    props.stroke_width != m.props.stroke_width
}

/// The view after a style pass that reads `props`.
pub open spec fn styled_model(m: LucideModel, props: LucideProps) -> LucideModel {
    LucideModel {
        original: m.original,
        rendered: if stroke_changed(m, props) {
            stroke_substituted(m.original, props.stroke_width as nat)
        } else {
            m.rendered
        },
        props,
        size: props.font_size,
    }
}

/// The box that layout gives a view whose content measured `width` by `height`.
pub open spec fn layout_box_of(m: LucideModel, width: u32, height: u32) -> (u32, u32) {
    match m.size {
        Some(n) => (n, n),
        None => (width, height),
    }
}

/// What the host is to do after a style pass.
pub struct StyleAction {
    /// The new SVG text for the inner SVG node, where it changed.
    pub svg_update: Option<String>,
    /// Whether the view's style, layout and paint must run again.
    pub request_all: bool,
}

/// Makes the view state of an icon from its SVG text.
pub fn lucide(original_svg: String) -> (r: Lucide)
    ensures
        r@ == initial_model(original_svg@),
        model_wf(r@),
{
    let rendered_svg = original_svg.clone();
    Lucide { original_svg, rendered_svg, props: LucideProps::default(), size: None }
}

impl Lucide {
    /// Takes in the properties that a style pass resolved. Where the stroke
    /// width differs from the last one read, the source text is rewritten
    /// with it and handed back for the inner SVG node; the size follows the
    /// font size.
    pub fn style_pass(&mut self, props: LucideProps) -> (r: StyleAction)
        requires
            model_wf(old(self)@),
        ensures
            final(self)@ == styled_model(old(self)@, props),
            model_wf(final(self)@),
            r.request_all == (props != old(self)@.props),
            stroke_changed(old(self)@, props) ==> (r.svg_update matches Some(s) && s@
                == final(self)@.rendered),
            !stroke_changed(old(self)@, props) ==> r.svg_update is None,
            !contains(final(self)@.original, STROKE_WIDTH_PREFIX@) ==> final(self)@.rendered
                == final(self)@.original,
    {
        let request_all = props.stroke_width != self.props.stroke_width || match (
            props.font_size,
            self.props.font_size,
        ) {
            (Some(a), Some(b)) => a != b,
            (None, None) => false,
            _ => true,
        };
        let svg_update = if props.stroke_width != self.props.stroke_width {
            let replaced = substitute_stroke_width(self.original_svg.as_str(), props.stroke_width);
            self.rendered_svg = replaced.clone();
            Some(replaced)
        } else {
            None
        };
        self.props = props;
        self.size = props.font_size;
        StyleAction { svg_update, request_all }
    }

    /// The box that layout gives this view, where its content measured
    /// `width` by `height`: a square of the set size, where one is set.
    pub fn layout_box(&self, width: u32, height: u32) -> (r: (u32, u32))
        ensures
            r == layout_box_of(self@, width, height),
    {
        match self.size {
            Some(n) => (n, n),
            None => (width, height),
        }
    }

    /// The SVG text that the view was made from.
    pub fn original_svg(&self) -> (r: &str)
        ensures
            r@ == self@.original,
    {
        self.original_svg.as_str()
    }

    /// The SVG text that the view shows.
    pub fn rendered_svg(&self) -> (r: &str)
        ensures
            r@ == self@.rendered,
    {
        self.rendered_svg.as_str()
    }

    /// The side length of the square that layout gives the view, if set.
    pub fn size(&self) -> (r: Option<u32>)
        ensures
            r == self@.size,
    {
        self.size
    }
}

impl Icon {
    /// The view state of this icon.
    pub fn view(&self) -> (r: Lucide)
        ensures
            r@ == initial_model(svg_text(*self)),
    {
        lucide(String::from_str(self.get_svg()))
    }
}

/// A second style pass with the same properties changes nothing and
/// rewrites no text.
pub proof fn lemma_style_pass_idempotent(m: LucideModel, props: LucideProps)
    ensures
        !stroke_changed(styled_model(m, props), props),
        styled_model(styled_model(m, props), props) == styled_model(m, props),
{
}

/// After a style pass that sets a size of `n`, layout gives the view an
/// `n` by `n` box, whatever its content measured.
pub proof fn lemma_size_override_is_square(
    m: LucideModel,
    props: LucideProps,
    n: u32,
    width: u32,
    height: u32,
)
    requires
        props.font_size == Some(n),
    ensures
        layout_box_of(styled_model(m, props), width, height) == (n, n),
{
}

} // verus!
