//! Decorations behind the text.

use vstd::prelude::*;

use crate::math::Vec2D;
use crate::scalar::{ratio, ratio_spec, Scalar};
use crate::style::{Color, Tint};

verus! {

/// A decoration that is drawn behind the text.
#[derive(Clone, Copy, Debug, PartialEq)]
pub struct Decoration<S> {
    pub color: Tint,
    pub kind: DecorationKind<S>,
}

#[derive(Clone, Copy, Debug, PartialEq)]
pub enum DecorationKind<S> {
    /// A stroke round the glyphs, with this line width.
    Outline { width: S },
    /// A copy of the text, displaced by this much.
    Shadow { offset: Vec2D<S> },
}

/// A decorative effect; the Alt key goes through them in turn.
#[derive(Clone, Copy, Debug, PartialEq, Eq, Structural)]
pub enum TextEffect {
    Plain,
    Inverted,
    Contrast,
    Shadow,
}

impl Default for TextEffect {
    fn default() -> (r: Self)
        ensures
            r == TextEffect::Plain,
    {
        TextEffect::Plain
    }
}

/// The opacity of a shadow.
pub const SHADOW_ALPHA: u8 = 160;

impl TextEffect {
    pub open spec fn spec_next(self) -> Self {
        match self {
            TextEffect::Plain => TextEffect::Inverted,
            TextEffect::Inverted => TextEffect::Contrast,
            TextEffect::Contrast => TextEffect::Shadow,
            TextEffect::Shadow => TextEffect::Plain,
        }
    }

    /// The decoration of a text of the given colour, whose outlines are `line_width` wide.
    pub open spec fn spec_decoration<S: Scalar>(self, text_color: Color, line_width: S) -> Option<
        Decoration<S>,
    > {
        // The stroke is centred on the outline, and the text hides its inner half.
        let outline = DecorationKind::Outline {
            width: line_width.spec_times(S::spec_from_int(2)),
        };
        let distance = line_width.spec_times(ratio_spec(3, 2));
        match self {
            TextEffect::Plain => None,
            TextEffect::Inverted => Some(
                Decoration { color: Tint::Inverted(text_color), kind: outline },
            ),
            TextEffect::Contrast => Some(
                Decoration { color: Tint::Contrast(text_color), kind: outline },
            ),
            TextEffect::Shadow => Some(
                Decoration {
                    color: Tint::ContrastWithAlpha(text_color, SHADOW_ALPHA),
                    kind: DecorationKind::Shadow { offset: Vec2D { x: distance, y: distance } },
                },
            ),
        }
    }

    /// The effect that follows.
    pub fn next(self) -> (r: Self)
        ensures
            r == self.spec_next(),
    {
        match self {
            TextEffect::Plain => TextEffect::Inverted,
            TextEffect::Inverted => TextEffect::Contrast,
            TextEffect::Contrast => TextEffect::Shadow,
            TextEffect::Shadow => TextEffect::Plain,
        }
    }

    /// The decoration of a text of the given colour, whose outlines are `line_width` wide (which
    /// grows with the font), or none.
    pub fn decoration<S: Scalar>(self, text_color: Color, line_width: S) -> (r: Option<
        Decoration<S>,
    >)
        ensures
            r == self.spec_decoration(text_color, line_width),
    {
        match self {
            TextEffect::Plain => None,
            TextEffect::Inverted => Some(
                Decoration {
                    color: Tint::Inverted(text_color),
                    kind: DecorationKind::Outline { width: line_width.times(S::from_int(2)) },
                },
            ),
            TextEffect::Contrast => Some(
                Decoration {
                    color: Tint::Contrast(text_color),
                    kind: DecorationKind::Outline { width: line_width.times(S::from_int(2)) },
                },
            ),
            TextEffect::Shadow => {
                let distance = line_width.times(ratio(3, 2));
                Some(
                    Decoration {
                        color: Tint::ContrastWithAlpha(text_color, SHADOW_ALPHA),
                        kind: DecorationKind::Shadow { offset: Vec2D::new(distance, distance) },
                    },
                )
            },
        }
    }
}

} // verus!
