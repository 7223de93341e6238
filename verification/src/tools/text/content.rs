//! A text on the image, and what of it is shown.

use vstd::prelude::*;

use super::effect::TextEffect;
use super::index::{byte_index, byte_index_from_char_index, byte_len};
use crate::canvas::ByteRange;
use crate::ime::{InputContext, Preedit};
use crate::math::{Rectangle, Vec2D};
use crate::style::Style;

verus! {

/// Where the last drawing of a text has put it: the rectangle round it, the rectangles of its
/// characters line by line, and the bytes of the lines.
#[derive(Debug, PartialEq)]
pub struct TextLayout {
    pub rect: Rectangle,
    pub glyphs: Vec<Vec<Rectangle>>,
    pub line_ranges: Vec<ByteRange>,
}

/// A text on the image. What it says is in one of the host's text buffers, which `buffer` names;
/// `font_ids` names the fonts that it is set in.
#[derive(Debug, PartialEq)]
pub struct Text<S> {
    pub pos: Vec2D<S>,
    pub editing: bool,
    pub buffer: u64,
    pub style: Style,
    pub preedit: Option<Preedit>,
    pub im_context: Option<InputContext>,
    /// None before the text was drawn first.
    pub layout: Option<TextLayout>,
    pub cursor_visible: bool,
    pub draw_rect: bool,
    pub effect: TextEffect,
    pub font_ids: Vec<u64>,
}

/// What is shown of a text: its characters, those that are being composed among them, with the
/// byte at which the cursor stands and the bytes that are being composed.
#[derive(Debug, PartialEq)]
pub struct DisplayContent {
    pub text: String,
    pub cursor_byte_pos: usize,
    pub preedit_range: Option<ByteRange>,
}

/// The place of the cursor in a text that is being composed: never beyond its end.
pub open spec fn preedit_cursor(preedit: Preedit) -> int {
    match preedit.cursor_chars {
        Some(n) if n < preedit.text@.len() => n as int,
        _ => preedit.text@.len() as int,
    }
}

impl<S> Text<S> {
    /// The text that is being composed, if it shows.
    pub open spec fn shown_preedit(self) -> Option<Preedit> {
        match self.preedit {
            Some(preedit) if self.editing && preedit.text@.len() > 0 => Some(preedit),
            _ => None,
        }
    }

    /// What is shown where the buffer holds `base` and its cursor stands before the character
    /// with index `cursor`: the text that is being composed is put in at the cursor.
    pub open spec fn displays(self, base: Seq<char>, cursor: int, shown: DisplayContent) -> bool {
        let at = byte_index(base, cursor);
        let k = if cursor < base.len() {
            cursor
        } else {
            base.len() as int
        };
        match self.shown_preedit() {
            None => {
                &&& shown.text@ == base
                &&& shown.cursor_byte_pos == at
                &&& shown.preedit_range is None
            },
            Some(preedit) => {
                &&& shown.text@ == base.take(k) + preedit.text@ + base.skip(k)
                &&& shown.cursor_byte_pos == at + byte_index(preedit.text@, preedit_cursor(preedit))
                &&& shown.preedit_range matches Some(range) && range.start == at && range.end == at
                    + byte_len(preedit.text@)
            },
        }
    }

    /// A text that is about to be written at `pos`, in an empty buffer.
    pub open spec fn spec_new(
        pos: Vec2D<S>,
        style: Style,
        im_context: Option<InputContext>,
        buffer: u64,
        font_ids: Vec<u64>,
    ) -> Self {
        Text {
            pos,
            editing: true,
            buffer,
            style,
            preedit: None,
            im_context,
            layout: None,
            cursor_visible: true,
            draw_rect: true,
            effect: TextEffect::Plain,
            font_ids,
        }
    }

    pub fn new(
        pos: Vec2D<S>,
        style: Style,
        im_context: Option<InputContext>,
        buffer: u64,
        font_ids: Vec<u64>,
    ) -> (r: Self)
        ensures
            r == Self::spec_new(pos, style, im_context, buffer, font_ids),
    {
        Text {
            pos,
            editing: true,
            buffer,
            style,
            preedit: None,
            im_context,
            layout: None,
            cursor_visible: true,
            draw_rect: true,
            effect: TextEffect::default(),
            font_ids,
        }
    }

    /// What is shown of the text, whose buffer holds `base_text` with the cursor before the
    /// character with index `cursor_char_index`. The whole has to fit into memory.
    pub fn display_text(&self, base_text: &str, cursor_char_index: usize) -> (r: DisplayContent)
        requires
            self.shown_preedit() matches Some(preedit) ==> byte_len(base_text@) + byte_len(
                preedit.text@,
            ) <= usize::MAX,
        ensures
            self.displays(base_text@, cursor_char_index as int, r),
    {
        let base_cursor_byte = byte_index_from_char_index(base_text, cursor_char_index);
        if self.editing {
            if let Some(preedit) = &self.preedit {
                if preedit.text.as_str().is_empty() {
                    return DisplayContent {
                        text: base_text.to_owned(),
                        cursor_byte_pos: base_cursor_byte,
                        preedit_range: None,
                    };
                }
                let base_chars: usize = base_text.unicode_len();
                let at: usize = if cursor_char_index < base_chars {
                    cursor_char_index
                } else {
                    base_chars
                };
                let mut composed = base_text.substring_char(0, at).to_owned();
                composed.append(preedit.text.as_str());
                composed.append(base_text.substring_char(at, base_chars));

                let preedit_char_len: usize = preedit.text.as_str().unicode_len();
                let cursor_chars: usize = match preedit.cursor_chars {
                    Some(value) => if value < preedit_char_len {
                        value
                    } else {
                        preedit_char_len
                    },
                    None => preedit_char_len,
                };
                let preedit_cursor_byte = byte_index_from_char_index(
                    preedit.text.as_str(),
                    cursor_chars,
                );
                let preedit_bytes: usize = preedit.text.as_str().as_bytes().len();
                return DisplayContent {
                    text: composed,
                    cursor_byte_pos: base_cursor_byte + preedit_cursor_byte,
                    preedit_range: Some(
                        ByteRange {
                            start: base_cursor_byte,
                            end: base_cursor_byte + preedit_bytes,
                        },
                    ),
                };
            }
        }
        DisplayContent {
            text: base_text.to_owned(),
            cursor_byte_pos: base_cursor_byte,
            preedit_range: None,
        }
    }
}

} // verus!
