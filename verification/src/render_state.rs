//! The font and the colours that the grid is drawn with, and the back buffer.
use vstd::prelude::*;

verus! {

/// The font until neovim or the settings name another.
pub const DEFAULT_FONT_NAME: &'static str = "DejaVu Sans Mono 12";

/// Where a colour comes from.
#[derive(Clone, Copy, Debug, PartialEq, Eq, Structural)]
pub enum ColorChoice {
    /// The colour that a fresh colour model has.
    Initial,
    /// The colour with this number.
    Indexed(u64),
    Black,
    White,
    Red,
}

impl ColorChoice {
    /// What a colour number of neovim means: numbers below zero stand for `unset`.
    pub open spec fn from_number(number: i64, unset: ColorChoice) -> ColorChoice {
        if number >= 0 {
            ColorChoice::Indexed(number as u64)
        } else {
            unset
        }
    }

    /// The colour for a number that neovim sent, or `unset` where the number is below zero.
    pub fn choose_color(number: i64, unset: ColorChoice) -> (color: ColorChoice)
        ensures
            color == ColorChoice::from_number(number, unset),
    {
        if number >= 0 {
            ColorChoice::Indexed(number as u64)
        } else {
            unset
        }
    }
}

/// The colours of text that names none itself.
#[derive(Clone, Copy, Debug, PartialEq, Eq, Structural)]
pub struct ColorModel {
    pub bg_color: ColorChoice,
    pub fg_color: ColorChoice,
    pub sp_color: ColorChoice,
}

/// What the drawing code reads.
#[derive(Debug)]
pub struct RenderState {
    /// The font description in use.
    pub font_desc: String,
    pub color_model: ColorModel,
}

/// What a [`RenderState`] says.
pub struct RenderStateView {
    pub font_desc: Seq<char>,
    pub color_model: ColorModel,
}

impl View for RenderState {
    type V = RenderStateView;

    open spec fn view(&self) -> RenderStateView {
        RenderStateView { font_desc: self.font_desc@, color_model: self.color_model }
    }
}

impl RenderStateView {
    /// The default font and the colours of a fresh colour model.
    pub open spec fn initial() -> RenderStateView {
        RenderStateView {
            font_desc: DEFAULT_FONT_NAME@,
            color_model: ColorModel {
                bg_color: ColorChoice::Initial,
                fg_color: ColorChoice::Initial,
                sp_color: ColorChoice::Initial,
            },
        }
    }
}

impl RenderState {
    pub fn new() -> (render_state: Self)
        ensures
            render_state@ == RenderStateView::initial(),
    {
        RenderState {
            font_desc: DEFAULT_FONT_NAME.to_owned(),
            color_model: ColorModel {
                bg_color: ColorChoice::Initial,
                fg_color: ColorChoice::Initial,
                sp_color: ColorChoice::Initial,
            },
        }
    }
}

/// The size of the back buffer, in pixels.
#[derive(Clone, Copy, Debug, PartialEq, Eq, Structural)]
pub struct Surface {
    pub width: i32,
    pub height: i32,
}

impl Surface {
    /// A back buffer for a drawing area of this size.
    pub fn new(width: i32, height: i32) -> (surface: Self)
        ensures
            surface == (Surface { width, height }),
    {
        Surface { width, height }
    }
}

} // verus!
