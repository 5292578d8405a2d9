//! Terminal cells: one character position with a glyph and two colors.

use vstd::prelude::*;

verus! {

/// A color as the terminal is asked to show it: 24-bit, or an index into the
/// 256-color palette.
#[derive(Clone, Copy, Debug, PartialEq, Eq, Structural)]
pub enum Color {
    Rgb(u8, u8, u8),
    Ansi256(u8),
}

/// What a cell draws. `Absent` marks a cell that is still being built.
#[derive(Clone, Copy, Debug, PartialEq, Eq, Structural)]
pub enum Glyph {
    UpperHalfBlock,
    LowerHalfBlock,
    Empty,
    Absent,
}

/// One terminal character position.
///
/// While a row is being built, `background` holds the color of the upper
/// pixel, `foreground` that of the lower pixel, and the glyph is `Absent`.
/// A cell with the glyph `Absent` and no colors draws nothing.
#[derive(Clone, Copy, Debug, PartialEq, Eq, Structural)]
pub struct Cell {
    pub glyph: Glyph,
    pub foreground: Option<Color>,
    pub background: Option<Color>,
}

/// How the two pixels of a cell are shown, decided once per cell.
#[derive(Clone, Copy, Debug, PartialEq, Eq, Structural)]
pub enum CellPaint {
    /// Both pixels have a color: upper, then lower.
    Full(Color, Color),
    /// Only the upper pixel has a color.
    TopOnly(Color),
    /// Only the lower pixel has a color.
    BottomOnly(Color),
    /// Neither pixel has a color.
    Empty,
}

/// The paint of a cell whose upper pixel shows `top` and whose lower pixel
/// shows `bottom`.
pub open spec fn paint_of(top: Option<Color>, bottom: Option<Color>) -> CellPaint {
    match (top, bottom) {
        (Some(t), Some(b)) => CellPaint::Full(t, b),
        (Some(t), None) => CellPaint::TopOnly(t),
        (None, Some(b)) => CellPaint::BottomOnly(b),
        (None, None) => CellPaint::Empty,
    }
}

/// The finished cell for a paint. With both pixels present the lower half
/// block is drawn in the lower pixel's color over a background in the upper
/// pixel's color. With one pixel present, the half block on that pixel's side
/// is drawn in its color and no background is set. With none, a space.
pub open spec fn cell_of(paint: CellPaint) -> Cell {
    match paint {
        CellPaint::Full(top, bottom) => Cell {
            glyph: Glyph::LowerHalfBlock,
            foreground: Some(bottom),
            background: Some(top),
        },
        CellPaint::TopOnly(top) => Cell {
            glyph: Glyph::UpperHalfBlock,
            foreground: Some(top),
            background: None,
        },
        CellPaint::BottomOnly(bottom) => Cell {
            glyph: Glyph::LowerHalfBlock,
            foreground: Some(bottom),
            background: None,
        },
        CellPaint::Empty => Cell { glyph: Glyph::Empty, foreground: None, background: None },
    }
}

/// The finished cell for a cell under construction. A lone last row
/// (`is_flush`) shows the upper pixel only.
pub open spec fn resolved(cell: Cell, is_flush: bool) -> Cell {
    cell_of(paint_of(cell.background, if is_flush { None } else { cell.foreground }))
}

impl CellPaint {
    /// Classifies the two pixels of a cell.
    pub fn classify(top: Option<Color>, bottom: Option<Color>) -> (paint: CellPaint)
        ensures
            paint == paint_of(top, bottom),
    {
        match top {
            Some(t) => match bottom {
                Some(b) => CellPaint::Full(t, b),
                None => CellPaint::TopOnly(t),
            },
            None => match bottom {
                Some(b) => CellPaint::BottomOnly(b),
                None => CellPaint::Empty,
            },
        }
    }

    /// The finished cell that shows this paint.
    pub fn to_cell(self) -> (cell: Cell)
        ensures
            cell == cell_of(self),
    {
        match self {
            CellPaint::Full(top, bottom) => Cell {
                glyph: Glyph::LowerHalfBlock,
                foreground: Some(bottom),
                background: Some(top),
            },
            CellPaint::TopOnly(top) => Cell {
                glyph: Glyph::UpperHalfBlock,
                foreground: Some(top),
                background: None,
            },
            CellPaint::BottomOnly(bottom) => Cell {
                glyph: Glyph::LowerHalfBlock,
                foreground: Some(bottom),
                background: None,
            },
            CellPaint::Empty => Cell { glyph: Glyph::Empty, foreground: None, background: None },
        }
    }
}

impl Cell {
    /// A cell under construction with neither color set.
    pub fn new() -> (cell: Cell)
        ensures
            cell == (Cell { glyph: Glyph::Absent, foreground: None, background: None }),
    {
        Cell { glyph: Glyph::Absent, foreground: None, background: None }
    }

    /// Sets or clears the foreground, the color of the lower pixel.
    pub fn set_fg(&mut self, color: Option<Color>)
        ensures
            *final(self) == (Cell { foreground: color, ..*old(self) }),
    {
        self.foreground = color;
    }

    /// Sets or clears the background, the color of the upper pixel.
    pub fn set_bg(&mut self, color: Option<Color>)
        ensures
            *final(self) == (Cell { background: color, ..*old(self) }),
    {
        self.background = color;
    }

    /// The foreground color.
    pub fn fg(&self) -> (color: Option<Color>)
        ensures
            color == self.foreground,
    {
        self.foreground
    }

    /// The background color.
    pub fn bg(&self) -> (color: Option<Color>)
        ensures
            color == self.background,
    {
        self.background
    }

    /// Finishes a cell under construction.
    pub fn resolve(&self, is_flush: bool) -> (cell: Cell)
        ensures
            cell == resolved(*self, is_flush),
    {
        let bottom = if is_flush { None } else { self.foreground };
        CellPaint::classify(self.background, bottom).to_cell()
    }
}

} // verus!
