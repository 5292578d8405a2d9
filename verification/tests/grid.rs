use viu::cell::{Cell, CellPaint, Color, Glyph};
use viu::grid::{Pixel, PixelGrid};

const P: Pixel = Pixel { r: 1, g: 2, b: 3, a: 4 };

#[test]
fn grid_needs_one_pixel_per_position() {
    assert!(PixelGrid::new(2, 3, vec![P; 6]).is_some());
    assert!(PixelGrid::new(2, 3, vec![P; 5]).is_none());
    assert!(PixelGrid::new(2, 3, vec![P; 7]).is_none());
    assert!(PixelGrid::new(0, 3, vec![]).is_some());
    assert!(PixelGrid::new(0, 3, vec![P]).is_none());
    assert!(PixelGrid::new(u32::MAX, u32::MAX, vec![P]).is_none());
}

#[test]
fn grid_is_row_major() {
    let pixels: Vec<Pixel> = (0..6).map(|i| Pixel { r: i, g: 0, b: 0, a: 255 }).collect();
    let grid = PixelGrid::new(3, 2, pixels).unwrap();
    assert_eq!(grid.width(), 3);
    assert_eq!(grid.height(), 2);
    assert_eq!(grid.pixel(0, 0).r, 0);
    assert_eq!(grid.pixel(0, 2).r, 2);
    assert_eq!(grid.pixel(1, 0).r, 3);
    assert_eq!(grid.pixel(1, 2).r, 5);
    assert_eq!(grid.get(1, 1).map(|p| p.r), Some(4));
    assert_eq!(grid.get(2, 0), None);
    assert_eq!(grid.get(0, 3), None);
}

#[test]
fn grid_from_rgba_bytes() {
    let bytes = [1, 2, 3, 4, 5, 6, 7, 8];
    let grid = PixelGrid::from_rgba(2, 1, &bytes).unwrap();
    assert_eq!(grid.pixel(0, 0), Pixel { r: 1, g: 2, b: 3, a: 4 });
    assert_eq!(grid.pixel(0, 1), Pixel { r: 5, g: 6, b: 7, a: 8 });
    assert!(PixelGrid::from_rgba(1, 1, &bytes).is_none());
    assert!(PixelGrid::from_rgba(2, 1, &bytes[..7]).is_none());
    assert!(PixelGrid::from_rgba(1, 2, &bytes).is_some());
    assert!(PixelGrid::from_rgba(0, 0, &[]).is_some());
    assert!(PixelGrid::from_rgba(0, 0, &[1, 2, 3]).is_none());
}

#[test]
fn cell_under_construction() {
    let mut cell = Cell::new();
    assert_eq!(cell, Cell { glyph: Glyph::Absent, foreground: None, background: None });
    cell.set_bg(Some(Color::Rgb(1, 1, 1)));
    assert_eq!(cell.bg(), Some(Color::Rgb(1, 1, 1)));
    assert_eq!(cell.fg(), None);
    cell.set_fg(Some(Color::Rgb(2, 2, 2)));
    assert_eq!(cell.fg(), Some(Color::Rgb(2, 2, 2)));
    cell.set_bg(None);
    assert_eq!(cell.bg(), None);
    assert_eq!(cell.glyph, Glyph::Absent);
}

#[test]
fn paint_is_decided_by_which_halves_are_present() {
    let a = Color::Rgb(1, 1, 1);
    let b = Color::Rgb(2, 2, 2);
    assert_eq!(CellPaint::classify(Some(a), Some(b)), CellPaint::Full(a, b));
    assert_eq!(CellPaint::classify(Some(a), None), CellPaint::TopOnly(a));
    assert_eq!(CellPaint::classify(None, Some(b)), CellPaint::BottomOnly(b));
    assert_eq!(CellPaint::classify(None, None), CellPaint::Empty);
}

#[test]
fn paint_to_cell() {
    let a = Color::Rgb(1, 1, 1);
    let b = Color::Rgb(2, 2, 2);
    assert_eq!(
        CellPaint::Full(a, b).to_cell(),
        Cell { glyph: Glyph::LowerHalfBlock, foreground: Some(b), background: Some(a) }
    );
    assert_eq!(
        CellPaint::TopOnly(a).to_cell(),
        Cell { glyph: Glyph::UpperHalfBlock, foreground: Some(a), background: None }
    );
    assert_eq!(
        CellPaint::BottomOnly(b).to_cell(),
        Cell { glyph: Glyph::LowerHalfBlock, foreground: Some(b), background: None }
    );
    assert_eq!(
        CellPaint::Empty.to_cell(),
        Cell { glyph: Glyph::Empty, foreground: None, background: None }
    );
}

#[test]
fn resolving_a_cell() {
    let a = Color::Rgb(1, 1, 1);
    let b = Color::Rgb(2, 2, 2);
    let cell = Cell { glyph: Glyph::Absent, foreground: Some(b), background: Some(a) };
    assert_eq!(
        cell.resolve(false),
        Cell { glyph: Glyph::LowerHalfBlock, foreground: Some(b), background: Some(a) }
    );
    assert_eq!(
        cell.resolve(true),
        Cell { glyph: Glyph::UpperHalfBlock, foreground: Some(a), background: None }
    );
    let bottom = Cell { glyph: Glyph::Absent, foreground: Some(b), background: None };
    assert_eq!(
        bottom.resolve(false),
        Cell { glyph: Glyph::LowerHalfBlock, foreground: Some(b), background: None }
    );
    assert_eq!(
        bottom.resolve(true),
        Cell { glyph: Glyph::Empty, foreground: None, background: None }
    );
}
