//! The cell renderer: two pixel rows become one row of terminal cells.

use crate::ansi::{ansi256_from_rgb, color_bytes, color_sequence, palette_index};
use crate::cell::{cell_of, paint_of, resolved, Cell, CellPaint, Color, Glyph};
use crate::grid::{GridView, Pixel, PixelGrid};
use vstd::prelude::*;

verus! {

/// Which pixel row of a pair is being read: the upper one fills the
/// backgrounds of the row buffer, the lower one the foregrounds.
#[derive(Clone, Copy, Debug, PartialEq, Eq, Structural)]
pub enum Status {
    TopRow,
    BottomRow,
}

/// The gray that stands for a transparent pixel at a position: the two
/// grays alternate like the squares of a chess board.
pub open spec fn transparency_color(row: int, col: int) -> Color {
    if row % 2 == col % 2 {
        Color::Rgb(102, 102, 102)
    } else {
        Color::Rgb(153, 153, 153)
    }
}

/// The color that a pixel shows at a position, or `None` where it shows
/// nothing: a transparent pixel while transparency is passed through.
pub open spec fn display_color(pixel: Pixel, row: int, col: int, transparent: bool) -> Option<
    Color,
> {
    if pixel.a == 0 {
        if transparent {
            None
        } else {
            Some(transparency_color(row, col))
        }
    } else {
        Some(Color::Rgb(pixel.r, pixel.g, pixel.b))
    }
}

/// The number of terminal rows that `height` pixel rows occupy.
pub open spec fn terminal_rows(height: nat) -> nat {
    (height + 1) / 2
}

/// The finished cell in terminal row `row`, column `col`: pixel row `2 * row`
/// is its upper half and pixel row `2 * row + 1`, where the grid has one, its
/// lower half.
pub open spec fn cell_at(grid: GridView, row: int, col: int, transparent: bool) -> Cell {
    let top = display_color(grid.pixel(2 * row, col), 2 * row, col, transparent);
    let bottom = if 2 * row + 1 < grid.height {
        display_color(grid.pixel(2 * row + 1, col), 2 * row + 1, col, transparent)
    } else {
        None
    };
    cell_of(paint_of(top, bottom))
}

/// The cells of terminal row `row`.
pub open spec fn row_cells(grid: GridView, row: int, transparent: bool) -> Seq<Cell> {
    Seq::new(grid.width, |col: int| cell_at(grid, row, col, transparent))
}

/// All terminal rows of a grid, top to bottom.
pub open spec fn rendered(grid: GridView, transparent: bool) -> Seq<Seq<Cell>> {
    Seq::new(terminal_rows(grid.height), |row: int| row_cells(grid, row, transparent))
}

/// A color as it is written out: unchanged on a truecolor terminal, else
/// replaced by its nearest entry of the 256-color palette.
pub open spec fn encoded_color(color: Color, truecolor: bool) -> Color {
    match color {
        Color::Rgb(r, g, b) => if truecolor {
            color
        } else {
            Color::Ansi256(palette_index(r, g, b))
        },
        Color::Ansi256(_) => color,
    }
}

/// `encoded_color` under an `Option`.
pub open spec fn encoded_option(color: Option<Color>, truecolor: bool) -> Option<Color> {
    match color {
        Some(c) => Some(encoded_color(c, truecolor)),
        None => None,
    }
}

/// A cell with both colors as they are written out.
pub open spec fn encoded_cell(cell: Cell, truecolor: bool) -> Cell {
    Cell {
        glyph: cell.glyph,
        foreground: encoded_option(cell.foreground, truecolor),
        background: encoded_option(cell.background, truecolor),
    }
}

/// Rows of cells with all colors as they are written out.
pub open spec fn encoded_rows(rows: Seq<Seq<Cell>>, truecolor: bool) -> Seq<Seq<Cell>> {
    Seq::new(
        rows.len(),
        |row: int| Seq::new(rows[row].len(), |col: int| encoded_cell(rows[row][col], truecolor)),
    )
}

/// The UTF-8 bytes of a glyph: U+2580, U+2584, a space, or nothing.
pub open spec fn glyph_bytes(glyph: Glyph) -> Seq<u8> {
    match glyph {
        Glyph::UpperHalfBlock => seq![0xe2u8, 0x96u8, 0x80u8],
        Glyph::LowerHalfBlock => seq![0xe2u8, 0x96u8, 0x84u8],
        Glyph::Empty => seq![0x20u8],
        Glyph::Absent => Seq::empty(),
    }
}

/// Whether a cell draws nothing at all: it has no glyph and no color.
pub open spec fn is_blank(cell: Cell) -> bool {
    cell.glyph == Glyph::Absent && cell.foreground is None && cell.background is None
}

/// The bytes of one cell: its colors are set, then its glyph is written. A
/// cell without glyph and colors is written as nothing.
pub open spec fn cell_bytes(cell: Cell) -> Seq<u8> {
    if is_blank(cell) {
        Seq::empty()
    } else {
        color_bytes(cell.foreground, cell.background) + glyph_bytes(cell.glyph)
    }
}

/// The bytes of a run of finished cells.
pub open spec fn cells_bytes(cells: Seq<Cell>) -> Seq<u8>
    decreases cells.len(),
{
    if cells.len() == 0 {
        Seq::empty()
    } else {
        cells_bytes(cells.drop_last()) + cell_bytes(cells.last())
    }
}

/// The bytes of one terminal row: its cells, a color reset, a line feed.
pub open spec fn row_bytes(cells: Seq<Cell>) -> Seq<u8> {
    cells_bytes(cells) + color_bytes(None, None) + seq![0x0au8]
}

/// The bytes of a run of terminal rows.
pub open spec fn rows_bytes(rows: Seq<Seq<Cell>>) -> Seq<u8>
    decreases rows.len(),
{
    if rows.len() == 0 {
        Seq::empty()
    } else {
        rows_bytes(rows.drop_last()) + row_bytes(rows.last())
    }
}

/// The bytes of a whole picture: its rows with colors as they are written
/// out, and a last color reset.
pub open spec fn picture_bytes(rows: Seq<Seq<Cell>>, truecolor: bool) -> Seq<u8> {
    rows_bytes(encoded_rows(rows, truecolor)) + color_bytes(None, None)
}

/// The chunks in which a picture is written: one per terminal row, then the
/// last color reset.
pub open spec fn picture_chunks(rows: Seq<Seq<Cell>>, truecolor: bool) -> Seq<Seq<u8>> {
    Seq::new(
        rows.len() + 1,
        |k: int|
            if k < rows.len() {
                row_bytes(encoded_rows(rows, truecolor)[k])
            } else {
                color_bytes(None, None)
            },
    )
}

/// Chunks of bytes, one after the other.
pub open spec fn joined(chunks: Seq<Seq<u8>>) -> Seq<u8>
    decreases chunks.len(),
{
    if chunks.len() == 0 {
        Seq::empty()
    } else {
        joined(chunks.drop_last()) + chunks.last()
    }
}

/// The finished cells of a row buffer.
pub open spec fn resolved_row(buffer: Seq<Cell>, is_flush: bool) -> Seq<Cell> {
    Seq::new(buffer.len(), |col: int| resolved(buffer[col], is_flush))
}

/// Whether a pixel, given as column, row and data, is fully transparent.
pub fn is_pixel_transparent(pixel: (u32, u32, Pixel)) -> (transparent: bool)
    ensures
        transparent == (pixel.2.a == 0),
{
    let (_x, _y, data) = pixel;
    data.a == 0
}

/// The chess board gray for the pixel in row `row`, column `col`.
pub fn get_transparency_color(row: u32, col: u32) -> (color: Color)
    ensures
        color == transparency_color(row as int, col as int),
{
    if row % 2 == col % 2 {
        Color::Rgb(102, 102, 102)
    } else {
        Color::Rgb(153, 153, 153)
    }
}

/// The pixel's own color, alpha left aside.
pub fn get_color_from_pixel(pixel: (u32, u32, Pixel)) -> (color: Color)
    ensures
        color == Color::Rgb(pixel.2.r, pixel.2.g, pixel.2.b),
{
    let (_x, _y, data) = pixel;
    Color::Rgb(data.r, data.g, data.b)
}

/// The color that a pixel, given as column, row and data, shows.
pub fn get_display_color(pixel: (u32, u32, Pixel), transparent: bool) -> (color: Option<Color>)
    ensures
        color == display_color(pixel.2, pixel.1 as int, pixel.0 as int, transparent),
{
    if is_pixel_transparent(pixel) {
        if transparent {
            None
        } else {
            Some(get_transparency_color(pixel.1, pixel.0))
        }
    } else {
        Some(get_color_from_pixel(pixel))
    }
}

/// The size of a rendered grid in terminal cells: columns, then rows.
pub fn rendered_size(img: &PixelGrid) -> (size: (u32, u32))
    ensures
        size.0 == img@.width,
        size.1 == terminal_rows(img@.height),
{
    let height: u32 = img.height();
    (img.width(), height / 2 + height % 2)
}

/// Whether the row buffer holds one cell per column.
pub fn is_buffer_full(buffer: &[Cell], width: u32) -> (full: bool)
    ensures
        full == (buffer@.len() == width),
{
    buffer.len() == width as usize
}

impl Color {
    /// The color as it is written out.
    pub fn encode(self, truecolor: bool) -> (color: Color)
        ensures
            color == encoded_color(self, truecolor),
    {
        match self {
            Color::Rgb(r, g, b) => if truecolor {
                self
            } else {
                Color::Ansi256(ansi256_from_rgb(r, g, b))
            },
            Color::Ansi256(_) => self,
        }
    }
}

/// `Color::encode` under an `Option`.
pub fn encode_option(color: Option<Color>, truecolor: bool) -> (encoded: Option<Color>)
    ensures
        encoded == encoded_option(color, truecolor),
{
    match color {
        Some(c) => Some(c.encode(truecolor)),
        None => None,
    }
}

/// Appends the bytes of one cell to the output: the sequence that sets its
/// colors, passed in as `colors`, then the bytes of its glyph.
pub fn write_glyph(out: &mut Vec<u8>, colors: Vec<u8>, glyph: Glyph)
    ensures
        final(out)@ == old(out)@ + colors@ + glyph_bytes(glyph),
{
    let mut colors = colors;
    out.append(&mut colors);
    match glyph {
        Glyph::UpperHalfBlock => {
            out.push(0xe2);
            out.push(0x96);
            out.push(0x80);
        },
        Glyph::LowerHalfBlock => {
            out.push(0xe2);
            out.push(0x96);
            out.push(0x84);
        },
        Glyph::Empty => {
            out.push(0x20);
        },
        Glyph::Absent => {},
    }
}

/// Appends the bytes of one cell to the output.
pub fn write_cell(out: &mut Vec<u8>, cell: &Cell)
    ensures
        final(out)@ == old(out)@ + cell_bytes(*cell),
{
    let blank = match cell.glyph {
        Glyph::Absent => cell.foreground.is_none() && cell.background.is_none(),
        _ => false,
    };
    if !blank {
        let colors = color_sequence(cell.foreground, cell.background);
        write_glyph(out, colors, cell.glyph);
    }
}

/// Appends the sequence that sets the colors of `color`.
fn change_color(out: &mut Vec<u8>, color: &Cell)
    ensures
        final(out)@ == old(out)@ + color_bytes(color.foreground, color.background),
{
    let mut sequence = color_sequence(color.foreground, color.background);
    out.append(&mut sequence);
}

/// Appends the sequence that resets the colors to the terminal's default.
fn clear_printer(out: &mut Vec<u8>)
    ensures
        final(out)@ == old(out)@ + color_bytes(None, None),
{
    let c = Cell::new();
    change_color(out, &c);
}

/// Appends a line feed.
fn write_newline(out: &mut Vec<u8>)
    ensures
        final(out)@ == old(out)@ + seq![0x0au8],
{
    out.push(0x0a);
}

/// Finishes the cells of a row buffer and returns the bytes of that terminal
/// row; the buffer is left empty. With `is_flush` the buffer holds a lone
/// last pixel row, shown by upper half blocks.
pub fn print_buffer(buff: &mut Vec<Cell>, is_flush: bool) -> (out: Vec<u8>)
    ensures
        final(buff)@.len() == 0,
        out@ == row_bytes(resolved_row(old(buff)@, is_flush)),
{
    let mut out: Vec<u8> = Vec::new();
    let count: usize = buff.len();
    let ghost cells = resolved_row(buff@, is_flush);
    let mut i: usize = 0;
    while i < count
        invariant
            i <= count,
            count == buff@.len(),
            buff@ == old(buff)@,
            cells == resolved_row(buff@, is_flush),
            out@ == cells_bytes(cells.take(i as int)),
        decreases count - i,
    {
        let cell = buff[i].resolve(is_flush);
        write_cell(&mut out, &cell);
        proof {
            assert(cells.take(i + 1).drop_last() == cells.take(i as int));
            assert(cells.take(i + 1).last() == cell);
        }
        i += 1;
    }
    proof {
        assert(cells.take(count as int) == cells);
    }
    clear_printer(&mut out);
    write_newline(&mut out);
    buff.clear();
    out
}

/// Finishing a cell commutes with encoding its colors.
proof fn lemma_encode_then_finish(top: Option<Color>, bottom: Option<Color>, truecolor: bool)
    ensures
        cell_of(paint_of(encoded_option(top, truecolor), encoded_option(bottom, truecolor)))
            == encoded_cell(cell_of(paint_of(top, bottom)), truecolor),
{
}

/// The cell under construction in column `col` once the upper pixel row
/// `row` has been read.
spec fn top_half(grid: GridView, row: int, col: int, transparent: bool, truecolor: bool) -> Cell {
    Cell {
        glyph: Glyph::Absent,
        foreground: None,
        background: encoded_option(
            display_color(grid.pixel(row, col), row, col, transparent),
            truecolor,
        ),
    }
}

/// The cell under construction in column `col` once the lower pixel row
/// `row` has been read too.
spec fn both_halves(
    grid: GridView,
    row: int,
    col: int,
    transparent: bool,
    truecolor: bool,
) -> Cell {
    Cell {
        glyph: Glyph::Absent,
        foreground: encoded_option(
            display_color(grid.pixel(row, col), row, col, transparent),
            truecolor,
        ),
        background: encoded_option(
            display_color(grid.pixel(row - 1, col), row - 1, col, transparent),
            truecolor,
        ),
    }
}

/// Renders a grid to finished cells, one inner vector per terminal row.
/// Colors are the pixels' own: how a terminal is told of them plays no part.
pub fn render(img: &PixelGrid, transparent: bool) -> (rows: Vec<Vec<Cell>>)
    ensures
        rows@.len() == rendered(img@, transparent).len(),
        forall|row: int|
            0 <= row < rows@.len() ==> (#[trigger] rows@[row])@ == rendered(img@, transparent)[row],
{
    let width: u32 = img.width();
    let height: u32 = img.height();
    let count: u32 = height / 2 + height % 2;
    let mut rows: Vec<Vec<Cell>> = Vec::new();
    let mut row: u32 = 0;
    while row < count
        invariant
            width == img@.width,
            height == img@.height,
            count == terminal_rows(img@.height),
            row <= count,
            rows@.len() == row,
            forall|k: int|
                0 <= k < row ==> (#[trigger] rows@[k])@ == row_cells(img@, k, transparent),
        decreases count - row,
    {
        let upper: u32 = 2 * row;
        let mut cells: Vec<Cell> = Vec::new();
        let mut col: u32 = 0;
        while col < width
            invariant
                width == img@.width,
                height == img@.height,
                upper == 2 * row,
                upper < height,
                col <= width,
                cells@.len() == col,
                forall|c: int|
                    0 <= c < col ==> #[trigger] cells@[c] == cell_at(
                        img@,
                        row as int,
                        c,
                        transparent,
                    ),
            decreases width - col,
        {
            let top = get_display_color((col, upper, img.pixel(upper, col)), transparent);
            let bottom = if upper + 1 < height {
                get_display_color((col, upper + 1, img.pixel(upper + 1, col)), transparent)
            } else {
                None
            };
            cells.push(CellPaint::classify(top, bottom).to_cell());
            col += 1;
        }
        assert(cells@ == row_cells(img@, row as int, transparent));
        rows.push(cells);
        row += 1;
    }
    rows
}

/// The chunks of a picture, joined, are the bytes of the picture.
pub proof fn lemma_chunks_join(rows: Seq<Seq<Cell>>, truecolor: bool)
    ensures
        joined(picture_chunks(rows, truecolor)) == picture_bytes(rows, truecolor),
{
    let chunks = picture_chunks(rows, truecolor);
    let lines = encoded_rows(rows, truecolor);
    assert(chunks.drop_last().len() == lines.len());
    lemma_row_chunks_join(chunks.drop_last(), lines, lines.len() as int);
    assert(chunks.drop_last().take(lines.len() as int) == chunks.drop_last());
    assert(lines.take(lines.len() as int) == lines);
}

/// Chunks that hold the bytes of one terminal row each join to the bytes of
/// those rows.
proof fn lemma_row_chunks_join(chunks: Seq<Seq<u8>>, lines: Seq<Seq<Cell>>, count: int)
    requires
        0 <= count <= lines.len(),
        count <= chunks.len(),
        forall|k: int| 0 <= k < count ==> chunks[k] == row_bytes(lines[k]),
    ensures
        joined(chunks.take(count)) == rows_bytes(lines.take(count)),
    decreases count,
{
    if count > 0 {
        lemma_row_chunks_join(chunks, lines, count - 1);
        assert(chunks.take(count).drop_last() == chunks.take(count - 1));
        assert(lines.take(count).drop_last() == lines.take(count - 1));
    }
}

/// Renders a grid to the bytes that draw it on a terminal: per terminal row
/// the cells, a color reset and a line feed, and after the last row one
/// more color reset.
pub fn print(img: &PixelGrid, transparent: bool, truecolor: bool) -> (out: Vec<u8>)
    ensures
        out@ == picture_bytes(rendered(img@, transparent), truecolor),
{
    let mut chunks = print_rows(img, transparent, truecolor);
    let ghost parts = picture_chunks(rendered(img@, transparent), truecolor);
    let count: usize = chunks.len();
    let mut out: Vec<u8> = Vec::new();
    let mut k: usize = 0;
    while k < count
        invariant
            k <= count,
            count == chunks@.len(),
            count == parts.len(),
            forall|j: int| k <= j < count ==> (#[trigger] chunks@[j])@ == parts[j],
            out@ == joined(parts.take(k as int)),
        decreases count - k,
    {
        let mut chunk: Vec<u8> = Vec::new();
        std::mem::swap(&mut chunk, &mut chunks[k]);
        proof {
            assert(parts.take(k + 1).drop_last() == parts.take(k as int));
        }
        out.append(&mut chunk);
        k += 1;
    }
    proof {
        assert(parts.take(count as int) == parts);
        lemma_chunks_join(rendered(img@, transparent), truecolor);
    }
    out
}

/// Renders a grid to the chunks in which it is written to a terminal: one
/// chunk per terminal row, with the cells, a color reset and a line feed,
/// and a last chunk with one more color reset. Pixel rows are read in
/// order, the upper row of a pair into the backgrounds of a row buffer and
/// the lower row into its foregrounds; a lone last row is drawn with upper
/// half blocks.
pub fn print_rows(img: &PixelGrid, transparent: bool, truecolor: bool) -> (chunks: Vec<Vec<u8>>)
    ensures
        chunks@.len() == picture_chunks(rendered(img@, transparent), truecolor).len(),
        forall|k: int|
            0 <= k < chunks@.len() ==> (#[trigger] chunks@[k])@ == picture_chunks(
                rendered(img@, transparent),
                truecolor,
            )[k],
{
    let width: u32 = img.width();
    let height: u32 = img.height();
    let ghost lines = encoded_rows(rendered(img@, transparent), truecolor);
    let mut chunks: Vec<Vec<u8>> = Vec::new();
    let mut buffer: Vec<Cell> = Vec::new();
    let mut mode: Status = Status::TopRow;
    let mut curr_row_px: u32 = 0;
    while curr_row_px < height
        invariant
            width == img@.width,
            height == img@.height,
            lines == encoded_rows(rendered(img@, transparent), truecolor),
            curr_row_px <= height,
            (mode == Status::TopRow) <==> curr_row_px % 2 == 0,
            chunks@.len() == curr_row_px as int / 2,
            forall|k: int| 0 <= k < chunks@.len() ==> (#[trigger] chunks@[k])@ == row_bytes(lines[k]),
            mode == Status::TopRow ==> buffer@.len() == 0,
            mode == Status::BottomRow ==> buffer@.len() == width,
            mode == Status::BottomRow ==> forall|c: int|
                0 <= c < width ==> #[trigger] buffer@[c] == top_half(
                    img@,
                    curr_row_px - 1,
                    c,
                    transparent,
                    truecolor,
                ),
        decreases height - curr_row_px,
    {
        match mode {
            Status::TopRow => {
                let mut curr_col_px: u32 = 0;
                while !is_buffer_full(buffer.as_slice(), width)
                    invariant
                        width == img@.width,
                        height == img@.height,
                        curr_row_px < height,
                        curr_col_px <= width,
                        buffer@.len() == curr_col_px,
                        forall|c: int|
                            0 <= c < curr_col_px ==> #[trigger] buffer@[c] == top_half(
                                img@,
                                curr_row_px as int,
                                c,
                                transparent,
                                truecolor,
                            ),
                    decreases width - curr_col_px,
                {
                    let pixel = (curr_col_px, curr_row_px, img.pixel(curr_row_px, curr_col_px));
                    let color = encode_option(get_display_color(pixel, transparent), truecolor);
                    let mut c = Cell::new();
                    c.set_bg(color);
                    buffer.push(c);
                    curr_col_px += 1;
                }
                mode = Status::BottomRow;
            },
            Status::BottomRow => {
                let mut curr_col_px: u32 = 0;
                while curr_col_px < width
                    invariant
                        width == img@.width,
                        height == img@.height,
                        0 < curr_row_px < height,
                        curr_col_px <= width,
                        buffer@.len() == width,
                        forall|c: int|
                            0 <= c < curr_col_px ==> #[trigger] buffer@[c] == both_halves(
                                img@,
                                curr_row_px as int,
                                c,
                                transparent,
                                truecolor,
                            ),
                        forall|c: int|
                            curr_col_px <= c < width ==> #[trigger] buffer@[c] == top_half(
                                img@,
                                curr_row_px - 1,
                                c,
                                transparent,
                                truecolor,
                            ),
                    decreases width - curr_col_px,
                {
                    let pixel = (curr_col_px, curr_row_px, img.pixel(curr_row_px, curr_col_px));
                    let color = encode_option(get_display_color(pixel, transparent), truecolor);
                    let mut c = buffer[curr_col_px as usize];
                    c.set_fg(color);
                    buffer.set(curr_col_px as usize, c);
                    curr_col_px += 1;
                }
                let ghost line = curr_row_px as int / 2;
                proof {
                    assert(2 * line + 1 == curr_row_px);
                    assert forall|c: int| 0 <= c < width implies #[trigger] resolved_row(
                        buffer@,
                        false,
                    )[c] == lines[line][c] by {
                        lemma_encode_then_finish(
                            display_color(img@.pixel(2 * line, c), 2 * line, c, transparent),
                            display_color(img@.pixel(2 * line + 1, c), 2 * line + 1, c, transparent),
                            truecolor,
                        );
                    }
                    assert(resolved_row(buffer@, false) == lines[line]);
                }
                let row = print_buffer(&mut buffer, false);
                chunks.push(row);
                mode = Status::TopRow;
            },
        }
        curr_row_px += 1;
    }
    match mode {
        Status::TopRow => {},
        Status::BottomRow => {
            let ghost line = height as int / 2;
            proof {
                assert(2 * line + 1 == height);
                assert forall|c: int| 0 <= c < width implies #[trigger] resolved_row(
                    buffer@,
                    true,
                )[c] == lines[line][c] by {
                    lemma_encode_then_finish(
                        display_color(img@.pixel(2 * line, c), 2 * line, c, transparent),
                        None,
                        truecolor,
                    );
                }
                assert(resolved_row(buffer@, true) == lines[line]);
            }
            let row = print_buffer(&mut buffer, true);
            chunks.push(row);
        },
    }
    let mut last: Vec<u8> = Vec::new();
    clear_printer(&mut last);
    chunks.push(last);
    chunks
}

/// A grid with an even number of pixel rows is drawn on half as many
/// terminal rows, each with one cell per pixel column.
pub proof fn lemma_even_height_rows(grid: GridView, transparent: bool)
    requires
        grid.height % 2 == 0,
    ensures
        rendered(grid, transparent).len() == grid.height / 2,
        forall|row: int|
            0 <= row < grid.height / 2 ==> (#[trigger] rendered(grid, transparent)[row]).len()
                == grid.width,
{
}

/// A grid with an odd number of pixel rows is drawn on half as many terminal
/// rows, rounded up, each with one cell per pixel column. The cells of the
/// last row set no background: each is an upper half block in a foreground
/// color, or an empty glyph with no color at all.
pub proof fn lemma_odd_height_rows(grid: GridView, transparent: bool)
    requires
        grid.height % 2 == 1,
    ensures
        rendered(grid, transparent).len() == grid.height / 2 + 1,
        forall|row: int|
            0 <= row <= grid.height / 2 ==> (#[trigger] rendered(grid, transparent)[row]).len()
                == grid.width,
        forall|col: int|
            0 <= col < grid.width ==> {
                let cell = #[trigger] rendered(grid, transparent)[grid.height as int / 2][col];
                &&& cell.background is None
                &&& (cell.glyph == Glyph::UpperHalfBlock && cell.foreground is Some) || (cell.glyph
                    == Glyph::Empty && cell.foreground is None)
            },
{
}

/// Rendering is a function of the grid and the flags: two renderings of one
/// grid under the same flags are byte for byte the same.
pub proof fn lemma_print_is_repeatable(
    grid: GridView,
    transparent: bool,
    truecolor: bool,
    first: Seq<u8>,
    second: Seq<u8>,
)
    requires
        first == picture_bytes(rendered(grid, transparent), truecolor),
        second == picture_bytes(rendered(grid, transparent), truecolor),
    ensures
        first == second,
{
}

/// A picture that is transparent all over, drawn with transparency passed
/// through, sets no color: each of its cells is an empty glyph without
/// colors, written as a reset and a space, whatever the terminal can show.
pub proof fn lemma_transparent_grid_sets_no_color(
    grid: GridView,
    truecolor: bool,
    row: int,
    col: int,
)
    requires
        grid.wf(),
        forall|i: int| 0 <= i < grid.pixels.len() ==> (#[trigger] grid.pixels[i]).a == 0,
        0 <= row < terminal_rows(grid.height),
        0 <= col < grid.width,
    ensures
        rendered(grid, true)[row][col] == (Cell {
            glyph: Glyph::Empty,
            foreground: None,
            background: None,
        }),
        cell_bytes(encoded_rows(rendered(grid, true), truecolor)[row][col]) == seq![
            0x1bu8,
            0x5bu8,
            0x30u8,
            0x6du8,
            0x20u8,
        ],
{
    crate::grid::lemma_position_in_range(grid.width as int, grid.height as int, 2 * row, col);
    if 2 * row + 1 < grid.height {
        crate::grid::lemma_position_in_range(
            grid.width as int,
            grid.height as int,
            2 * row + 1,
            col,
        );
    }
    let cell = encoded_rows(rendered(grid, true), truecolor)[row][col];
    assert(cell == Cell { glyph: Glyph::Empty, foreground: None, background: None });
    assert(cell_bytes(cell) =~= seq![0x1bu8, 0x5bu8, 0x30u8, 0x6du8, 0x20u8]);
}

/// In a fully transparent grid drawn with the chess board, the pixel in row
/// `row`, column `col` shows the darker gray where the parities of `row` and
/// `col` agree and the lighter gray where they differ, and the cell that
/// holds the pixel carries that gray: as its background for the upper pixel
/// of a pair, as its foreground for the lower pixel and for a pixel of a
/// lone last row.
pub proof fn lemma_checkerboard(grid: GridView, row: int, col: int)
    requires
        grid.wf(),
        forall|i: int| 0 <= i < grid.pixels.len() ==> (#[trigger] grid.pixels[i]).a == 0,
        0 <= row < grid.height,
        0 <= col < grid.width,
    ensures
        display_color(grid.pixel(row, col), row, col, false) == Some(
            if row % 2 == col % 2 {
                Color::Rgb(102, 102, 102)
            } else {
                Color::Rgb(153, 153, 153)
            },
        ),
        ({
            let cell = rendered(grid, false)[row / 2][col];
            let gray = display_color(grid.pixel(row, col), row, col, false);
            if row % 2 == 0 && row + 1 < grid.height {
                cell.background == gray
            } else {
                cell.foreground == gray
            }
        }),
{
    crate::grid::lemma_position_in_range(grid.width as int, grid.height as int, row, col);
    if row % 2 == 0 && row + 1 < grid.height {
        crate::grid::lemma_position_in_range(grid.width as int, grid.height as int, row + 1, col);
    }
    if row % 2 == 1 {
        crate::grid::lemma_position_in_range(grid.width as int, grid.height as int, row - 1, col);
    }
}

} // verus!
