//! What the application shows, and painting it into a ratatui buffer.
//!
//! The screen is a box: a title on its top border, one line with the
//! counter inside, and on its bottom border the keys the application
//! listens to. Which text goes where is decided here. Laying the text out
//! in cells is ratatui's work, and what is said of it below is taken on
//! trust from ratatui's source.

use vstd::prelude::*;
use ratatui::buffer::Buffer;
use ratatui::layout::{Alignment, Rect};
use ratatui::style::Stylize;
use ratatui::symbols::border;
use ratatui::text::{Line, Span};
use ratatui::widgets::block::{Position, Title};
use ratatui::widgets::{Block, Paragraph, Widget};
use crate::app::App;
use crate::decimal::{decimal, decimal_string};

verus! {

/// A rectangle of screen cells: its top left corner and its size.
#[derive(Debug, Clone, Copy, PartialEq, Eq, Structural)]
pub struct Area {
    pub x: u16,
    pub y: u16,
    pub width: u16,
    pub height: u16,
}

impl Area {
    /// The first column to the right of the rectangle.
    pub open spec fn right(self) -> int {
        self.x + self.width
    }

    /// The first row below the rectangle.
    pub open spec fn bottom(self) -> int {
        self.y + self.height
    }

    /// The number of cells in the rectangle.
    pub open spec fn cells(self) -> int {
        self.width * self.height
    }

    /// Every coordinate of the rectangle, and the number of its cells, fits
    /// in 16 bits.
    pub open spec fn addressable(self) -> bool {
        &&& self.right() <= u16::MAX
        &&& self.bottom() <= u16::MAX
        &&& self.cells() <= u16::MAX
    }

    /// The cell in column `x` and row `y` lies in the rectangle.
    pub open spec fn contains(self, x: int, y: int) -> bool {
        &&& self.x <= x < self.right()
        &&& self.y <= y < self.bottom()
    }

    /// Where a buffer that covers the rectangle keeps the cell in column
    /// `x` and row `y`: cells are kept row by row.
    pub open spec fn index_of(self, x: int, y: int) -> int {
        (y - self.y) * self.width + (x - self.x)
    }

    /// `inner` lies within the rectangle.
    pub open spec fn holds(self, inner: Area) -> bool {
        &&& self.x <= inner.x
        &&& inner.right() <= self.right()
        &&& self.y <= inner.y
        &&& inner.bottom() <= self.bottom()
    }

    /// The rectangle with the given corner and size.
    pub fn new(x: u16, y: u16, width: u16, height: u16) -> (area: Area)
        ensures
            area == (Area { x, y, width, height }),
    {
        Area { x, y, width, height }
    }
}

/// ratatui's `Buffer`: a grid of cells that widgets paint into.
#[verifier::external_type_specification]
#[verifier::external_body]
pub struct ExBuffer(Buffer);

/// One cell of a buffer, as plain values.
pub struct Glyph {
    /// The text in the cell.
    pub symbol: Seq<char>,
    /// The foreground colour, as ratatui writes it.
    pub fg: Seq<char>,
    /// The background colour, as ratatui writes it.
    pub bg: Seq<char>,
    /// The colour of the underline, as ratatui writes it.
    pub underline: Seq<char>,
    /// The bits of the cell's modifiers.
    pub modifiers: u16,
    /// Whether the cell is left out when the buffer goes to the screen.
    pub skip: bool,
}

/// The rectangle of the screen that a buffer covers: its field `area`.
pub uninterp spec fn buffer_area(buf: Buffer) -> Area;

/// The cells of a buffer, row by row: its field `content`.
pub uninterp spec fn buffer_cells(buf: Buffer) -> Seq<Glyph>;

/// The cells of a buffer after ratatui has painted the box into `area`,
/// given the texts of the box and, as `frame` and `cells`, the buffer's
/// rectangle and cells before.
pub uninterp spec fn painted(
    title: Seq<char>,
    label: Seq<char>,
    value: Seq<char>,
    hints: Seq<(Seq<char>, Seq<char>)>,
    area: Area,
    frame: Area,
    cells: Seq<Glyph>,
) -> Seq<Glyph>;

/// The longest text that is handed to ratatui, in characters.
pub const MAX_TEXT: usize = 64;

/// The most key hints that are handed to ratatui.
pub const MAX_HINTS: usize = 16;

/// Short text of printable ASCII: every character takes one cell.
pub open spec fn plain(text: Seq<char>) -> bool {
    &&& text.len() <= MAX_TEXT
    &&& forall|i: int| 0 <= i < text.len() ==> ' ' <= #[trigger] text[i] <= '~'
}

/// Key hints as text: what a key does, then the key.
pub open spec fn hint_texts(hints: Seq<(&str, &str)>) -> Seq<(Seq<char>, Seq<char>)> {
    hints.map_values(|hint: (&str, &str)| (hint.0@, hint.1@))
}

/// The buffer can take the box at `area`: it holds as many cells as its
/// rectangle says, the rectangle is addressable, and `area` lies within it.
pub open spec fn paintable(buf: Buffer, area: Area) -> bool {
    &&& buffer_area(buf).addressable()
    &&& buffer_cells(buf).len() == buffer_area(buf).cells()
    &&& buffer_area(buf).holds(area)
}

/// Every cell of the rectangle `frame` that lies outside `area` is the same
/// in `after` as in `before`, and so is the number of cells.
pub open spec fn kept_outside(
    frame: Area,
    area: Area,
    before: Seq<Glyph>,
    after: Seq<Glyph>,
) -> bool {
    &&& after.len() == before.len()
    &&& forall|x: int, y: int|
        frame.contains(x, y) && !area.contains(x, y) ==> after[#[trigger] frame.index_of(x, y)]
            == before[frame.index_of(x, y)]
}

/// The title on the top border.
pub const TITLE: &'static str = " Counter App Tutorial ";

/// The text in front of the counter.
pub const LABEL: &'static str = "Value: ";

/// The keys named on the bottom border, each after what it does.
pub open spec fn key_hints() -> Seq<(Seq<char>, Seq<char>)> {
    seq![
        (" Decrement "@, "<Left>"@),
        (" Increment "@, "<Right>"@),
        (" Quit "@, "<Q> "@),
    ]
}

/// Reads the public field `area` of ratatui's `Buffer`: the rectangle the
/// buffer covers.
#[verifier::external_body]
fn frame_of(buf: &Buffer) -> (frame: Area)
    ensures
        frame == buffer_area(*buf),
{
    let area = buf.area;
    Area { x: area.x, y: area.y, width: area.width, height: area.height }
}

/// Reads the length of the public field `content` of ratatui's `Buffer`:
/// the number of cells the buffer holds.
#[verifier::external_body]
fn cell_count(buf: &Buffer) -> (count: usize)
    ensures
        count == buffer_cells(*buf).len(),
{
    buf.content.len()
}

/// Calls ratatui's `Paragraph::render` on a centered paragraph of one line,
/// `label` and then `value` in yellow, inside a `Block` with thick borders
/// that carries `title` in bold, centered on its top border, and the hints
/// centered on its bottom border, each key in bold blue.
///
/// Rendering writes cells and nothing else, and every cell it writes lies
/// in `area`: the block clips to it, the titles sit on its first and last
/// row between the corners, and the line is laid out inside the borders.
/// So the buffer keeps its rectangle and the number of its cells, the cells
/// outside `area` stay as they were, and the cells afterwards depend on
/// nothing but the texts, `area`, and the buffer before. That much is
/// claimed, and no more: which symbol and style each cell of `area` gets is
/// left to ratatui.
///
/// ratatui addresses cells in 16-bit arithmetic and indexes the buffer
/// without a check of its own. The call is therefore made only on a buffer
/// that holds as many cells as its rectangle says, whose rectangle is
/// addressable and holds `area`, and with texts whose width in cells is
/// their length and far below 16 bits.
#[verifier::external_body]
fn paint(
    title: &str,
    label: &str,
    value: &str,
    hints: &Vec<(&str, &str)>,
    area: Area,
    buf: &mut Buffer,
)
    requires
        plain(title@),
        plain(label@),
        plain(value@),
        hints@.len() <= MAX_HINTS,
        forall|i: int|
            0 <= i < hints@.len() ==> plain(#[trigger] hints@[i].0@) && plain(hints@[i].1@),
        paintable(*old(buf), area),
    ensures
        buffer_area(*final(buf)) == buffer_area(*old(buf)),
        buffer_cells(*final(buf)) == painted(
            title@,
            label@,
            value@,
            hint_texts(hints@),
            area,
            buffer_area(*old(buf)),
            buffer_cells(*old(buf)),
        ),
        kept_outside(
            buffer_area(*old(buf)),
            area,
            buffer_cells(*old(buf)),
            buffer_cells(*final(buf)),
        ),
{
    let keys = hints.iter().flat_map(|hint| [Span::raw(hint.0), hint.1.blue().bold()]);
    let top = Title::from(title.bold()).alignment(Alignment::Center);
    let bottom = Title::from(Line::from_iter(keys)).alignment(Alignment::Center);
    let block = Block::bordered().title(top).title(bottom.position(Position::Bottom));
    let line = Line::from(vec![Span::raw(label), value.yellow()]);
    let rect = Rect { x: area.x, y: area.y, width: area.width, height: area.height };
    Paragraph::new(line).centered().block(block.border_set(border::THICK)).render(rect, buf);
}

/// Tests whether the buffer can take the box at `area`.
fn is_paintable(buf: &Buffer, area: Area) -> (ok: bool)
    ensures
        ok == paintable(*buf, area),
{
    let frame = frame_of(buf);
    let count = cell_count(buf);
    let limit: u32 = 0xffff;
    let right: u32 = frame.x as u32 + frame.width as u32;
    let bottom: u32 = frame.y as u32 + frame.height as u32;
    assert(frame.width * frame.height <= 0xffff * 0xffff) by (nonlinear_arith)
        requires
            frame.width <= 0xffff,
            frame.height <= 0xffff,
    ;
    let cells: u32 = frame.width as u32 * frame.height as u32;
    let addressable = right <= limit && bottom <= limit && cells <= limit;
    let across = frame.x <= area.x && area.x as u32 + area.width as u32 <= right;
    let down = frame.y <= area.y && area.y as u32 + area.height as u32 <= bottom;
    addressable && count == cells as usize && across && down
}

/// The counter in decimal is short, printable text.
proof fn lemma_decimal_is_plain(n: nat)
    requires
        n <= u8::MAX,
    ensures
        plain(decimal(n)),
{
    reveal_with_fuel(decimal, 3);
}

impl App {
    /// Paints the application into `area` of `buf`: a box with thick
    /// borders, the title on top, `Value: ` and the counter in the middle,
    /// and the keys below. Only cells of `area` are written. A buffer that
    /// cannot take the box at `area` is left as it is.
    pub fn render(&self, area: Area, buf: &mut Buffer)
        ensures
            buffer_area(*final(buf)) == buffer_area(*old(buf)),
            kept_outside(
                buffer_area(*old(buf)),
                area,
                buffer_cells(*old(buf)),
                buffer_cells(*final(buf)),
            ),
            buffer_cells(*final(buf)) == if paintable(*old(buf), area) {
                painted(
                    TITLE@,
                    LABEL@,
                    decimal(self@.counter),
                    key_hints(),
                    area,
                    buffer_area(*old(buf)),
                    buffer_cells(*old(buf)),
                )
            } else {
                buffer_cells(*old(buf))
            },
    {
        if !is_paintable(buf, area) {
            return;
        }
        let value = decimal_string(self.counter());
        let hints = vec![(" Decrement ", "<Left>"), (" Increment ", "<Right>"), (" Quit ", "<Q> ")];
        proof {
            reveal_strlit(" Counter App Tutorial ");
            reveal_strlit("Value: ");
            reveal_strlit(" Decrement ");
            reveal_strlit("<Left>");
            reveal_strlit(" Increment ");
            reveal_strlit("<Right>");
            reveal_strlit(" Quit ");
            reveal_strlit("<Q> ");
            lemma_decimal_is_plain(self@.counter);
            assert(hint_texts(hints@) =~= key_hints());
        }
        paint(TITLE, LABEL, value.as_str(), &hints, area, buf);
    }
}

} // verus!
