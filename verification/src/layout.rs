//! How the screen is divided: title bar, pages and status line, the help
//! page, and the word that nothing is ready.

use vstd::prelude::*;
use vstd::string::StringSliceAdditionalSpecFns;
use ratatui::layout::{Constraint, Direction, Flex, Layout};
use crate::geometry::Rect;
use crate::tui::{RenderLayout, Tui};

verus! {

/// How much room a part of a divided area gets.
#[derive(Clone, Copy, Debug, PartialEq, Eq, Structural)]
pub enum Part {
    /// So many cells.
    Length(u16),
    /// A share of what the others leave, by this weight.
    Fill(u16),
}

/// How an area is divided.
#[derive(Clone, Copy, Debug, PartialEq, Eq, Structural)]
pub struct Division {
    /// Into rows, one below the other; else into columns, side by side.
    pub vertical: bool,
    /// The margin left and right.
    pub margin_x: u16,
    /// The margin above and below.
    pub margin_y: u16,
    /// The parts stand in the middle of what they leave over.
    pub centered: bool,
}

/// Twice a margin, as far as a cell count goes.
pub open spec fn doubled(margin: u16) -> int {
    if 2 * margin > u16::MAX {
        u16::MAX as int
    } else {
        2 * margin
    }
}

/// What is left of an area inside its margins: nothing where the margins
/// do not fit.
pub open spec fn inner_area(area: Rect, how: Division) -> Rect {
    if area.width < doubled(how.margin_x) || area.height < doubled(how.margin_y) {
        Rect { x: 0, y: 0, width: 0, height: 0 }
    } else {
        Rect {
            x: if area.x + how.margin_x > u16::MAX {
                u16::MAX
            } else {
                (area.x + how.margin_x) as u16
            },
            y: if area.y + how.margin_y > u16::MAX {
                u16::MAX
            } else {
                (area.y + how.margin_y) as u16
            },
            width: (area.width - doubled(how.margin_x)) as u16,
            height: (area.height - doubled(how.margin_y)) as u16,
        }
    }
}

/// A part of a divided area reaches across it: a row is as wide as the
/// area, a column as high.
pub open spec fn reaches_across(inner: Rect, vertical: bool, part: Rect) -> bool {
    if vertical {
        part.x == inner.x && part.width == inner.width
    } else {
        part.y == inner.y && part.height == inner.height
    }
}

/// Calls `ratatui::layout::Layout::split` on a layout with these parts as
/// constraints, these margins, and the centred or the default flex. The
/// claims are that there is one rectangle for each part, and that each
/// reaches across the area inside the margins. Where the rows or columns
/// begin and end is the solver's choice, of which nothing is claimed.
#[verifier::external_body]
fn split(area: Rect, how: Division, parts: &Vec<Part>) -> (r: Vec<Rect>)
    ensures
        r@.len() == parts@.len(),
        forall|i: int|
            0 <= i < r@.len() ==> reaches_across(inner_area(area, how), how.vertical, #[trigger] r@[i]),
{
    let direction = if how.vertical { Direction::Vertical } else { Direction::Horizontal };
    let constraints = parts.iter().map(|p| match p {
        Part::Length(n) => Constraint::Length(*n),
        Part::Fill(n) => Constraint::Fill(*n),
    });
    Layout::new(direction, constraints)
        .horizontal_margin(how.margin_x)
        .vertical_margin(how.margin_y)
        .flex(if how.centered { Flex::Center } else { Flex::default() })
        .split(ratatui::layout::Rect { x: area.x, y: area.y, width: area.width, height: area.height })
        .iter()
        .map(|p| Rect { x: p.x, y: p.y, width: p.width, height: p.height })
        .collect()
}

/// How the screen is divided while title bar and status line are shown:
/// into rows, inside a margin of two columns and one row.
pub open spec fn bars_division() -> Division {
    Division { vertical: true, margin_x: 2, margin_y: 1, centered: false }
}

/// The layout that three rectangles make: title bar, pages, status line.
pub fn layout_of_parts(parts: &Vec<Rect>) -> (l: RenderLayout)
    requires
        parts.len() == 3,
    ensures
        l.page_area == parts[1],
        l.top_and_bottom == Some((parts[0], parts[2])),
{
    RenderLayout { page_area: parts[1], top_and_bottom: Some((parts[0], parts[2])) }
}

impl Tui {
    /// Divides the screen. Fullscreen, the pages take all of it. Else the
    /// solver divides what lies inside the margin into three rows, for the
    /// title bar, three cells high, the pages, and the status line, three
    /// cells high; each row is as wide as what lies inside the margin.
    pub fn main_layout(frame_area: Rect, fullscreened: bool) -> (l: RenderLayout)
        ensures
            fullscreened ==> l.page_area == frame_area && l.top_and_bottom is None,
            !fullscreened ==> {
                let inner = inner_area(frame_area, bars_division());
                &&& l.top_and_bottom matches Some((top, bottom))
                &&& reaches_across(inner, true, top)
                &&& reaches_across(inner, true, l.page_area)
                &&& reaches_across(inner, true, bottom)
            },
    {
        if fullscreened {
            RenderLayout { page_area: frame_area, top_and_bottom: None }
        } else {
            let mut parts: Vec<Part> = Vec::new();
            parts.push(Part::Length(3));
            parts.push(Part::Fill(1));
            parts.push(Part::Length(3));
            let rects = split(
                frame_area,
                Division { vertical: true, margin_x: 2, margin_y: 1, centered: false },
                &parts,
            );
            layout_of_parts(&rects)
        }
    }
}

/// What the page area says while no page is ready.
pub const LOADING: &'static str = "Loading...";

/// Where the word that nothing is ready stands: the solver puts a column as
/// wide as the word into the middle of the area; it is as high as the area.
pub fn loading_area(area: Rect) -> (r: Rect)
    ensures
        r.y == area.y,
        r.height == area.height,
{
    let mut parts: Vec<Part> = Vec::new();
    parts.push(Part::Length(10));
    let rects = split(
        area,
        Division { vertical: false, margin_x: 0, margin_y: 0, centered: true },
        &parts,
    );
    rects[0]
}

/// The middle one of three parts of an area, of which the outer two share
/// what the middle one leaves.
fn middle(area: Rect, vertical: bool, size: u16) -> (r: Rect)
    ensures
        reaches_across(area, vertical, r),
{
    let mut parts: Vec<Part> = Vec::new();
    parts.push(Part::Fill(1));
    parts.push(Part::Length(size));
    parts.push(Part::Fill(1));
    let rects = split(area, Division { vertical, margin_x: 0, margin_y: 0, centered: false }, &parts);
    rects[1]
}

/// The help page.
pub const HELP_PAGE: &'static str = "\
l, h, left, right:
    Go forward/backwards a single page
j, k, down, up:
    Go forwards/backwards a screen's worth of pages
q, esc:
    Quit
g:
    Go to specific page (type numbers after 'g')
/:
    Search
n, N:
    Next/Previous search result
i:
    Invert colors
r:
    Rotate the pages
f:
    Remove borders/fullscreen
z (when using kitty protocol):
    Toggle between fill-screen and fit-screen
o/O (when on fill-screen):
    zoom in and out, respectively
H, J, K, L (when zoomed in):
    pan direction around page
?:
    Show this page
ctrl+z:
    Suspend & background tdf \
";

/// How long the line is that the first `n` bytes of a text leave unfinished.
pub open spec fn open_line(s: Seq<u8>, n: nat) -> nat
    decreases n,
{
    if n == 0 || s[n - 1] == 0x0a {
        0
    } else {
        open_line(s, (n - 1) as nat) + 1
    }
}

/// The length of the longest line that ends within the first `n` bytes.
pub open spec fn longest_closed(s: Seq<u8>, n: nat) -> nat
    decreases n,
{
    if n == 0 {
        0
    } else if s[n - 1] == 0x0a && open_line(s, (n - 1) as nat) > longest_closed(s, (n - 1) as nat) {
        open_line(s, (n - 1) as nat)
    } else {
        longest_closed(s, (n - 1) as nat)
    }
}

/// How many lines end within the first `n` bytes.
pub open spec fn closed_lines(s: Seq<u8>, n: nat) -> nat
    decreases n,
{
    if n == 0 {
        0
    } else {
        closed_lines(s, (n - 1) as nat) + if s[n - 1] == 0x0a {
            1nat
        } else {
            0nat
        }
    }
}

/// The length in bytes of the longest line of a text.
pub open spec fn longest_line(s: Seq<u8>) -> nat {
    if open_line(s, s.len()) > longest_closed(s, s.len()) {
        open_line(s, s.len())
    } else {
        longest_closed(s, s.len())
    }
}

/// How many lines a text has; a last line needs no line feed.
pub open spec fn line_count(s: Seq<u8>) -> nat {
    closed_lines(s, s.len()) + if open_line(s, s.len()) > 0 {
        1nat
    } else {
        0nat
    }
}

/// The length of the longest line of a text and the number of its lines.
pub fn text_extent(text: &[u8]) -> (r: (usize, usize))
    ensures
        r.0 == longest_line(text@),
        r.1 == line_count(text@),
{
    let mut open: usize = 0;
    let mut longest: usize = 0;
    let mut lines: usize = 0;
    let mut i: usize = 0;
    while i < text.len()
        invariant
            i <= text.len(),
            open == open_line(text@, i as nat),
            longest == longest_closed(text@, i as nat),
            lines == closed_lines(text@, i as nat),
            open <= i,
            longest <= i,
            lines + open <= i,
        decreases text.len() - i,
    {
        if text[i] == 0x0a {
            if open > longest {
                longest = open;
            }
            open = 0;
            lines = lines + 1;
        } else {
            open = open + 1;
        }
        i = i + 1;
    }
    (
        if open > longest {
            open
        } else {
            longest
        },
        if open > 0 {
            lines + 1
        } else {
            lines
        },
    )
}

/// The size of the box that holds a text with its border and padding: six
/// columns wider than the longest line, four rows higher than the lines.
/// `None` for a text that is too large for any screen.
pub open spec fn box_size_of(text: Seq<u8>) -> Option<(u16, u16)> {
    if longest_line(text) + 6 <= u16::MAX && line_count(text) + 4 <= u16::MAX {
        Some(((longest_line(text) + 6) as u16, (line_count(text) + 4) as u16))
    } else {
        None
    }
}

pub fn box_size(text: &[u8]) -> (r: Option<(u16, u16)>)
    ensures
        r == box_size_of(text@),
{
    let (w, h) = text_extent(text);
    if w <= 0xffff - 6 && h <= 0xffff - 4 {
        Some(((w + 6) as u16, (h + 4) as u16))
    } else {
        None
    }
}

/// Where a box of `size` stands: the solver puts a column of its width into
/// the middle of the screen, and into the middle of that column a row of its
/// height. There is no box without a size.
pub fn centered_box(frame_area: Rect, size: Option<(u16, u16)>) -> (r: Option<Rect>)
    ensures
        r is Some <==> size is Some,
{
    match size {
        Some((w, h)) => Some(middle(middle(frame_area, false, w), true, h)),
        None => None,
    }
}

/// Where the box of the help page stands: in the middle of the screen. There
/// is none where the help page is too large for any screen.
pub fn help_box(frame_area: Rect) -> (r: Option<Rect>)
    ensures
        r is Some <==> box_size_of(HELP_PAGE.spec_bytes()) is Some,
{
    centered_box(frame_area, box_size(HELP_PAGE.as_bytes()))
}

} // verus!
