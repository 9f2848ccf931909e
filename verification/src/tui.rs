//! The user interface's state: the current page, the page buffer, the status
//! line, and how each of them answers to keys, the mouse and the other parts.

use vstd::prelude::*;
use crate::converter::{ConvertedImage, MaybeTransferred};
use crate::geometry::{Position, Rect};
use crate::renderer::{fill_default, RenderError};
use crate::text::{char_to_digit, decimal, digit_value, push_decimal, push_text};
use crate::frame::{
    count_fitting, entry_of_place, fit_count, kitty_entries, lemma_entries_follow_places,
    lemma_fit_count_in_bounds, page_budget, place_pages, placed_at, screen_key, screen_page,
    widths_sum, zoom_area, zoomed_area, PagesPlan, PagesPlanView, ZoomFit,
};
use crate::kitty::{request_of, DisplayLocation, KittyReadyToDisplay, KittyRequest};
use crate::status::{
    bottom_message, message_text, message_tone, page_label, page_label_text, rendered_label,
    rendered_label_text, Tone,
};
use crate::FitOrFill;

verus! {

/// What the user is typing into the status line.
#[derive(Clone, Debug, PartialEq, Eq)]
pub enum InputCommand {
    /// A page number, one-based, as far as it is typed.
    GoToPage(usize),
    /// A search term, as far as it is typed.
    Search(String),
}

#[verifier::ext_equal]
pub enum InputCommandView {
    GoToPage(usize),
    Search(Seq<char>),
}

impl View for InputCommand {
    type V = InputCommandView;

    open spec fn view(&self) -> InputCommandView {
        match self {
            InputCommand::GoToPage(n) => InputCommandView::GoToPage(*n),
            InputCommand::Search(s) => InputCommandView::Search(s@),
        }
    }
}

/// What the status line shows.
#[derive(Clone, Debug, PartialEq, Eq)]
pub enum BottomMessage {
    Help,
    SearchResults(String),
    Error(String),
    Input(InputCommand),
    Reloaded,
}

#[verifier::ext_equal]
pub enum BottomMessageView {
    Help,
    SearchResults(Seq<char>),
    Error(Seq<char>),
    Input(InputCommandView),
    Reloaded,
}

impl View for BottomMessage {
    type V = BottomMessageView;

    open spec fn view(&self) -> BottomMessageView {
        match self {
            BottomMessage::Help => BottomMessageView::Help,
            BottomMessage::SearchResults(s) => BottomMessageView::SearchResults(s@),
            BottomMessage::Error(s) => BottomMessageView::Error(s@),
            BottomMessage::Input(c) => BottomMessageView::Input(c@),
            BottomMessage::Reloaded => BottomMessageView::Reloaded,
        }
    }
}

impl Default for BottomMessage {
    fn default() -> (m: Self)
        ensures
            m == BottomMessage::Help,
    {
        BottomMessage::Help
    }
}

/// What the event loop is to do after an event.
#[derive(Clone, Debug, PartialEq, Eq)]
pub enum InputAction {
    Redraw,
    JumpingToPage(usize),
    Search(String),
    QuitApp,
    Invert,
    Rotate,
    Fullscreen,
    SwitchRenderZoom(FitOrFill),
    /// Hand the terminal back, stop the process, and call
    /// [`Tui::resumed`] when it runs again.
    Suspend,
}

#[verifier::ext_equal]
pub enum InputActionView {
    Redraw,
    JumpingToPage(usize),
    Search(Seq<char>),
    QuitApp,
    Invert,
    Rotate,
    Fullscreen,
    SwitchRenderZoom(FitOrFill),
    Suspend,
}

impl View for InputAction {
    type V = InputActionView;

    open spec fn view(&self) -> InputActionView {
        match self {
            InputAction::Redraw => InputActionView::Redraw,
            InputAction::JumpingToPage(p) => InputActionView::JumpingToPage(*p),
            InputAction::Search(s) => InputActionView::Search(s@),
            InputAction::QuitApp => InputActionView::QuitApp,
            InputAction::Invert => InputActionView::Invert,
            InputAction::Rotate => InputActionView::Rotate,
            InputAction::Fullscreen => InputActionView::Fullscreen,
            InputAction::SwitchRenderZoom(f) => InputActionView::SwitchRenderZoom(*f),
            InputAction::Suspend => InputActionView::Suspend,
        }
    }
}

/// The view of an action, if there is one.
pub open spec fn action_view(a: Option<InputAction>) -> Option<InputActionView> {
    match a {
        Some(a) => Some(a@),
        None => None,
    }
}

/// How the status line is changed.
#[derive(Clone, Debug, PartialEq, Eq)]
pub enum MessageSetting {
    /// Show this, and keep what was shown for later.
    Show(BottomMessage),
    /// Show the hint, and keep what was shown for later.
    Default,
    /// Show the hint, and keep nothing.
    Reset,
    /// Close the help page if it is open; else show again what was kept.
    Pop,
}

/// A key, as far as the viewer tells keys apart.
#[derive(Clone, Copy, Debug, PartialEq, Eq, Structural)]
pub enum KeyCode {
    Char(char),
    Backspace,
    Right,
    Down,
    Left,
    Up,
    Esc,
    Enter,
    Other,
}

/// A movement of the mouse wheel, or anything else the mouse does.
#[derive(Clone, Copy, Debug, PartialEq, Eq, Structural)]
pub enum MouseKind {
    ScrollRight,
    ScrollDown,
    ScrollLeft,
    ScrollUp,
    Other,
}

/// What the terminal reports.
#[derive(Clone, Copy, Debug, PartialEq, Eq, Structural)]
pub enum Event {
    Key { code: KeyCode, ctrl: bool },
    Mouse(MouseKind),
    Resize(u16, u16),
    Other,
}

/// How far the view is zoomed out of filling the screen, and which part of
/// the page it shows.
#[derive(Clone, Copy, Debug, PartialEq, Eq, Structural)]
pub struct Zoom {
    /// Zero fills the screen; below zero the page is shown narrower.
    pub level: i16,
    /// How many cells of the page lie hidden left of the screen.
    pub cell_pan_from_left: u16,
    /// How many cells of the page lie hidden above the screen.
    pub cell_pan_from_top: u16,
}

/// One slot of the page buffer.
#[derive(Clone, Copy, Debug, PartialEq, Eq, Structural)]
pub struct RenderedInfo {
    /// The image, once the converter has delivered it.
    pub img: Option<ConvertedImage>,
    /// How often the search term occurs on the page, once that is known.
    pub num_results: Option<usize>,
}

impl Default for RenderedInfo {
    fn default() -> (r: Self)
        ensures
            r == (RenderedInfo { img: None, num_results: None }),
    {
        RenderedInfo { img: None, num_results: None }
    }
}

/// Where the pages go, and where the title and the status line go unless the
/// view is fullscreen.
#[derive(Clone, Copy, Debug)]
pub struct RenderLayout {
    pub page_area: Rect,
    pub top_and_bottom: Option<(Rect, Rect)>,
}

impl RenderLayout {
    /// Whether two layouts put everything in the same place.
    pub fn same_as(&self, other: &RenderLayout) -> (b: bool)
        ensures
            b == (*self == *other),
    {
        self.page_area == other.page_area && match (self.top_and_bottom, other.top_and_bottom) {
            (None, None) => true,
            (Some((t1, b1)), Some((t2, b2))) => t1 == t2 && b1 == b2,
            _ => false,
        }
    }
}

/// A step to the next or to the previous page.
#[derive(Clone, Copy, Debug, PartialEq, Eq, Structural)]
pub enum PageChange {
    Prev,
    Next,
}

/// By one page, or by as many as the screen showed last.
#[derive(Clone, Copy, Debug, PartialEq, Eq, Structural)]
pub enum ChangeAmount {
    WholeScreen,
    Single,
}

/// The state of the user interface, as contracts speak of it.
#[verifier::ext_equal]
pub struct TuiModel {
    pub name: Seq<char>,
    /// The page that is shown first, zero-based.
    pub page: int,
    /// The page buffer: one slot for each page of the document.
    pub slots: Seq<RenderedInfo>,
    pub bottom: BottomMessageView,
    /// What the status line showed before, if that is kept.
    pub prev: Option<BottomMessageView>,
    /// The screen at the last drawing of the pages; the empty rectangle asks
    /// for a new drawing.
    pub last_rect: Rect,
    /// How many pages the last drawing showed.
    pub pages_shown: int,
    /// How many columns it left empty beside them.
    pub unused_width: int,
    pub showing_help: bool,
    pub is_kitty: bool,
    pub zoom: Option<Zoom>,
    pub max_wide: Option<usize>,
    pub r_to_l: bool,
}

pub open spec fn zero_rect() -> Rect {
    Rect { x: 0, y: 0, width: 0, height: 0 }
}

/// The term occurs on the page of this slot.
pub open spec fn has_results(slot: RenderedInfo) -> bool {
    slot.num_results matches Some(n) && n > 0
}

/// The first page from `i` on with an occurrence of the term.
pub open spec fn first_hit_from(slots: Seq<RenderedInfo>, i: int) -> Option<int>
    decreases slots.len() - i,
{
    if i < 0 || i >= slots.len() {
        None
    } else if has_results(slots[i]) {
        Some(i)
    } else {
        first_hit_from(slots, i + 1)
    }
}

/// The last page before `i` with an occurrence of the term.
pub open spec fn last_hit_before(slots: Seq<RenderedInfo>, i: int) -> Option<int>
    decreases i,
{
    if i <= 0 || i > slots.len() {
        None
    } else if has_results(slots[i - 1]) {
        Some(i - 1)
    } else {
        last_hit_before(slots, i - 1)
    }
}

/// The jump forward goes to the nearest page with an occurrence of the term,
/// and nowhere when there is none.
pub proof fn lemma_first_hit_is_nearest(slots: Seq<RenderedInfo>, i: int)
    requires
        0 <= i,
    ensures
        match first_hit_from(slots, i) {
            Some(j) => i <= j < slots.len() && has_results(slots[j]) && forall|t: int|
                i <= t < j ==> !has_results(#[trigger] slots[t]),
            None => forall|t: int| i <= t < slots.len() ==> !has_results(#[trigger] slots[t]),
        },
    decreases slots.len() - i,
{
    if i < slots.len() && !has_results(slots[i]) {
        lemma_first_hit_is_nearest(slots, i + 1);
    }
}

/// The jump backward goes to the nearest page with an occurrence of the
/// term, and nowhere when there is none.
pub proof fn lemma_last_hit_is_nearest(slots: Seq<RenderedInfo>, i: int)
    requires
        i <= slots.len(),
    ensures
        match last_hit_before(slots, i) {
            Some(j) => 0 <= j < i && has_results(slots[j]) && forall|t: int|
                j < t < i ==> !has_results(#[trigger] slots[t]),
            None => forall|t: int| 0 <= t < i ==> !has_results(#[trigger] slots[t]),
        },
    decreases i,
{
    if i > 0 && !has_results(slots[i - 1]) {
        lemma_last_hit_is_nearest(slots, i - 1);
    }
}

/// The terminal holds the image of this slot.
pub open spec fn held_by_terminal(slot: RenderedInfo) -> bool {
    slot.img matches Some(img) && img is Kitty && img->img is Transferred
}

/// The slot after a suspension: an image that the terminal held is gone.
pub open spec fn slot_resumed(slot: RenderedInfo) -> RenderedInfo {
    if held_by_terminal(slot) {
        RenderedInfo { img: None, num_results: slot.num_results }
    } else {
        slot
    }
}

/// The page buffer after a suspension.
pub open spec fn slots_resumed(slots: Seq<RenderedInfo>) -> Seq<RenderedInfo> {
    Seq::new(slots.len(), |i: int| slot_resumed(slots[i]))
}

/// The pages among the first `n` whose images the terminal holds, in their
/// order.
pub open spec fn held_pages(slots: Seq<RenderedInfo>, n: nat) -> Seq<usize>
    decreases n,
{
    if n == 0 {
        Seq::empty()
    } else if held_by_terminal(slots[n - 1]) {
        held_pages(slots, (n - 1) as nat).push((n - 1) as usize)
    } else {
        held_pages(slots, (n - 1) as nat)
    }
}

/// Every slot without its search count.
pub open spec fn counts_cleared(slots: Seq<RenderedInfo>) -> Seq<RenderedInfo> {
    Seq::new(slots.len(), |i: int| RenderedInfo { img: slots[i].img, num_results: None })
}

/// A page number grown by one typed digit; it stops growing at the largest
/// number there is.
pub open spec fn grown(p: usize, d: nat) -> usize {
    if p * 10 + d > usize::MAX {
        usize::MAX
    } else {
        (p * 10 + d) as usize
    }
}

/// What the status line says of a page number that the document lacks.
pub open spec fn jump_error_text(page: usize, len: nat) -> Seq<char> {
    "Cannot jump to page "@ + decimal(page as nat) + "; there are only "@ + decimal(len)
        + " pages in the document"@
}

pub open spec fn opposite(change: PageChange) -> PageChange {
    match change {
        PageChange::Next => PageChange::Prev,
        PageChange::Prev => PageChange::Next,
    }
}

impl TuiModel {
    /// The status line shows `msg` and keeps what it showed.
    pub open spec fn showing(self, msg: BottomMessageView) -> TuiModel {
        TuiModel { bottom: msg, prev: Some(self.bottom), ..self }
    }

    /// The status line shows the hint and keeps nothing.
    pub open spec fn msg_reset(self) -> TuiModel {
        TuiModel { bottom: BottomMessageView::Help, prev: None, ..self }
    }

    /// The help page closes if it is open; else the status line shows again
    /// what it kept, or the hint.
    pub open spec fn popped(self) -> TuiModel {
        if self.showing_help {
            TuiModel { showing_help: false, last_rect: zero_rect(), ..self }
        } else {
            TuiModel {
                bottom: match self.prev {
                    Some(m) => m,
                    None => BottomMessageView::Help,
                },
                prev: None,
                ..self
            }
        }
    }

    /// The state after a suspension: no slot keeps an image that the terminal
    /// held, and the pages are drawn anew at the next frame.
    pub open spec fn resumed(self) -> TuiModel {
        TuiModel { slots: slots_resumed(self.slots), last_rect: zero_rect(), ..self }
    }

    /// The current page is `p`; a change asks for a new drawing.
    pub open spec fn at_page(self, p: int) -> TuiModel {
        if p != self.page {
            TuiModel { page: p, last_rect: zero_rect(), ..self }
        } else {
            self
        }
    }

    /// The last page of the document, or zero without pages.
    pub open spec fn last_page(self) -> int {
        if self.slots.len() > 0 {
            self.slots.len() - 1
        } else {
            0
        }
    }

    /// The page that a step leads to: not past the last page, not before the
    /// first. Reading right to left, the directions are swapped.
    pub open spec fn step_target(self, change: PageChange, amt: ChangeAmount) -> int {
        let diff = match amt {
            ChangeAmount::Single => 1,
            ChangeAmount::WholeScreen => self.pages_shown,
        };
        let dir = if self.r_to_l {
            opposite(change)
        } else {
            change
        };
        match dir {
            PageChange::Next => if self.page + diff < self.last_page() {
                self.page + diff
            } else {
                self.last_page()
            },
            PageChange::Prev => if self.page >= diff {
                self.page - diff
            } else {
                0
            },
        }
    }

    pub open spec fn page_changed(self, change: PageChange, amt: ChangeAmount) -> (
        TuiModel,
        Option<InputActionView>,
    ) {
        let target = self.step_target(change, amt);
        (
            self.at_page(target),
            if target == self.page {
                None
            } else {
                Some(InputActionView::JumpingToPage(target as usize))
            },
        )
    }

    /// The current page becomes `found`, if there is one.
    pub open spec fn jumped_to(self, found: Option<int>) -> (TuiModel, Option<InputActionView>) {
        match found {
            Some(p) => (
                TuiModel { page: p, last_rect: zero_rect(), ..self },
                Some(InputActionView::JumpingToPage(p as usize)),
            ),
            None => (self, None),
        }
    }

    /// The zoom changed by `f`, if the view is zoomed.
    pub open spec fn zoom_updated(self, f: spec_fn(Zoom) -> Zoom) -> (
        TuiModel,
        Option<InputActionView>,
    ) {
        (
            TuiModel {
                zoom: match self.zoom {
                    Some(z) => Some(f(z)),
                    None => None,
                },
                last_rect: zero_rect(),
                ..self
            },
            Some(InputActionView::Redraw),
        )
    }

    /// A character key while nothing is typed into the status line.
    pub open spec fn on_command(self, c: char, ctrl: bool) -> (TuiModel, Option<InputActionView>) {
        if c == 'l' {
            self.page_changed(PageChange::Next, ChangeAmount::Single)
        } else if c == 'j' {
            self.page_changed(PageChange::Next, ChangeAmount::WholeScreen)
        } else if c == 'h' {
            self.page_changed(PageChange::Prev, ChangeAmount::Single)
        } else if c == 'k' {
            self.page_changed(PageChange::Prev, ChangeAmount::WholeScreen)
        } else if c == 'q' {
            (self, Some(InputActionView::QuitApp))
        } else if c == 'g' {
            (
                self.showing(BottomMessageView::Input(InputCommandView::GoToPage(0))),
                Some(InputActionView::Redraw),
            )
        } else if c == '/' {
            (
                self.showing(BottomMessageView::Input(InputCommandView::Search(Seq::empty()))),
                Some(InputActionView::Redraw),
            )
        } else if c == 'i' {
            (self, Some(InputActionView::Invert))
        } else if c == 'r' {
            (self, Some(InputActionView::Rotate))
        } else if c == '?' {
            (TuiModel { showing_help: true, ..self }, Some(InputActionView::Redraw))
        } else if c == 'f' {
            (self, Some(InputActionView::Fullscreen))
        } else if c == 'n' && self.page + 1 < self.slots.len() {
            self.jumped_to(first_hit_from(self.slots, self.page + 1))
        } else if c == 'N' && self.page > 0 {
            self.jumped_to(
                last_hit_before(
                    self.slots,
                    if self.page <= self.slots.len() {
                        self.page
                    } else {
                        self.slots.len() as int
                    },
                ),
            )
        } else if c == 'z' && ctrl {
            (self, Some(InputActionView::Suspend))
        } else if c == 'z' && self.is_kitty {
            match self.zoom {
                None => (
                    TuiModel {
                        zoom: Some(Zoom { level: 0, cell_pan_from_left: 0, cell_pan_from_top: 0 }),
                        last_rect: zero_rect(),
                        ..self
                    },
                    Some(InputActionView::SwitchRenderZoom(FitOrFill::Fill)),
                ),
                Some(_) => (
                    TuiModel { zoom: None, last_rect: zero_rect(), ..self },
                    Some(InputActionView::SwitchRenderZoom(FitOrFill::Fit)),
                ),
            }
        } else if c == 'o' && self.is_kitty {
            self.zoom_updated(
                |z: Zoom|
                    Zoom {
                        level: if z.level < 0 {
                            (z.level + 1) as i16
                        } else {
                            0
                        },
                        ..z
                    },
            )
        } else if c == 'O' && self.is_kitty {
            self.zoom_updated(
                |z: Zoom|
                    Zoom {
                        level: if z.level > i16::MIN {
                            (z.level - 1) as i16
                        } else {
                            i16::MIN
                        },
                        ..z
                    },
            )
        } else if c == 'L' && self.is_kitty {
            self.zoom_updated(
                |z: Zoom|
                    Zoom {
                        cell_pan_from_left: if z.cell_pan_from_left < u16::MAX {
                            (z.cell_pan_from_left + 1) as u16
                        } else {
                            u16::MAX
                        },
                        ..z
                    },
            )
        } else if c == 'H' && self.is_kitty {
            self.zoom_updated(
                |z: Zoom|
                    Zoom {
                        cell_pan_from_left: if z.cell_pan_from_left > 0 {
                            (z.cell_pan_from_left - 1) as u16
                        } else {
                            0
                        },
                        ..z
                    },
            )
        } else if c == 'J' && self.is_kitty {
            self.zoom_updated(
                |z: Zoom|
                    Zoom {
                        cell_pan_from_top: if z.cell_pan_from_top < u16::MAX {
                            (z.cell_pan_from_top + 1) as u16
                        } else {
                            u16::MAX
                        },
                        ..z
                    },
            )
        } else if c == 'K' && self.is_kitty {
            self.zoom_updated(
                |z: Zoom|
                    Zoom {
                        cell_pan_from_top: if z.cell_pan_from_top > 0 {
                            (z.cell_pan_from_top - 1) as u16
                        } else {
                            0
                        },
                        ..z
                    },
            )
        } else {
            (self, None)
        }
    }

    /// A character key: it goes into the status line while something is typed
    /// there, and is a command otherwise.
    pub open spec fn on_char(self, c: char, ctrl: bool) -> (TuiModel, Option<InputActionView>) {
        match self.bottom {
            BottomMessageView::Input(InputCommandView::Search(term)) => (
                TuiModel {
                    bottom: BottomMessageView::Input(InputCommandView::Search(term.push(c))),
                    ..self
                },
                Some(InputActionView::Redraw),
            ),
            BottomMessageView::Input(InputCommandView::GoToPage(p)) => match digit_value(c) {
                Some(d) => (
                    TuiModel {
                        bottom: BottomMessageView::Input(InputCommandView::GoToPage(grown(p, d))),
                        ..self
                    },
                    Some(InputActionView::Redraw),
                ),
                None => (self, None),
            },
            _ => self.on_command(c, ctrl),
        }
    }

    pub open spec fn on_backspace(self) -> (TuiModel, Option<InputActionView>) {
        match self.bottom {
            BottomMessageView::Input(InputCommandView::Search(term)) => (
                TuiModel {
                    bottom: BottomMessageView::Input(
                        InputCommandView::Search(
                            if term.len() > 0 {
                                term.drop_last()
                            } else {
                                term
                            },
                        ),
                    ),
                    ..self
                },
                Some(InputActionView::Redraw),
            ),
            _ => (self, None),
        }
    }

    pub open spec fn on_esc(self) -> (TuiModel, Option<InputActionView>) {
        if !self.showing_help && self.bottom is Help {
            (self, Some(InputActionView::QuitApp))
        } else {
            (self.popped(), Some(InputActionView::Redraw))
        }
    }

    /// Enter ends what is typed into the status line. A page number is
    /// one-based; one that the document has becomes the current page, another
    /// is answered by an error. A search term is handed on, also when empty,
    /// and every search count is forgotten.
    pub open spec fn on_enter(self) -> (TuiModel, Option<InputActionView>) {
        match self.bottom {
            BottomMessageView::Input(InputCommandView::GoToPage(p)) => {
                let zero_page: int = if p >= 1 {
                    p - 1
                } else {
                    0
                };
                let closed = TuiModel { bottom: BottomMessageView::Help, ..self };
                if zero_page < self.slots.len() {
                    (
                        closed.at_page(zero_page),
                        Some(InputActionView::JumpingToPage(zero_page as usize)),
                    )
                } else {
                    (
                        closed.showing(
                            BottomMessageView::Error(jump_error_text(p, self.slots.len())),
                        ),
                        Some(InputActionView::Redraw),
                    )
                }
            },
            BottomMessageView::Input(InputCommandView::Search(term)) => {
                let closed = TuiModel {
                    bottom: BottomMessageView::Help,
                    slots: counts_cleared(self.slots),
                    ..self
                };
                (
                    if term.len() > 0 {
                        closed.showing(BottomMessageView::SearchResults(term))
                    } else {
                        closed.msg_reset()
                    },
                    Some(InputActionView::Search(term)),
                )
            },
            _ => (self, None),
        }
    }

    /// The state and the action that an event leaves behind.
    pub open spec fn handle(self, ev: Event) -> (TuiModel, Option<InputActionView>) {
        match ev {
            Event::Key { code, ctrl } => match code {
                KeyCode::Char(c) => self.on_char(c, ctrl),
                KeyCode::Backspace => self.on_backspace(),
                KeyCode::Right => self.page_changed(PageChange::Next, ChangeAmount::Single),
                KeyCode::Down => self.page_changed(PageChange::Next, ChangeAmount::WholeScreen),
                KeyCode::Left => self.page_changed(PageChange::Prev, ChangeAmount::Single),
                KeyCode::Up => self.page_changed(PageChange::Prev, ChangeAmount::WholeScreen),
                KeyCode::Esc => self.on_esc(),
                KeyCode::Enter => self.on_enter(),
                KeyCode::Other => (self, None),
            },
            Event::Mouse(kind) => match kind {
                MouseKind::ScrollRight => self.page_changed(PageChange::Next, ChangeAmount::Single),
                MouseKind::ScrollDown => self.page_changed(
                    PageChange::Next,
                    ChangeAmount::WholeScreen,
                ),
                MouseKind::ScrollLeft => self.page_changed(PageChange::Prev, ChangeAmount::Single),
                MouseKind::ScrollUp => self.page_changed(PageChange::Prev, ChangeAmount::WholeScreen),
                MouseKind::Other => (self, None),
            },
            Event::Resize(_, _) => (self, Some(InputActionView::Redraw)),
            Event::Other => (self, None),
        }
    }
}

/// What the last drawing of the pages looked like.
struct LastRender {
    rect: Rect,
    pages_shown: usize,
    unused_width: u16,
}

struct PageConstraints {
    max_wide: Option<usize>,
    r_to_l: bool,
}

/// The user interface: the page buffer, the current page and the status line.
pub struct Tui {
    name: String,
    pub page: usize,
    last_render: LastRender,
    bottom_msg: BottomMessage,
    prev_msg: Option<BottomMessage>,
    rendered: Vec<RenderedInfo>,
    page_constraints: PageConstraints,
    showing_help_msg: bool,
    is_kitty: bool,
    zoom: Option<Zoom>,
}

impl View for Tui {
    type V = TuiModel;

    closed spec fn view(&self) -> TuiModel {
        TuiModel {
            name: self.name@,
            page: self.page as int,
            slots: self.rendered@,
            bottom: self.bottom_msg@,
            prev: match self.prev_msg {
                Some(m) => Some(m@),
                None => None,
            },
            last_rect: self.last_render.rect,
            pages_shown: self.last_render.pages_shown as int,
            unused_width: self.last_render.unused_width as int,
            showing_help: self.showing_help_msg,
            is_kitty: self.is_kitty,
            zoom: self.zoom,
            max_wide: self.page_constraints.max_wide,
            r_to_l: self.page_constraints.r_to_l,
        }
    }
}

fn grow(p: usize, d: usize) -> (r: usize)
    requires
        d < 10,
    ensures
        r == grown(p, d as nat),
{
    if p > (usize::MAX - d) / 10 {
        usize::MAX
    } else {
        p * 10 + d
    }
}

fn find_hit_from(slots: &Vec<RenderedInfo>, start: usize) -> (r: Option<usize>)
    ensures
        match r {
            Some(i) => first_hit_from(slots@, start as int) == Some(i as int),
            None => first_hit_from(slots@, start as int) is None,
        },
{
    let mut i = start;
    while i < slots.len()
        invariant
            start <= i,
            first_hit_from(slots@, start as int) == first_hit_from(slots@, i as int),
        decreases slots.len() - i,
    {
        let hit = match slots[i].num_results {
            Some(n) => n > 0,
            None => false,
        };
        if hit {
            return Some(i);
        }
        i = i + 1;
    }
    None
}

fn find_hit_before(slots: &Vec<RenderedInfo>, end: usize) -> (r: Option<usize>)
    requires
        end <= slots.len(),
    ensures
        match r {
            Some(i) => last_hit_before(slots@, end as int) == Some(i as int),
            None => last_hit_before(slots@, end as int) is None,
        },
{
    let mut i = end;
    while i > 0
        invariant
            i <= end <= slots.len(),
            last_hit_before(slots@, end as int) == last_hit_before(slots@, i as int),
        decreases i,
    {
        let hit = match slots[i - 1].num_results {
            Some(n) => n > 0,
            None => false,
        };
        if hit {
            return Some(i - 1);
        }
        i = i - 1;
    }
    None
}

fn clear_counts(slots: &mut Vec<RenderedInfo>)
    ensures
        final(slots)@ == counts_cleared(old(slots)@),
{
    let n = slots.len();
    let mut i: usize = 0;
    while i < n
        invariant
            i <= n,
            slots.len() == n,
            old(slots).len() == n,
            forall|j: int| 0 <= j < i ==> #[trigger] slots[j] == counts_cleared(old(slots)@)[j],
            forall|j: int| i <= j < n ==> #[trigger] slots[j] == old(slots)[j],
        decreases n - i,
    {
        let img = slots[i].img;
        slots.set(i, RenderedInfo { img, num_results: None });
        i = i + 1;
    }
    assert(slots@ =~= counts_cleared(old(slots)@));
}

impl Tui {
    /// A user interface for the document `name`, which shows at most
    /// `max_wide` pages side by side.
    pub fn new(name: String, max_wide: Option<usize>, r_to_l: bool, is_kitty: bool) -> (t: Tui)
        ensures
            t@ == (TuiModel {
                name: name@,
                page: 0,
                slots: Seq::empty(),
                bottom: BottomMessageView::Help,
                prev: None,
                last_rect: zero_rect(),
                pages_shown: 0,
                unused_width: 0,
                showing_help: false,
                is_kitty,
                zoom: None,
                max_wide,
                r_to_l,
            }),
    {
        Tui {
            name,
            page: 0,
            prev_msg: None,
            bottom_msg: BottomMessage::Help,
            last_render: LastRender { rect: Rect::zero(), pages_shown: 0, unused_width: 0 },
            rendered: Vec::new(),
            page_constraints: PageConstraints { max_wide, r_to_l },
            showing_help_msg: false,
            is_kitty,
            zoom: None,
        }
    }

    /// Makes `page` the current page.
    pub fn set_page(&mut self, page: usize)
        ensures
            final(self)@ == old(self)@.at_page(page as int),
    {
        if page != self.page {
            self.last_render.rect = Rect::zero();
            self.page = page;
        }
    }

    /// Changes what the status line shows.
    pub fn set_msg(&mut self, msg: MessageSetting)
        ensures
            final(self)@ == match msg {
                MessageSetting::Show(m) => old(self)@.showing(m@),
                MessageSetting::Default => old(self)@.showing(BottomMessageView::Help),
                MessageSetting::Reset => old(self)@.msg_reset(),
                MessageSetting::Pop => old(self)@.popped(),
            },
    {
        match msg {
            MessageSetting::Show(m) => {
                let mut m = m;
                core::mem::swap(&mut self.bottom_msg, &mut m);
                self.prev_msg = Some(m);
            },
            MessageSetting::Default => {
                let mut m = BottomMessage::Help;
                core::mem::swap(&mut self.bottom_msg, &mut m);
                self.prev_msg = Some(m);
            },
            MessageSetting::Reset => {
                self.prev_msg = None;
                self.bottom_msg = BottomMessage::Help;
            },
            MessageSetting::Pop => {
                if self.showing_help_msg {
                    self.last_render.rect = Rect::zero();
                    self.showing_help_msg = false;
                } else {
                    let kept = self.prev_msg.take();
                    self.bottom_msg = match kept {
                        Some(m) => m,
                        None => BottomMessage::Help,
                    };
                }
            },
        }
    }

    fn change_page(&mut self, change: PageChange, amt: ChangeAmount) -> (r: Option<InputAction>)
        ensures
            (final(self)@, action_view(r)) == old(self)@.page_changed(change, amt),
    {
        let diff = match amt {
            ChangeAmount::Single => 1,
            ChangeAmount::WholeScreen => self.last_render.pages_shown,
        };
        let dir = if self.page_constraints.r_to_l {
            match change {
                PageChange::Next => PageChange::Prev,
                PageChange::Prev => PageChange::Next,
            }
        } else {
            change
        };
        let last = if self.rendered.len() > 0 {
            self.rendered.len() - 1
        } else {
            0
        };
        let old_page = self.page;
        let target = match dir {
            PageChange::Next => if self.page < last && diff < last - self.page {
                self.page + diff
            } else {
                last
            },
            PageChange::Prev => if self.page >= diff {
                self.page - diff
            } else {
                0
            },
        };
        self.set_page(target);
        if target == old_page {
            None
        } else {
            Some(InputAction::JumpingToPage(target))
        }
    }

    fn jump_to(&mut self, found: Option<usize>) -> (r: Option<InputAction>)
        ensures
            (final(self)@, action_view(r)) == old(self)@.jumped_to(
                match found {
                    Some(p) => Some(p as int),
                    None => None,
                },
            ),
    {
        match found {
            Some(p) => {
                self.page = p;
                self.last_render.rect = Rect::zero();
                Some(InputAction::JumpingToPage(p))
            },
            None => None,
        }
    }

    fn toggle_zoom(&mut self) -> (r: Option<InputAction>)
        requires
            old(self)@.is_kitty,
        ensures
            (final(self)@, action_view(r)) == old(self)@.on_command('z', false),
    {
        let f_or_f = match self.zoom {
            None => {
                self.zoom = Some(Zoom { level: 0, cell_pan_from_left: 0, cell_pan_from_top: 0 });
                FitOrFill::Fill
            },
            Some(_) => {
                self.zoom = None;
                FitOrFill::Fit
            },
        };
        self.last_render.rect = Rect::zero();
        Some(InputAction::SwitchRenderZoom(f_or_f))
    }

    /// Applies a zoom or pan key, which `c` is, to the zoom.
    fn update_zoom(&mut self, c: char) -> (r: Option<InputAction>)
        requires
            old(self)@.is_kitty,
            c == 'o' || c == 'O' || c == 'L' || c == 'H' || c == 'J' || c == 'K',
        ensures
            (final(self)@, action_view(r)) == old(self)@.on_command(c, false),
            (final(self)@, action_view(r)) == old(self)@.on_command(c, true),
    {
        match self.zoom {
            Some(z) => {
                let z2 = if c == 'o' {
                    Zoom {
                        level: if z.level < 0 {
                            z.level + 1
                        } else {
                            0
                        },
                        ..z
                    }
                } else if c == 'O' {
                    Zoom {
                        level: if z.level > i16::MIN {
                            z.level - 1
                        } else {
                            i16::MIN
                        },
                        ..z
                    }
                } else if c == 'L' {
                    Zoom {
                        cell_pan_from_left: if z.cell_pan_from_left < u16::MAX {
                            z.cell_pan_from_left + 1
                        } else {
                            u16::MAX
                        },
                        ..z
                    }
                } else if c == 'H' {
                    Zoom {
                        cell_pan_from_left: if z.cell_pan_from_left > 0 {
                            z.cell_pan_from_left - 1
                        } else {
                            0
                        },
                        ..z
                    }
                } else if c == 'J' {
                    Zoom {
                        cell_pan_from_top: if z.cell_pan_from_top < u16::MAX {
                            z.cell_pan_from_top + 1
                        } else {
                            u16::MAX
                        },
                        ..z
                    }
                } else {
                    Zoom {
                        cell_pan_from_top: if z.cell_pan_from_top > 0 {
                            z.cell_pan_from_top - 1
                        } else {
                            0
                        },
                        ..z
                    }
                };
                self.zoom = Some(z2);
            },
            None => {},
        }
        self.last_render.rect = Rect::zero();
        Some(InputAction::Redraw)
    }

    fn on_command(&mut self, c: char, ctrl: bool) -> (r: Option<InputAction>)
        ensures
            (final(self)@, action_view(r)) == old(self)@.on_command(c, ctrl),
    {
        let len = self.rendered.len();
        if c == 'l' {
            self.change_page(PageChange::Next, ChangeAmount::Single)
        } else if c == 'j' {
            self.change_page(PageChange::Next, ChangeAmount::WholeScreen)
        } else if c == 'h' {
            self.change_page(PageChange::Prev, ChangeAmount::Single)
        } else if c == 'k' {
            self.change_page(PageChange::Prev, ChangeAmount::WholeScreen)
        } else if c == 'q' {
            Some(InputAction::QuitApp)
        } else if c == 'g' {
            self.set_msg(MessageSetting::Show(BottomMessage::Input(InputCommand::GoToPage(0))));
            Some(InputAction::Redraw)
        } else if c == '/' {
            self.set_msg(
                MessageSetting::Show(BottomMessage::Input(InputCommand::Search(String::new()))),
            );
            Some(InputAction::Redraw)
        } else if c == 'i' {
            Some(InputAction::Invert)
        } else if c == 'r' {
            Some(InputAction::Rotate)
        } else if c == '?' {
            self.showing_help_msg = true;
            Some(InputAction::Redraw)
        } else if c == 'f' {
            Some(InputAction::Fullscreen)
        } else if c == 'n' && self.page < len && self.page + 1 < len {
            let found = find_hit_from(&self.rendered, self.page + 1);
            self.jump_to(found)
        } else if c == 'N' && self.page > 0 {
            let end = if self.page <= self.rendered.len() {
                self.page
            } else {
                self.rendered.len()
            };
            let found = find_hit_before(&self.rendered, end);
            self.jump_to(found)
        } else if c == 'z' && ctrl {
            Some(InputAction::Suspend)
        } else if c == 'z' && self.is_kitty {
            self.toggle_zoom()
        } else if (c == 'o' || c == 'O' || c == 'L' || c == 'H' || c == 'J' || c == 'K')
            && self.is_kitty {
            self.update_zoom(c)
        } else {
            None
        }
    }

    fn on_char(&mut self, c: char, ctrl: bool) -> (r: Option<InputAction>)
        ensures
            (final(self)@, action_view(r)) == old(self)@.on_char(c, ctrl),
    {
        let mut cur = BottomMessage::Help;
        core::mem::swap(&mut self.bottom_msg, &mut cur);
        match cur {
            BottomMessage::Input(InputCommand::Search(term)) => {
                let mut term = term;
                term.push(c);
                self.bottom_msg = BottomMessage::Input(InputCommand::Search(term));
                Some(InputAction::Redraw)
            },
            BottomMessage::Input(InputCommand::GoToPage(p)) => {
                match char_to_digit(c) {
                    Some(d) => {
                        self.bottom_msg = BottomMessage::Input(InputCommand::GoToPage(grow(p, d)));
                        Some(InputAction::Redraw)
                    },
                    None => {
                        self.bottom_msg = BottomMessage::Input(InputCommand::GoToPage(p));
                        None
                    },
                }
            },
            other => {
                self.bottom_msg = other;
                self.on_command(c, ctrl)
            },
        }
    }

    fn on_backspace(&mut self) -> (r: Option<InputAction>)
        ensures
            (final(self)@, action_view(r)) == old(self)@.on_backspace(),
    {
        let mut cur = BottomMessage::Help;
        core::mem::swap(&mut self.bottom_msg, &mut cur);
        match cur {
            BottomMessage::Input(InputCommand::Search(term)) => {
                let mut term = term;
                let _ = term.pop();
                self.bottom_msg = BottomMessage::Input(InputCommand::Search(term));
                Some(InputAction::Redraw)
            },
            other => {
                self.bottom_msg = other;
                None
            },
        }
    }

    fn on_esc(&mut self) -> (r: Option<InputAction>)
        ensures
            (final(self)@, action_view(r)) == old(self)@.on_esc(),
    {
        let closing = !self.showing_help_msg && match self.bottom_msg {
            BottomMessage::Help => true,
            _ => false,
        };
        if closing {
            Some(InputAction::QuitApp)
        } else {
            self.set_msg(MessageSetting::Pop);
            Some(InputAction::Redraw)
        }
    }

    fn on_enter(&mut self) -> (r: Option<InputAction>)
        ensures
            (final(self)@, action_view(r)) == old(self)@.on_enter(),
    {
        let mut cur = BottomMessage::Help;
        core::mem::swap(&mut self.bottom_msg, &mut cur);
        match cur {
            BottomMessage::Input(InputCommand::GoToPage(page)) => {
                let zero_page = if page >= 1 {
                    page - 1
                } else {
                    0
                };
                let rendered_len = self.rendered.len();
                if zero_page < rendered_len {
                    self.set_page(zero_page);
                    Some(InputAction::JumpingToPage(zero_page))
                } else {
                    let mut text = String::new();
                    push_text(&mut text, "Cannot jump to page ");
                    push_decimal(&mut text, page as u128);
                    push_text(&mut text, "; there are only ");
                    push_decimal(&mut text, rendered_len as u128);
                    push_text(&mut text, " pages in the document");
                    assert(text@ =~= jump_error_text(page, rendered_len as nat));
                    self.set_msg(MessageSetting::Show(BottomMessage::Error(text)));
                    Some(InputAction::Redraw)
                }
            },
            BottomMessage::Input(InputCommand::Search(term)) => {
                if !term.as_str().is_empty() {
                    self.set_msg(MessageSetting::Show(BottomMessage::SearchResults(term.clone())));
                } else {
                    self.set_msg(MessageSetting::Reset);
                }
                clear_counts(&mut self.rendered);
                Some(InputAction::Search(term))
            },
            other => {
                self.bottom_msg = other;
                None
            },
        }
    }

    /// Takes an event of the terminal in.
    pub fn handle_event(&mut self, ev: &Event) -> (r: Option<InputAction>)
        ensures
            (final(self)@, action_view(r)) == old(self)@.handle(*ev),
    {
        match *ev {
            Event::Key { code, ctrl } => match code {
                KeyCode::Char(c) => self.on_char(c, ctrl),
                KeyCode::Backspace => self.on_backspace(),
                KeyCode::Right => self.change_page(PageChange::Next, ChangeAmount::Single),
                KeyCode::Down => self.change_page(PageChange::Next, ChangeAmount::WholeScreen),
                KeyCode::Left => self.change_page(PageChange::Prev, ChangeAmount::Single),
                KeyCode::Up => self.change_page(PageChange::Prev, ChangeAmount::WholeScreen),
                KeyCode::Esc => self.on_esc(),
                KeyCode::Enter => self.on_enter(),
                KeyCode::Other => None,
            },
            Event::Mouse(kind) => match kind {
                MouseKind::ScrollRight => self.change_page(PageChange::Next, ChangeAmount::Single),
                MouseKind::ScrollDown => self.change_page(
                    PageChange::Next,
                    ChangeAmount::WholeScreen,
                ),
                MouseKind::ScrollLeft => self.change_page(PageChange::Prev, ChangeAmount::Single),
                MouseKind::ScrollUp => self.change_page(PageChange::Prev, ChangeAmount::WholeScreen),
                MouseKind::Other => None,
            },
            Event::Resize(_, _) => Some(InputAction::Redraw),
            Event::Other => None,
        }
    }

    /// The process runs again after a suspension. What the terminal held is
    /// taken as gone: every slot whose image the terminal held loses it, and
    /// everything is drawn anew. The answer is the pages that are to be
    /// rendered again, in their order, so that their images are sent once more.
    pub fn resumed(&mut self) -> (lost: Vec<usize>)
        ensures
            final(self)@ == old(self)@.resumed(),
            lost@ == held_pages(old(self)@.slots, old(self)@.slots.len()),
    {
        let mut lost: Vec<usize> = Vec::new();
        let n = self.rendered.len();
        let mut i: usize = 0;
        while i < n
            invariant
                i <= n,
                self.rendered.len() == n,
                old(self)@.slots.len() == n,
                self@ == (TuiModel { slots: self@.slots, ..old(self)@ }),
                lost@ == held_pages(old(self)@.slots, i as nat),
                forall|j: int| 0 <= j < i ==> #[trigger] self@.slots[j] == slot_resumed(old(self)@.slots[j]),
                forall|j: int| i <= j < n ==> #[trigger] self@.slots[j] == old(self)@.slots[j],
            decreases n - i,
        {
            let slot = self.rendered[i];
            let held = match slot.img {
                Some(ConvertedImage::Kitty { img: MaybeTransferred::Transferred(_), cell_w: _, cell_h: _ }) => true,
                _ => false,
            };
            if held {
                self.rendered.set(i, RenderedInfo { img: None, num_results: slot.num_results });
                lost.push(i);
            }
            i = i + 1;
        }
        self.last_render.rect = Rect::zero();
        assert(self@.slots =~= slots_resumed(old(self)@.slots));
        lost
    }

    /// The current page.
    pub fn page(&self) -> (p: usize)
        ensures
            p == self@.page,
    {
        self.page
    }

    /// What holds of the state of every user interface. (That the page
    /// buffer is no longer than the largest number follows from `n_pages`.)
    pub proof fn lemma_view_is_valid(&self)
        ensures
            0 <= self@.page <= usize::MAX,
            0 <= self@.pages_shown,
            0 <= self@.unused_width,
    {
    }

    /// The document has `n_pages` pages: the page buffer holds as many empty
    /// slots, and the current page is none past the last.
    pub fn set_n_pages(&mut self, n_pages: usize)
        ensures
            final(self)@ == (TuiModel {
                slots: Seq::new(n_pages as nat, |i: int| RenderedInfo { img: None, num_results: None }),
                page: if n_pages == 0 {
                    0
                } else if old(self)@.page < n_pages {
                    old(self)@.page
                } else {
                    n_pages - 1
                },
                ..old(self)@
            }),
    {
        fill_default(&mut self.rendered, n_pages);
        if n_pages == 0 {
            self.page = 0;
        } else if self.page >= n_pages {
            self.page = n_pages - 1;
        }
        assert(self.rendered@ =~= Seq::new(
            n_pages as nat,
            |i: int| RenderedInfo { img: None, num_results: None },
        ));
    }

    /// The converter delivered the image of a page. It goes into its slot,
    /// with the number of occurrences of the term. The pages are drawn anew
    /// where the image may belong on the screen: among the pages shown or right
    /// after them, or after them within the room that was left. An image for a
    /// page that the document does not have is dropped.
    pub fn page_ready(&mut self, img: ConvertedImage, page_num: usize, num_results: usize)
        ensures
            final(self)@ == old(self)@.with_image(img, page_num, num_results),
    {
        if page_num >= self.rendered.len() {
            return ;
        }
        let img_w = img.w_h().0;
        let ahead = page_num >= self.page;
        let near = ahead && page_num - self.page <= self.last_render.pages_shown;
        let fits = ahead && img_w <= self.last_render.unused_width && (img_w == 0 || page_num
            - self.page <= (self.last_render.unused_width / img_w) as usize);
        if near || fits {
            self.last_render.rect = Rect::zero();
        }
        self.rendered.set(page_num, RenderedInfo { img: Some(img), num_results: Some(num_results) });
    }

    /// The terminal could not show the image of a page: its slot loses it.
    pub fn page_failed_display(&mut self, page_num: usize)
        ensures
            final(self)@ == (TuiModel {
                slots: if page_num < old(self)@.slots.len() {
                    old(self)@.slots.update(
                        page_num as int,
                        RenderedInfo {
                            img: None,
                            num_results: old(self)@.slots[page_num as int].num_results,
                        },
                    )
                } else {
                    old(self)@.slots
                },
                ..old(self)@
            }),
    {
        if page_num < self.rendered.len() {
            let num_results = self.rendered[page_num].num_results;
            self.rendered.set(page_num, RenderedInfo { img: None, num_results });
        }
    }

    /// The term occurs `num_results` times on a page.
    pub fn got_num_results_on_page(&mut self, page_num: usize, num_results: usize)
        ensures
            final(self)@ == (TuiModel {
                slots: if page_num < old(self)@.slots.len() {
                    old(self)@.slots.update(
                        page_num as int,
                        RenderedInfo {
                            img: old(self)@.slots[page_num as int].img,
                            num_results: Some(num_results),
                        },
                    )
                } else {
                    old(self)@.slots
                },
                ..old(self)@
            }),
    {
        if page_num < self.rendered.len() {
            let img = self.rendered[page_num].img;
            self.rendered.set(page_num, RenderedInfo { img, num_results: Some(num_results) });
        }
    }

    /// Puts an error on the status line.
    pub fn show_error(&mut self, err: RenderError)
        ensures
            final(self)@ == old(self)@.showing(BottomMessageView::Error(error_text(err))),
    {
        let mut text = String::new();
        match err {
            RenderError::Notify(e) => {
                push_text(&mut text, "Auto-reload failed: ");
                push_text(&mut text, e.as_str());
            },
            RenderError::Doc(e) => {
                push_text(&mut text, "Couldn't process document: ");
                push_text(&mut text, e.as_str());
            },
            RenderError::Converting(e) => {
                push_text(&mut text, "Couldn't convert page after rendering: ");
                push_text(&mut text, e.as_str());
            },
        }
        assert(text@ =~= error_text(err));
        self.set_msg(MessageSetting::Show(BottomMessage::Error(text)));
    }

    /// How many pages the document has.
    pub fn n_pages(&self) -> (n: usize)
        ensures
            n == self@.slots.len(),
    {
        self.rendered.len()
    }

    /// The slot of a page.
    pub fn slot(&self, page_num: usize) -> (s: Option<RenderedInfo>)
        ensures
            s == if page_num < self@.slots.len() {
                Some(self@.slots[page_num as int])
            } else {
                None
            },
    {
        if page_num < self.rendered.len() {
            Some(self.rendered[page_num])
        } else {
            None
        }
    }

    /// Whether the help page is open.
    pub fn showing_help(&self) -> (b: bool)
        ensures
            b == self@.showing_help,
    {
        self.showing_help_msg
    }

    /// The zoom, while the view is zoomed.
    pub fn zoom(&self) -> (z: Option<Zoom>)
        ensures
            z == self@.zoom,
    {
        self.zoom
    }
}

/// What the status line says of an error.
pub open spec fn error_text(err: RenderError) -> Seq<char> {
    match err {
        RenderError::Notify(e) => "Auto-reload failed: "@ + e@,
        RenderError::Doc(e) => "Couldn't process document: "@ + e@,
        RenderError::Converting(e) => "Couldn't convert page after rendering: "@ + e@,
    }
}

impl TuiModel {
    /// An image of `page_num` that is `w` cells wide may belong on the screen
    /// as it was drawn last.
    pub open spec fn touches_screen(self, page_num: int, w: int) -> bool {
        &&& page_num >= self.page
        &&& {
            ||| page_num - self.page <= self.pages_shown
            ||| w <= self.unused_width && (w == 0 || page_num - self.page <= self.unused_width / w)
        }
    }

    /// The state after the image of a page has arrived.
    pub open spec fn with_image(self, img: ConvertedImage, page_num: usize, num_results: usize) -> TuiModel {
        if page_num < self.slots.len() {
            TuiModel {
                slots: self.slots.update(
                    page_num as int,
                    RenderedInfo { img: Some(img), num_results: Some(num_results) },
                ),
                last_rect: if self.touches_screen(page_num as int, img.size().0 as int) {
                    zero_rect()
                } else {
                    self.last_rect
                },
                ..self
            }
        } else {
            self
        }
    }
}

/// What the zoomed view needs worked out before its frame: the page area
/// that it draws into and the size of the image in cells.
#[derive(Clone, Copy, Debug, PartialEq, Eq, Structural)]
pub struct ZoomRequest {
    pub area: Rect,
    pub cell_w: u16,
    pub cell_h: u16,
}

/// The words of the title bar and of the status line.
#[derive(Clone, Debug, PartialEq, Eq)]
pub struct StatusBar {
    pub title: String,
    pub page_label: String,
    pub rendered_label: String,
    pub message: String,
    pub tone: Tone,
}

impl TuiModel {
    /// The view is zoomed and the current page has an image that goes through
    /// the image protocol.
    pub open spec fn zoom_applies(self) -> bool {
        &&& self.zoom is Some
        &&& 0 <= self.page < self.slots.len()
        &&& self.slots[self.page].img matches Some(img)
        &&& img is Kitty
    }

    /// The frame of a zoomed view: the current page alone, panned no further
    /// than the image reaches.
    pub open spec fn zoomed_frame(self, size: Rect, page_area: Rect, font: (u16, u16), fit: ZoomFit) -> (
        TuiModel,
        PagesPlanView,
    ) {
        let zoom = self.zoom->0;
        let img = self.slots[self.page].img->0;
        let (cell_w, cell_h) = img.size();
        let area = zoomed_area(page_area, zoom.level);
        let room_left: int = if cell_w > fit.new_cell_w {
            cell_w - fit.new_cell_w
        } else {
            0
        };
        let room_top: int = if cell_h > fit.new_cell_h {
            cell_h - fit.new_cell_h
        } else {
            0
        };
        let pan_left = if zoom.cell_pan_from_left < room_left {
            zoom.cell_pan_from_left
        } else {
            room_left as u16
        };
        let pan_top = if zoom.cell_pan_from_top < room_top {
            zoom.cell_pan_from_top
        } else {
            room_top as u16
        };
        (
            TuiModel {
                zoom: Some(
                    Zoom { level: zoom.level, cell_pan_from_left: pan_left, cell_pan_from_top: pan_top },
                ),
                last_rect: size,
                pages_shown: 1,
                unused_width: 0,
                ..self
            },
            PagesPlanView::Zoomed(
                KittyReadyToDisplay {
                    img: img->img,
                    page_num: self.page as usize,
                    pos: Position { x: area.x, y: area.y },
                    display_loc: DisplayLocation {
                        x: (pan_left * font.0) as u32,
                        y: (pan_top * font.1) as u32,
                        width: fit.width_px,
                        height: fit.height_px,
                        columns: area.width,
                        rows: area.height,
                    },
                },
            ),
        )
    }

    /// How many pages the next frame shows inside `page_area`.
    pub open spec fn shown_count(self, page_area: Rect) -> nat {
        fit_count(
            self.slots,
            self.page,
            page_budget(self.max_wide, self.slots.len()),
            page_area.width as int,
        )
    }

    /// The frame of the pages side by side: as many from the current page on
    /// as are ready, allowed and fit, in the middle of the page area; or the
    /// word that none is ready.
    pub open spec fn paged_frame(self, size: Rect, page_area: Rect) -> (TuiModel, PagesPlanView) {
        let k = self.shown_count(page_area);
        if k == 0 {
            (self, PagesPlanView::Loading)
        } else {
            let unused = page_area.width - widths_sum(self.slots, self.page, k);
            (
                TuiModel { pages_shown: k as int, unused_width: unused, last_rect: size, ..self },
                PagesPlanView::Pages(
                    Seq::new(
                        k,
                        |i: int|
                            placed_at(self.slots, self.page, k as int, self.r_to_l, page_area, unused, i),
                    ),
                ),
            )
        }
    }

    /// The state and the plan that a frame of `size` leaves behind.
    pub open spec fn frame(self, size: Rect, page_area: Rect, font: (u16, u16), fit: Option<ZoomFit>) -> (
        TuiModel,
        PagesPlanView,
    ) {
        if self.showing_help {
            (self, PagesPlanView::Help)
        } else if size == self.last_rect {
            (self, PagesPlanView::Unchanged)
        } else if self.zoom_applies() && fit is Some {
            self.zoomed_frame(size, page_area, font, fit->0)
        } else {
            self.paged_frame(size, page_area)
        }
    }
}

impl Tui {
    /// What has to be worked out before the next frame, if it is a zoomed
    /// one.
    pub fn zoom_request(&self, size: Rect, layout: &RenderLayout) -> (r: Option<ZoomRequest>)
        ensures
            r == if !self@.showing_help && size != self@.last_rect && self@.zoom_applies() {
                Some(
                    ZoomRequest {
                        area: zoomed_area(layout.page_area, self@.zoom->0.level),
                        cell_w: self@.slots[self@.page].img->0.size().0,
                        cell_h: self@.slots[self@.page].img->0.size().1,
                    },
                )
            } else {
                None
            },
    {
        if self.showing_help_msg || size == self.last_render.rect || self.page >= self.rendered.len() {
            return None;
        }
        match (self.zoom, self.rendered[self.page].img) {
            (Some(zoom), Some(ConvertedImage::Kitty { img: _, cell_w, cell_h })) => Some(
                ZoomRequest { area: zoom_area(layout.page_area, zoom.level), cell_w, cell_h },
            ),
            _ => None,
        }
    }

    /// Plans the next frame for a screen of `size`, and notes what it shows.
    /// `font_size` is the size of a cell in pixels; `fit` is what was worked
    /// out for a zoomed view.
    pub fn render(
        &mut self,
        size: Rect,
        layout: &RenderLayout,
        font_size: (u16, u16),
        fit: Option<ZoomFit>,
    ) -> (plan: PagesPlan)
        ensures
            (final(self)@, plan@) == old(self)@.frame(size, layout.page_area, font_size, fit),
    {
        if self.showing_help_msg {
            return PagesPlan::Help;
        }
        if size == self.last_render.rect {
            return PagesPlan::Unchanged;
        }
        let page_area = layout.page_area;
        if self.page < self.rendered.len() {
            match (self.zoom, self.rendered[self.page].img, fit) {
                (
                    Some(zoom),
                    Some(ConvertedImage::Kitty { img, cell_w, cell_h }),
                    Some(fit),
                ) => {
                    let area = zoom_area(page_area, zoom.level);
                    let room_left = if cell_w > fit.new_cell_w {
                        cell_w - fit.new_cell_w
                    } else {
                        0
                    };
                    let room_top = if cell_h > fit.new_cell_h {
                        cell_h - fit.new_cell_h
                    } else {
                        0
                    };
                    let pan_left = if zoom.cell_pan_from_left < room_left {
                        zoom.cell_pan_from_left
                    } else {
                        room_left
                    };
                    let pan_top = if zoom.cell_pan_from_top < room_top {
                        zoom.cell_pan_from_top
                    } else {
                        room_top
                    };
                    self.zoom = Some(
                        Zoom {
                            level: zoom.level,
                            cell_pan_from_left: pan_left,
                            cell_pan_from_top: pan_top,
                        },
                    );
                    self.last_render = LastRender { rect: size, pages_shown: 1, unused_width: 0 };
                    assert(pan_left * font_size.0 <= 0xffff * 0xffff) by (nonlinear_arith)
                        requires
                            pan_left <= 0xffff,
                            font_size.0 <= 0xffff,
                    ;
                    assert(pan_top * font_size.1 <= 0xffff * 0xffff) by (nonlinear_arith)
                        requires
                            pan_top <= 0xffff,
                            font_size.1 <= 0xffff,
                    ;
                    return PagesPlan::Zoomed(
                        KittyReadyToDisplay {
                            img,
                            page_num: self.page,
                            pos: Position { x: area.x, y: area.y },
                            display_loc: DisplayLocation {
                                x: (pan_left as u32) * (font_size.0 as u32),
                                y: (pan_top as u32) * (font_size.1 as u32),
                                width: fit.width_px,
                                height: fit.height_px,
                                columns: area.width,
                                rows: area.height,
                            },
                        },
                    );
                },
                _ => {},
            }
        }
        let (k, used) = count_fitting(
            &self.rendered,
            self.page,
            self.page_constraints.max_wide,
            page_area.width,
        );
        if k == 0 {
            return PagesPlan::Loading;
        }
        let unused = page_area.width - used;
        let placed = place_pages(
            &self.rendered,
            self.page,
            k,
            self.page_constraints.r_to_l,
            page_area,
            unused,
        );
        self.last_render.pages_shown = k;
        self.last_render.unused_width = unused;
        self.last_render.rect = size;
        assert(placed@ =~= Seq::new(
            k as nat,
            |i: int|
                placed_at(
                    old(self)@.slots,
                    old(self)@.page,
                    k as int,
                    old(self)@.r_to_l,
                    page_area,
                    unused as int,
                    i,
                ),
        ));
        PagesPlan::Pages(placed)
    }

    /// The terminal took the pixels of a page's image and keeps them under
    /// `id`: from now on the image is shown by that id.
    pub fn image_transferred(&mut self, page_num: usize, id: u32)
        ensures
            final(self)@ == (TuiModel {
                slots: if page_num < old(self)@.slots.len() {
                    old(self)@.slots.update(
                        page_num as int,
                        transferred(old(self)@.slots[page_num as int], id),
                    )
                } else {
                    old(self)@.slots
                },
                ..old(self)@
            }),
    {
        if page_num < self.rendered.len() {
            let slot = self.rendered[page_num];
            let img = match slot.img {
                Some(ConvertedImage::Kitty { img: _, cell_w, cell_h }) => Some(
                    ConvertedImage::Kitty { img: MaybeTransferred::Transferred(id), cell_w, cell_h },
                ),
                other => other,
            };
            self.rendered.set(page_num, RenderedInfo { img, num_results: slot.num_results });
        }
    }

    /// The words of the title bar and of the status line.
    pub fn status(&self) -> (bar: StatusBar)
        ensures
            bar.title@ == self@.name,
            bar.page_label@ == page_label_text(self@.page as usize, self@.slots.len()),
            bar.rendered_label@ == rendered_label_text(self@.slots),
            bar.message@ == message_text(self@.bottom, self@.slots),
            bar.tone == message_tone(self@.bottom),
    {
        let (message, tone) = bottom_message(&self.bottom_msg, &self.rendered);
        StatusBar {
            title: self.name.clone(),
            page_label: page_label(self.page, self.rendered.len()),
            rendered_label: rendered_label(&self.rendered),
            message,
            tone,
        }
    }
}

/// The slot once the terminal holds its image under `id`; a slot whose image
/// does not go through the image protocol stays as it is.
pub open spec fn transferred(slot: RenderedInfo, id: u32) -> RenderedInfo {
    match slot.img {
        Some(ConvertedImage::Kitty { img: _, cell_w, cell_h }) => RenderedInfo {
            img: Some(
                ConvertedImage::Kitty { img: MaybeTransferred::Transferred(id), cell_w, cell_h },
            ),
            num_results: slot.num_results,
        },
        _ => slot,
    }
}

/// The images of a frame that go through the image protocol, in the order
/// in which they are shown.
pub open spec fn frame_entries(plan: PagesPlanView) -> Seq<KittyReadyToDisplay> {
    match plan {
        PagesPlanView::Pages(placed) => kitty_entries(placed, placed.len()),
        PagesPlanView::Zoomed(e) => seq![e],
        _ => Seq::empty(),
    }
}

/// The request that shows the entry sends no pixels: it shows the image
/// that the terminal holds under `id`.
pub open spec fn shown_by_id(e: KittyReadyToDisplay, id: u32) -> bool {
    request_of(e) == (KittyRequest::Display {
        image_id: id,
        page_num: e.page_num,
        pos: e.pos,
        display_loc: e.display_loc,
    })
}

/// Once the terminal holds the image of a page, a frame shows the page at
/// most once, and by the id of its image: the pixels are not sent again.
pub proof fn lemma_transferred_image_is_shown_by_id(
    m: TuiModel,
    size: Rect,
    page_area: Rect,
    font: (u16, u16),
    fit: Option<ZoomFit>,
    k: usize,
    id: u32,
)
    requires
        m.slots.len() <= usize::MAX,
        0 <= m.page,
        k < m.slots.len(),
        m.slots[k as int].img matches Some(img) && img is Kitty && img->img
            == MaybeTransferred::Transferred(id),
    ensures
        forall|a: int|
            #![trigger frame_entries(m.frame(size, page_area, font, fit).1)[a]]
            0 <= a < frame_entries(m.frame(size, page_area, font, fit).1).len() && frame_entries(
                m.frame(size, page_area, font, fit).1,
            )[a].page_num == k ==> shown_by_id(
                frame_entries(m.frame(size, page_area, font, fit).1)[a],
                id,
            ),
        forall|a: int, b: int|
            #![trigger frame_entries(m.frame(size, page_area, font, fit).1)[a], frame_entries(m.frame(size, page_area, font, fit).1)[b]]
            0 <= a < b < frame_entries(m.frame(size, page_area, font, fit).1).len() ==> !(
            frame_entries(m.frame(size, page_area, font, fit).1)[a].page_num == k && frame_entries(
                m.frame(size, page_area, font, fit).1,
            )[b].page_num == k),
{
    let plan = m.frame(size, page_area, font, fit).1;
    let entries = frame_entries(plan);
    if let PagesPlanView::Pages(placed) = plan {
        let count = m.shown_count(page_area);
        lemma_fit_count_in_bounds(
            m.slots,
            m.page,
            page_budget(m.max_wide, m.slots.len()),
            page_area.width as int,
        );
        let unused = page_area.width - widths_sum(m.slots, m.page, count);
        assert forall|i: int| 0 <= i < count implies (#[trigger] placed[i]).page_num == screen_page(
            m.page,
            count as int,
            m.r_to_l,
            i,
        ) by {
            assert(placed[i] == placed_at(m.slots, m.page, count as int, m.r_to_l, page_area, unused, i));
        }
        assert forall|i: int, j: int| 0 <= i < j < count implies screen_key(
            m.r_to_l,
            (#[trigger] placed[i]).page_num,
        ) < screen_key(m.r_to_l, (#[trigger] placed[j]).page_num) by {}
        lemma_entries_follow_places(placed, count, m.r_to_l);
        assert forall|a: int| 0 <= a < entries.len() && (#[trigger] entries[a]).page_num
            == k implies shown_by_id(entries[a], id) by {
            assert(entry_of_place(placed, count, entries[a]));
            let i = choose|i: int|
                0 <= i < count && (#[trigger] placed[i]).page_num == entries[a].page_num
                    && placed[i].img is Kitty && placed[i].img->img == entries[a].img;
            assert(placed[i] == placed_at(m.slots, m.page, count as int, m.r_to_l, page_area, unused, i));
        }
        assert forall|a: int, b: int| 0 <= a < b < entries.len() implies !((#[trigger] entries[a]).page_num
            == k && (#[trigger] entries[b]).page_num == k) by {
            assert(screen_key(m.r_to_l, entries[a].page_num) < screen_key(
                m.r_to_l,
                entries[b].page_num,
            ));
        }
    }
}

/// The slots of `b` hold the images of `a`.
pub open spec fn same_images(a: TuiModel, b: TuiModel) -> bool {
    &&& a.slots.len() == b.slots.len()
    &&& forall|i: int| 0 <= i < a.slots.len() ==> (#[trigger] b.slots[i]).img == a.slots[i].img
}

proof fn lemma_steps_keep_images(m: TuiModel, change: PageChange, amt: ChangeAmount)
    ensures
        same_images(m, m.page_changed(change, amt).0),
{
}

proof fn lemma_commands_keep_images(m: TuiModel, c: char, ctrl: bool)
    ensures
        same_images(m, m.on_command(c, ctrl).0),
{
    if c == 'l' || c == 'j' || c == 'h' || c == 'k' {
        lemma_steps_keep_images(m, PageChange::Next, ChangeAmount::Single);
        lemma_steps_keep_images(m, PageChange::Next, ChangeAmount::WholeScreen);
        lemma_steps_keep_images(m, PageChange::Prev, ChangeAmount::Single);
        lemma_steps_keep_images(m, PageChange::Prev, ChangeAmount::WholeScreen);
    } else {
        assert(m.on_command(c, ctrl).0.slots == m.slots);
    }
}

proof fn lemma_keys_keep_images(m: TuiModel, code: KeyCode, ctrl: bool)
    ensures
        same_images(m, m.handle(Event::Key { code, ctrl }).0),
{
    match code {
        KeyCode::Char(c) => {
            lemma_commands_keep_images(m, c, ctrl);
        },
        KeyCode::Right => {
            lemma_steps_keep_images(m, PageChange::Next, ChangeAmount::Single);
        },
        KeyCode::Down => {
            lemma_steps_keep_images(m, PageChange::Next, ChangeAmount::WholeScreen);
        },
        KeyCode::Left => {
            lemma_steps_keep_images(m, PageChange::Prev, ChangeAmount::Single);
        },
        KeyCode::Up => {
            lemma_steps_keep_images(m, PageChange::Prev, ChangeAmount::WholeScreen);
        },
        _ => {},
    }
}

/// No event of the terminal touches an image of the page buffer.
pub proof fn lemma_events_keep_images(m: TuiModel, ev: Event)
    ensures
        same_images(m, m.handle(ev).0),
{
    match ev {
        Event::Key { code, ctrl } => {
            lemma_keys_keep_images(m, code, ctrl);
        },
        Event::Mouse(kind) => {
            lemma_steps_keep_images(m, PageChange::Next, ChangeAmount::Single);
            lemma_steps_keep_images(m, PageChange::Next, ChangeAmount::WholeScreen);
            lemma_steps_keep_images(m, PageChange::Prev, ChangeAmount::Single);
            lemma_steps_keep_images(m, PageChange::Prev, ChangeAmount::WholeScreen);
        },
        _ => {},
    }
}

/// No frame touches the page buffer.
pub proof fn lemma_frames_keep_slots(
    m: TuiModel,
    size: Rect,
    page_area: Rect,
    font: (u16, u16),
    fit: Option<ZoomFit>,
)
    ensures
        m.frame(size, page_area, font, fit).0.slots == m.slots,
{
}

/// The entry shows the image of its page's slot, in the state in which the
/// slot holds it.
pub open spec fn entry_of_slot(slots: Seq<RenderedInfo>, e: KittyReadyToDisplay) -> bool {
    &&& e.page_num < slots.len()
    &&& slots[e.page_num as int].img matches Some(img)
    &&& img is Kitty
    &&& img->img == e.img
}

/// Every image that a frame shows through the image protocol is the image
/// of its page's slot.
pub proof fn lemma_entries_come_from_slots(
    m: TuiModel,
    size: Rect,
    page_area: Rect,
    font: (u16, u16),
    fit: Option<ZoomFit>,
)
    requires
        m.slots.len() <= usize::MAX,
        0 <= m.page,
    ensures
        forall|a: int|
            0 <= a < frame_entries(m.frame(size, page_area, font, fit).1).len() ==> entry_of_slot(
                m.slots,
                #[trigger] frame_entries(m.frame(size, page_area, font, fit).1)[a],
            ),
{
    let plan = m.frame(size, page_area, font, fit).1;
    let entries = frame_entries(plan);
    if let PagesPlanView::Pages(placed) = plan {
        let count = m.shown_count(page_area);
        lemma_fit_count_in_bounds(
            m.slots,
            m.page,
            page_budget(m.max_wide, m.slots.len()),
            page_area.width as int,
        );
        let unused = page_area.width - widths_sum(m.slots, m.page, count);
        assert forall|i: int| 0 <= i < count implies (#[trigger] placed[i]).page_num == screen_page(
            m.page,
            count as int,
            m.r_to_l,
            i,
        ) by {
            assert(placed[i] == placed_at(m.slots, m.page, count as int, m.r_to_l, page_area, unused, i));
        }
        assert forall|i: int, j: int| 0 <= i < j < count implies screen_key(
            m.r_to_l,
            (#[trigger] placed[i]).page_num,
        ) < screen_key(m.r_to_l, (#[trigger] placed[j]).page_num) by {}
        lemma_entries_follow_places(placed, count, m.r_to_l);
        assert forall|a: int| 0 <= a < entries.len() implies entry_of_slot(
            m.slots,
            #[trigger] entries[a],
        ) by {
            assert(entry_of_place(placed, count, entries[a]));
            let i = choose|i: int|
                0 <= i < count && (#[trigger] placed[i]).page_num == entries[a].page_num
                    && placed[i].img is Kitty && placed[i].img->img == entries[a].img;
            assert(placed[i] == placed_at(m.slots, m.page, count as int, m.r_to_l, page_area, unused, i));
        }
    }
}

/// After a suspension no slot keeps an image that the terminal held, and
/// the slots that lost theirs are the pages that are rendered again.
pub proof fn lemma_resumed_holds_nothing(m: TuiModel)
    ensures
        m.resumed().slots.len() == m.slots.len(),
        forall|i: int| 0 <= i < m.slots.len() ==> !held_by_terminal(#[trigger] m.resumed().slots[i]),
        forall|i: int|
            0 <= i < m.slots.len() && !held_by_terminal(m.slots[i]) ==> #[trigger] m.resumed().slots[i]
                == m.slots[i],
{
}

/// The frame after a suspension shows no image by an id: every image that
/// it shows through the image protocol is sent with its pixels.
pub proof fn lemma_after_resume_everything_is_sent(
    m: TuiModel,
    size: Rect,
    page_area: Rect,
    font: (u16, u16),
    fit: Option<ZoomFit>,
)
    requires
        m.slots.len() <= usize::MAX,
        0 <= m.page,
    ensures
        forall|a: int|
            0 <= a < frame_entries(m.resumed().frame(size, page_area, font, fit).1).len() ==> (
            #[trigger] request_of(
                frame_entries(m.resumed().frame(size, page_area, font, fit).1)[a],
            )) is TransmitAndDisplay,
{
    let r = m.resumed();
    lemma_entries_come_from_slots(r, size, page_area, font, fit);
    lemma_resumed_holds_nothing(m);
    let entries = frame_entries(r.frame(size, page_area, font, fit).1);
    assert forall|a: int| 0 <= a < entries.len() implies (#[trigger] request_of(
        entries[a],
    )) is TransmitAndDisplay by {
        assert(entry_of_slot(r.slots, entries[a]));
        assert(!held_by_terminal(r.slots[entries[a].page_num as int]));
    }
}

/// The pages that are rendered again after a suspension are those whose
/// images the terminal held, each once, in rising order.
pub proof fn lemma_held_pages(slots: Seq<RenderedInfo>, n: nat)
    requires
        n <= slots.len() <= usize::MAX,
    ensures
        forall|a: int|
            0 <= a < held_pages(slots, n).len() ==> (#[trigger] held_pages(slots, n)[a]) < n
                && held_by_terminal(slots[held_pages(slots, n)[a] as int]),
        forall|a: int, b: int|
            0 <= a < b < held_pages(slots, n).len() ==> (#[trigger] held_pages(slots, n)[a]) < (
            #[trigger] held_pages(slots, n)[b]),
        forall|i: int|
            0 <= i < n && held_by_terminal(slots[i]) ==> held_pages(slots, n).contains(i as usize),
    decreases n,
{
    if n > 0 {
        let m = (n - 1) as nat;
        lemma_held_pages(slots, m);
        let before = held_pages(slots, m);
        let now = held_pages(slots, n);
        assert forall|i: int| 0 <= i < n && held_by_terminal(slots[i]) implies now.contains(
            i as usize,
        ) by {
            if i < m {
                let a = choose|a: int| 0 <= a < before.len() && before[a] == i as usize;
                assert(now[a] == i as usize);
            } else {
                assert(now[now.len() - 1] == i as usize);
            }
        }
    }
}

} // verus!
