//! Which pages fit on the screen side by side, and where each of them goes.

use vstd::prelude::*;
use crate::converter::ConvertedImage;
use crate::geometry::{Position, Rect};
use crate::kitty::{DisplayLocation, KittyDisplay, KittyReadyToDisplay};
use crate::tui::RenderedInfo;

verus! {

/// A sum of cells that stops at the last column there is.
pub open spec fn add16(a: int, b: int) -> int {
    if a + b > u16::MAX {
        u16::MAX as int
    } else {
        a + b
    }
}

fn add_cells(a: u16, b: u16) -> (r: u16)
    ensures
        r == add16(a as int, b as int),
{
    if b > u16::MAX - a {
        u16::MAX
    } else {
        a + b
    }
}

/// The width in cells of the image of a slot; zero without an image.
pub open spec fn slot_width(slot: RenderedInfo) -> int {
    match slot.img {
        Some(img) => img.size().0 as int,
        None => 0,
    }
}

/// How many pages from `start` on are shown side by side: as many in a row
/// as have an image, are allowed by `budget`, and fit into `room` cells one
/// after the other.
pub open spec fn fit_count(slots: Seq<RenderedInfo>, start: int, budget: int, room: int) -> nat
    decreases slots.len() - start,
{
    if start < 0 || start >= slots.len() || budget <= 0 {
        0
    } else if slots[start].img is Some && slot_width(slots[start]) <= room {
        1 + fit_count(slots, start + 1, budget - 1, room - slot_width(slots[start]))
    } else {
        0
    }
}

/// The width of `k` pages from `start` on together.
pub open spec fn widths_sum(slots: Seq<RenderedInfo>, start: int, k: nat) -> int
    decreases k,
{
    if k == 0 {
        0
    } else {
        widths_sum(slots, start, (k - 1) as nat) + slot_width(slots[start + k - 1])
    }
}

/// How many pages at most are shown side by side: as many as asked for, or
/// as the document has.
pub open spec fn page_budget(max_wide: Option<usize>, len: nat) -> int {
    match max_wide {
        Some(m) => m as int,
        None => len as int,
    }
}

/// Counts the pages that are shown, and adds up their widths.
pub fn count_fitting(slots: &Vec<RenderedInfo>, start: usize, max_wide: Option<usize>, room: u16) -> (r:
    (usize, u16))
    ensures
        r.0 == fit_count(slots@, start as int, page_budget(max_wide, slots@.len()), room as int),
        r.1 == widths_sum(slots@, start as int, r.0 as nat),
        r.1 <= room,
        start + r.0 <= slots.len() || r.0 == 0,
        forall|i: int| start <= i < start + r.0 ==> (#[trigger] slots[i]).img is Some,
{
    let budget = match max_wide {
        Some(m) => m,
        None => slots.len(),
    };
    let mut k: usize = 0;
    let mut used: u16 = 0;
    if start >= slots.len() {
        return (0, 0);
    }
    while start + k < slots.len() && k < budget
        invariant
            start < slots.len(),
            start + k <= slots.len(),
            k <= budget,
            used <= room,
            used == widths_sum(slots@, start as int, k as nat),
            forall|i: int| start <= i < start + k ==> (#[trigger] slots[i]).img is Some,
            fit_count(slots@, start as int, budget as int, room as int) == k + fit_count(
                slots@,
                start + k,
                budget - k,
                room - used,
            ),
            budget == page_budget(max_wide, slots@.len()),
        ensures
            fit_count(slots@, start + k, budget - k, room - used) == 0,
        decreases slots.len() - start - k,
    {
        let w = match slots[start + k].img {
            Some(img) => img.w_h().0,
            None => {
                break ;
            },
        };
        if w > room - used {
            break ;
        }
        used = used + w;
        k = k + 1;
    }
    (k, used)
}

/// An image of the frame: the page, its image, and the cells it covers.
#[derive(Clone, Copy, Debug, PartialEq, Eq, Structural)]
pub struct PlacedImage {
    pub page_num: usize,
    pub img: ConvertedImage,
    pub area: Rect,
}

/// The page that stands at place `i` from the left among `k` pages that start
/// at `page`: they run from left to right, or from right to left.
pub open spec fn screen_page(page: int, k: int, r_to_l: bool, i: int) -> int {
    if r_to_l {
        page + k - 1 - i
    } else {
        page + i
    }
}

/// The column at which place `i` from the left starts, when the first place
/// starts at `base`.
pub open spec fn place_x(
    slots: Seq<RenderedInfo>,
    page: int,
    k: int,
    r_to_l: bool,
    base: int,
    i: nat,
) -> int
    decreases i,
{
    if i == 0 {
        base
    } else {
        add16(
            place_x(slots, page, k, r_to_l, base, (i - 1) as nat),
            slot_width(slots[screen_page(page, k, r_to_l, i - 1)]),
        )
    }
}

/// The image at place `i` from the left of a frame that shows `k` pages from
/// `page` on inside `area`, of which `unused` columns stay empty: the pages
/// stand in the middle, side by side, each as high as the area.
pub open spec fn placed_at(
    slots: Seq<RenderedInfo>,
    page: int,
    k: int,
    r_to_l: bool,
    area: Rect,
    unused: int,
    i: int,
) -> PlacedImage {
    let p = screen_page(page, k, r_to_l, i);
    PlacedImage {
        page_num: p as usize,
        img: slots[p].img->0,
        area: Rect {
            x: place_x(slots, page, k, r_to_l, add16(area.x as int, unused / 2), i as nat) as u16,
            y: area.y,
            width: slot_width(slots[p]) as u16,
            height: area.height,
        },
    }
}

/// Puts `k` pages from `page` on side by side into `area`.
pub fn place_pages(
    slots: &Vec<RenderedInfo>,
    page: usize,
    k: usize,
    r_to_l: bool,
    area: Rect,
    unused: u16,
) -> (out: Vec<PlacedImage>)
    requires
        page + k <= slots.len(),
        forall|i: int| page <= i < page + k ==> (#[trigger] slots[i]).img is Some,
    ensures
        out.len() == k,
        forall|i: int|
            0 <= i < k ==> #[trigger] out[i] == placed_at(
                slots@,
                page as int,
                k as int,
                r_to_l,
                area,
                unused as int,
                i,
            ),
{
    let base = add_cells(area.x, unused / 2);
    let mut out: Vec<PlacedImage> = Vec::new();
    let mut x = base;
    let mut i: usize = 0;
    while i < k
        invariant
            i <= k,
            page + k <= slots.len(),
            forall|j: int| page <= j < page + k ==> (#[trigger] slots[j]).img is Some,
            out.len() == i,
            base == add16(area.x as int, unused as int / 2),
            x == place_x(slots@, page as int, k as int, r_to_l, base as int, i as nat),
            forall|j: int|
                0 <= j < i ==> #[trigger] out[j] == placed_at(
                    slots@,
                    page as int,
                    k as int,
                    r_to_l,
                    area,
                    unused as int,
                    j,
                ),
        decreases k - i,
    {
        let p = if r_to_l {
            page + (k - 1 - i)
        } else {
            page + i
        };
        match slots[p].img {
            Some(img) => {
                let w = img.w_h().0;
                out.push(
                    PlacedImage {
                        page_num: p,
                        img,
                        area: Rect { x, y: area.y, width: w, height: area.height },
                    },
                );
                x = add_cells(x, w);
            },
            None => {
                // cannot happen: every page of the row has an image
                assert(false);
            },
        }
        i = i + 1;
    }
    out
}

/// The images among the first `n` of a frame that go through the image
/// protocol, in their order, each at the upper-left cell of its place and
/// shown whole.
pub open spec fn kitty_entries(placed: Seq<PlacedImage>, n: nat) -> Seq<KittyReadyToDisplay>
    decreases n,
{
    if n == 0 {
        Seq::empty()
    } else {
        let rest = kitty_entries(placed, (n - 1) as nat);
        match placed[n - 1].img {
            ConvertedImage::Kitty { img, cell_w: _, cell_h: _ } => rest.push(
                KittyReadyToDisplay {
                    img,
                    page_num: placed[n - 1].page_num,
                    pos: Position { x: placed[n - 1].area.x, y: placed[n - 1].area.y },
                    display_loc: DisplayLocation::whole(),
                },
            ),
            ConvertedImage::Generic { cell_w: _, cell_h: _ } => rest,
        }
    }
}

/// How the page area of a frame is filled.
#[derive(Clone, Debug, PartialEq, Eq)]
pub enum PagesPlan {
    /// The help page covers everything.
    Help,
    /// Nothing moved since the last frame: the page area is left alone.
    Unchanged,
    /// No page is ready: the page area says so.
    Loading,
    /// These images, from left to right.
    Pages(Vec<PlacedImage>),
    /// Part of the current page, zoomed.
    Zoomed(KittyReadyToDisplay),
}

pub enum PagesPlanView {
    Help,
    Unchanged,
    Loading,
    Pages(Seq<PlacedImage>),
    Zoomed(KittyReadyToDisplay),
}

impl View for PagesPlan {
    type V = PagesPlanView;

    open spec fn view(&self) -> PagesPlanView {
        match self {
            PagesPlan::Help => PagesPlanView::Help,
            PagesPlan::Unchanged => PagesPlanView::Unchanged,
            PagesPlan::Loading => PagesPlanView::Loading,
            PagesPlan::Pages(p) => PagesPlanView::Pages(p@),
            PagesPlan::Zoomed(e) => PagesPlanView::Zoomed(*e),
        }
    }
}

impl PagesPlan {
    /// What the frame asks of the image protocol: nothing where nothing
    /// moved, to clear the images where none is shown, and else to show those
    /// of its images that go through the protocol.
    pub fn kitty_display(&self) -> (d: KittyDisplay)
        ensures
            match self@ {
                PagesPlanView::Help => d is ClearImages,
                PagesPlanView::Unchanged => d is NoChange,
                PagesPlanView::Loading => d is ClearImages,
                PagesPlanView::Pages(placed) => d matches KittyDisplay::DisplayImages(v) && v@
                    == kitty_entries(placed, placed.len()),
                PagesPlanView::Zoomed(e) => d matches KittyDisplay::DisplayImages(v) && v@ == seq![e],
            },
    {
        match self {
            PagesPlan::Help => KittyDisplay::ClearImages,
            PagesPlan::Unchanged => KittyDisplay::NoChange,
            PagesPlan::Loading => KittyDisplay::ClearImages,
            PagesPlan::Pages(placed) => {
                let mut v: Vec<KittyReadyToDisplay> = Vec::new();
                let mut i: usize = 0;
                while i < placed.len()
                    invariant
                        i <= placed.len(),
                        v@ == kitty_entries(placed@, i as nat),
                    decreases placed.len() - i,
                {
                    match placed[i].img {
                        ConvertedImage::Kitty { img, cell_w: _, cell_h: _ } => {
                            v.push(
                                KittyReadyToDisplay {
                                    img,
                                    page_num: placed[i].page_num,
                                    pos: Position { x: placed[i].area.x, y: placed[i].area.y },
                                    display_loc: DisplayLocation::new(),
                                },
                            );
                        },
                        ConvertedImage::Generic { cell_w: _, cell_h: _ } => {},
                    }
                    i = i + 1;
                }
                KittyDisplay::DisplayImages(v)
            },
            PagesPlan::Zoomed(e) => {
                let mut v: Vec<KittyReadyToDisplay> = Vec::new();
                v.push(*e);
                assert(v@ =~= seq![*e]);
                KittyDisplay::DisplayImages(v)
            },
        }
    }
}

/// What the zoomed view shows of the current page, worked out from the page
/// area and the size of the image: so many cells of the image, which are so
/// many pixels.
#[derive(Clone, Copy, Debug, PartialEq, Eq, Structural)]
pub struct ZoomFit {
    pub new_cell_w: u16,
    pub new_cell_h: u16,
    pub width_px: u32,
    pub height_px: u32,
}

/// The page area of a zoomed view: at level zero all of it; below zero it is
/// narrower by two columns for each level, but never empty, and starts one
/// column further right for each level, but not past its middle.
pub open spec fn zoomed_area(area: Rect, level: i16) -> Rect {
    if level < 0 {
        let shrunk = if area.width as int + 2 * level > 1 {
            area.width as int + 2 * level
        } else {
            1
        };
        let shift = if -level < area.width / 2 {
            -level as int
        } else {
            area.width as int / 2
        };
        Rect { x: add16(area.x as int, shift) as u16, width: shrunk as u16, ..area }
    } else {
        area
    }
}

pub fn zoom_area(area: Rect, level: i16) -> (r: Rect)
    ensures
        r == zoomed_area(area, level),
{
    if level < 0 {
        let depth: u32 = (-(level as i32)) as u32;
        let width: u32 = area.width as u32;
        let shrunk: u16 = if width > 2 * depth + 1 {
            (width - 2 * depth) as u16
        } else {
            1
        };
        let shift: u16 = if depth < width / 2 {
            depth as u16
        } else {
            area.width / 2
        };
        Rect { x: add_cells(area.x, shift), y: area.y, width: shrunk, height: area.height }
    } else {
        area
    }
}

/// The pages that are shown all have an image and belong to the document.
pub proof fn lemma_fit_count_in_bounds(slots: Seq<RenderedInfo>, start: int, budget: int, room: int)
    ensures
        fit_count(slots, start, budget, room) > 0 ==> 0 <= start && start + fit_count(
            slots,
            start,
            budget,
            room,
        ) <= slots.len(),
        forall|i: int|
            start <= i < start + fit_count(slots, start, budget, room) ==> (#[trigger] slots[i]).img
                is Some,
    decreases slots.len() - start,
{
    if fit_count(slots, start, budget, room) > 0 {
        lemma_fit_count_in_bounds(slots, start + 1, budget - 1, room - slot_width(slots[start]));
    }
}

/// The pages that are shown are the longest row that can be: they fit, and
/// the next page, if it is allowed and has an image, fits no more.
pub proof fn lemma_fit_count_is_widest(slots: Seq<RenderedInfo>, start: int, budget: int, room: int)
    requires
        0 <= start,
    ensures
        fit_count(slots, start, budget, room) <= budget || fit_count(slots, start, budget, room) == 0,
        fit_count(slots, start, budget, room) > 0 ==> widths_sum(
            slots,
            start,
            fit_count(slots, start, budget, room),
        ) <= room,
        ({
            let k = fit_count(slots, start, budget, room);
            ||| k >= budget
            ||| start + k >= slots.len()
            ||| slots[start + k].img is None
            ||| widths_sum(slots, start, k) + slot_width(slots[start + k]) > room
        }),
    decreases slots.len() - start,
{
    let k = fit_count(slots, start, budget, room);
    if k > 0 {
        let w = slot_width(slots[start]);
        lemma_fit_count_is_widest(slots, start + 1, budget - 1, room - w);
        lemma_widths_sum_from_next(slots, start, (k - 1) as nat);
    }
}

/// The width of one page more, counted from the front.
proof fn lemma_widths_sum_from_next(slots: Seq<RenderedInfo>, start: int, k: nat)
    ensures
        widths_sum(slots, start, k + 1) == slot_width(slots[start]) + widths_sum(slots, start + 1, k),
    decreases k,
{
    assert(widths_sum(slots, start, k + 1) == widths_sum(slots, start, k) + slot_width(
        slots[start + (k + 1) - 1],
    ));
    if k > 0 {
        lemma_widths_sum_from_next(slots, start, (k - 1) as nat);
        assert(widths_sum(slots, start + 1, k) == widths_sum(slots, start + 1, (k - 1) as nat)
            + slot_width(slots[start + 1 + k - 1]));
    } else {
        assert(widths_sum(slots, start, 0) == 0);
        assert(widths_sum(slots, start + 1, 0) == 0);
    }
}

/// A page number as it grows from left to right on the screen.
pub open spec fn screen_key(r_to_l: bool, page_num: usize) -> int {
    if r_to_l {
        -(page_num as int)
    } else {
        page_num as int
    }
}

/// The entry shows the image of one of the first `n` places.
pub open spec fn entry_of_place(placed: Seq<PlacedImage>, n: nat, e: KittyReadyToDisplay) -> bool {
    exists|i: int|
        0 <= i < n && (#[trigger] placed[i]).page_num == e.page_num && placed[i].img is Kitty
            && placed[i].img->img == e.img
}

/// Where the places of a frame hold each page once, in the order of the
/// screen, the images that go through the image protocol do so too, and each
/// of them is the image of its place.
pub proof fn lemma_entries_follow_places(placed: Seq<PlacedImage>, n: nat, r_to_l: bool)
    requires
        n <= placed.len(),
        forall|i: int, j: int|
            0 <= i < j < n ==> screen_key(r_to_l, (#[trigger] placed[i]).page_num) < screen_key(
                r_to_l,
                (#[trigger] placed[j]).page_num,
            ),
    ensures
        forall|a: int|
            0 <= a < kitty_entries(placed, n).len() ==> entry_of_place(
                placed,
                n,
                #[trigger] kitty_entries(placed, n)[a],
            ),
        forall|a: int, b: int|
            0 <= a < b < kitty_entries(placed, n).len() ==> screen_key(
                r_to_l,
                (#[trigger] kitty_entries(placed, n)[a]).page_num,
            ) < screen_key(r_to_l, (#[trigger] kitty_entries(placed, n)[b]).page_num),
        forall|a: int|
            0 <= a < kitty_entries(placed, n).len() && n > 0 ==> screen_key(
                r_to_l,
                (#[trigger] kitty_entries(placed, n)[a]).page_num,
            ) <= screen_key(r_to_l, placed[n - 1].page_num),
    decreases n,
{
    if n > 0 {
        let m = (n - 1) as nat;
        lemma_entries_follow_places(placed, m, r_to_l);
        let rest = kitty_entries(placed, m);
        let es = kitty_entries(placed, n);
        assert forall|a: int| 0 <= a < rest.len() implies screen_key(
            r_to_l,
            (#[trigger] rest[a]).page_num,
        ) < screen_key(r_to_l, placed[n - 1].page_num) by {
            if m > 0 {
                assert(screen_key(r_to_l, placed[m - 1].page_num) < screen_key(
                    r_to_l,
                    placed[n - 1].page_num,
                ));
            }
        }
        assert forall|a: int| 0 <= a < es.len() implies entry_of_place(placed, n, #[trigger] es[a]) by {
            if a < rest.len() {
                assert(es[a] == rest[a]);
                assert(entry_of_place(placed, m, rest[a]));
                let i = choose|i: int|
                    0 <= i < m && (#[trigger] placed[i]).page_num == rest[a].page_num && placed[i].img
                        is Kitty && placed[i].img->img == rest[a].img;
                assert(0 <= i < n && placed[i].page_num == es[a].page_num);
            } else {
                assert(placed[n - 1].page_num == es[a].page_num);
            }
        }
        assert forall|a: int, b: int| 0 <= a < b < es.len() implies screen_key(
            r_to_l,
            (#[trigger] es[a]).page_num,
        ) < screen_key(r_to_l, (#[trigger] es[b]).page_num) by {
            assert(es[a] == rest[a]);
            if b < rest.len() {
                assert(es[b] == rest[b]);
            }
        }
        assert forall|a: int| 0 <= a < es.len() implies screen_key(
            r_to_l,
            (#[trigger] es[a]).page_num,
        ) <= screen_key(r_to_l, placed[n - 1].page_num) by {
            if a < rest.len() {
                assert(es[a] == rest[a]);
            }
        }
    }
}

} // verus!
