//! The renderer's bookkeeping: what it was told, which pages it has rendered
//! or searched, and which page it works on next.

use vstd::prelude::*;
use crate::geometry::Rect;
use crate::skip::{
    interleaved_index, interleaved_nth, lemma_first_round_visits_each_once, reached_in_first_round,
};
use crate::{FitOrFill, PrerenderLimit};

verus! {

/// How many pages are searched, or rendered while a search is under way,
/// before the renderer looks for new instructions again.
pub const SEARCH_AT_TIME: usize = 20;

/// What the user interface tells the renderer.
#[derive(Clone, Debug, PartialEq, Eq)]
pub enum RenderNotif {
    Area(Rect),
    JumpToPage(usize),
    PageNeedsReRender(usize),
    Search(String),
    SwitchFitOrFill(FitOrFill),
    Reload,
    Invert,
    Rotate,
}

/// What went wrong, in words for the status line.
#[derive(Debug, Clone, PartialEq, Eq)]
pub enum RenderError {
    Notify(String),
    Doc(String),
    Converting(String),
}

/// What the renderer reports back.
#[derive(Clone, Debug, PartialEq, Eq)]
pub enum RenderInfo {
    NumPages(usize),
    Page(PageInfo),
    SearchResults { page_num: usize, num_results: usize },
    Reloaded,
}

/// One occurrence of the search term, as a rectangle in pixels of the
/// rendered page: upper-left and lower-right corner.
#[derive(Clone, Copy, Debug, PartialEq, Eq, Structural)]
pub struct HighlightRect {
    pub ul_x: u32,
    pub ul_y: u32,
    pub lr_x: u32,
    pub lr_y: u32,
}

/// An encoded image and its size in terminal cells.
#[derive(Clone, Debug, PartialEq, Eq)]
pub struct ImageData {
    pub pixels: Vec<u8>,
    pub cell_w: u16,
    pub cell_h: u16,
}

/// A rendered page on its way to conversion.
#[derive(Clone, Debug, PartialEq, Eq)]
pub struct PageInfo {
    pub img_data: ImageData,
    pub page_num: usize,
    pub result_rects: Vec<HighlightRect>,
}

/// What the renderer remembers of a page.
#[derive(Clone, Copy, Debug, PartialEq, Eq, Structural)]
pub struct PrevRender {
    /// Whether the last attempt to render the page produced output.
    pub successful: bool,
    /// How often the search term occurs on the page, once that is known.
    pub num_search_found: Option<usize>,
}

impl Default for PrevRender {
    fn default() -> (r: Self)
        ensures
            r == (PrevRender { successful: false, num_search_found: None }),
    {
        PrevRender { successful: false, num_search_found: None }
    }
}

/// Empties `vec` and fills it with `size` default values.
pub fn fill_default<T: Default>(vec: &mut Vec<T>, size: usize)
    ensures
        final(vec).len() == size,
        forall|i: int| 0 <= i < size ==> call_ensures(T::default, (), #[trigger] final(vec)[i]),
{
    vec.clear();
    let mut i: usize = 0;
    while i < size
        invariant
            i <= size,
            vec.len() == i,
            forall|j: int| 0 <= j < i ==> call_ensures(T::default, (), #[trigger] vec[j]),
        decreases size - i,
    {
        vec.push(T::default());
        i = i + 1;
    }
}

/// A quarter turn of the page, clockwise.
#[derive(Clone, Copy, Debug, PartialEq, Eq, Structural)]
pub enum Rotation {
    Deg0,
    Deg90,
    Deg180,
    Deg270,
}

impl Rotation {
    pub open spec fn turned(self) -> Rotation {
        match self {
            Rotation::Deg0 => Rotation::Deg90,
            Rotation::Deg90 => Rotation::Deg180,
            Rotation::Deg180 => Rotation::Deg270,
            Rotation::Deg270 => Rotation::Deg0,
        }
    }

    /// The rotation one quarter turn further.
    pub fn next(self) -> (r: Rotation)
        ensures
            r == self.turned(),
    {
        match self {
            Rotation::Deg0 => Rotation::Deg90,
            Rotation::Deg90 => Rotation::Deg180,
            Rotation::Deg180 => Rotation::Deg270,
            Rotation::Deg270 => Rotation::Deg0,
        }
    }
}

/// How the renderer goes on after an instruction.
#[derive(Clone, Copy, Debug, PartialEq, Eq, Structural)]
pub enum Flow {
    /// Open the document again.
    Reload,
    /// Start over with the pages around the current one.
    Restart,
}

/// What the renderer does next.
#[derive(Clone, Copy, Debug, PartialEq, Eq, Structural)]
pub enum Job {
    /// Nothing can be rendered before the first area has arrived.
    WaitForArea,
    /// Search this page for the term, then render it.
    Render { page: usize },
    /// Only count the occurrences of the term on this page.
    CountHits { page: usize },
    /// Nothing is left to do until the next instruction.
    Idle,
}

/// The renderer's state, as contracts speak of it.
#[verifier::ext_equal]
pub struct RendererModel {
    pub pages: Seq<PrevRender>,
    pub start_point: int,
    pub term: Option<Seq<char>>,
    pub area: Option<Rect>,
    pub invert: bool,
    pub rotation: Rotation,
    pub fit_or_fill: FitOrFill,
    /// Pages that are rendered before all others, oldest request first.
    pub forced: Seq<usize>,
    pub limit: PrerenderLimit,
    /// How many steps of the walk around the current page this pass takes.
    pub pass_bound: int,
    /// How many of them it has taken.
    pub pass_pos: int,
    /// How far behind the current page the search has come, in pages.
    pub sweep_pos: int,
}

/// A page is left alone once it is rendered and searched.
pub open spec fn needs_work(p: PrevRender) -> bool {
    !(p.successful && p.num_search_found is Some)
}

/// Every page forgets that it was rendered; what is known of the search stays.
pub open spec fn all_unrendered(pages: Seq<PrevRender>) -> Seq<PrevRender> {
    Seq::new(
        pages.len(),
        |i: int| PrevRender { successful: false, num_search_found: pages[i].num_search_found },
    )
}

/// Every page forgets its search count; what was rendered stays.
pub open spec fn all_unsearched(pages: Seq<PrevRender>) -> Seq<PrevRender> {
    Seq::new(
        pages.len(),
        |i: int| PrevRender { successful: pages[i].successful, num_search_found: None },
    )
}

pub open spec fn had_hits(p: PrevRender) -> bool {
    p.num_search_found matches Some(n) && n > 0
}

/// The pages on which the term was found are reset; the others keep their
/// render, which shows no highlight.
pub open spec fn hits_dropped(pages: Seq<PrevRender>) -> Seq<PrevRender> {
    Seq::new(
        pages.len(),
        |i: int|
            if had_hits(pages[i]) {
                PrevRender { successful: false, num_search_found: None }
            } else {
                pages[i]
            },
    )
}

pub open spec fn any_unsearched(pages: Seq<PrevRender>) -> bool {
    exists|i: int| 0 <= i < pages.len() && (#[trigger] pages[i]).num_search_found is None
}

impl RendererModel {
    /// How many steps a pass that starts in this state takes.
    pub open spec fn fresh_bound(self) -> int {
        if self.term is Some && any_unsearched(self.pages) {
            SEARCH_AT_TIME as int
        } else {
            match self.limit {
                PrerenderLimit::All => self.pages.len() as int,
                PrerenderLimit::Limited(k) => k as int,
            }
        }
    }

    /// The same state at the start of a new pass.
    pub open spec fn restarted(self) -> RendererModel {
        RendererModel { pass_bound: self.fresh_bound(), pass_pos: 0, sweep_pos: 1, ..self }
    }

    /// The state that an instruction leaves behind.
    pub open spec fn after(self, notif: RenderNotif) -> RendererModel {
        match notif {
            RenderNotif::Reload => self,
            RenderNotif::Area(r) => RendererModel {
                area: Some(r),
                pages: all_unrendered(self.pages),
                ..self
            }.restarted(),
            RenderNotif::Invert => RendererModel {
                invert: !self.invert,
                pages: all_unrendered(self.pages),
                ..self
            }.restarted(),
            RenderNotif::Rotate => RendererModel {
                rotation: self.rotation.turned(),
                pages: all_unrendered(self.pages),
                ..self
            }.restarted(),
            RenderNotif::SwitchFitOrFill(v) => if v == self.fit_or_fill {
                self.restarted()
            } else {
                RendererModel {
                    fit_or_fill: v,
                    pages: all_unrendered(self.pages),
                    ..self
                }.restarted()
            },
            RenderNotif::JumpToPage(p) => if p < self.pages.len() {
                RendererModel { start_point: p as int, ..self }.restarted()
            } else {
                self.restarted()
            },
            RenderNotif::PageNeedsReRender(p) => if p < self.pages.len() {
                RendererModel {
                    pages: self.pages.update(
                        p as int,
                        PrevRender {
                            successful: false,
                            num_search_found: self.pages[p as int].num_search_found,
                        },
                    ),
                    forced: self.forced.push(p),
                    ..self
                }.restarted()
            } else {
                self.restarted()
            },
            RenderNotif::Search(term) => if term@.len() == 0 {
                RendererModel { term: None, pages: hits_dropped(self.pages), ..self }.restarted()
            } else {
                RendererModel {
                    term: Some(term@),
                    pages: all_unsearched(self.pages),
                    ..self
                }.restarted()
            },
        }
    }

    /// The page that step `k` of the walk around the current page visits.
    pub open spec fn page_at(self, k: int) -> int {
        interleaved_nth(self.start_point, 0, self.pages.len() as int, k as nat)
    }

    /// Step `k` of this pass is still to come and finds a page with work left.
    pub open spec fn due(self, k: int) -> bool {
        self.pass_pos <= k < self.pass_bound && needs_work(self.pages[self.page_at(k)])
    }

    /// The page `o` pages past the current one, around the end of the document.
    pub open spec fn page_past(self, o: int) -> int {
        if self.start_point + o < self.pages.len() {
            self.start_point + o
        } else {
            self.start_point + o - self.pages.len()
        }
    }

    /// The search has yet to look at the page `o` pages past the current one.
    pub open spec fn unswept(self, o: int) -> bool {
        self.sweep_pos <= o < self.pages.len() && self.pages[self.page_past(o)].num_search_found is None
    }

    /// The first step from `k` on that this pass still takes and that finds a
    /// page with work left.
    pub open spec fn first_due(self, k: int) -> Option<int>
        decreases self.pass_bound - k,
    {
        if k < 0 || k >= self.pass_bound {
            None
        } else if needs_work(self.pages[self.page_at(k)]) {
            Some(k)
        } else {
            self.first_due(k + 1)
        }
    }

    /// The first page from `o` pages past the current one on, up to the last
    /// before it comes round again, that the search has yet to look at.
    pub open spec fn first_unswept(self, o: int) -> Option<int>
        decreases self.pages.len() - o,
    {
        if o < 0 || o >= self.pages.len() {
            None
        } else if self.pages[self.page_past(o)].num_search_found is None {
            Some(o)
        } else {
            self.first_unswept(o + 1)
        }
    }

    /// What is done next, and the state after it was handed out.
    pub open spec fn next(self) -> (RendererModel, Job) {
        if self.area is None {
            (self, Job::WaitForArea)
        } else if self.forced.len() > 0 {
            (
                RendererModel { forced: self.forced.drop_first(), ..self },
                Job::Render { page: self.forced[0] },
            )
        } else if self.pages.len() == 0 {
            (self, Job::Idle)
        } else {
            match self.first_due(self.pass_pos) {
                Some(k) => (
                    RendererModel { pass_pos: k + 1, ..self },
                    Job::Render { page: self.page_at(k) as usize },
                ),
                None => {
                    let passed = RendererModel {
                        pass_pos: if self.pass_pos < self.pass_bound {
                            self.pass_bound
                        } else {
                            self.pass_pos
                        },
                        ..self
                    };
                    if self.term is None {
                        (passed, Job::Idle)
                    } else {
                        match self.first_unswept(self.sweep_pos) {
                            Some(o) => (
                                RendererModel { sweep_pos: o + 1, ..passed },
                                Job::CountHits { page: self.page_past(o) as usize },
                            ),
                            None => (
                                RendererModel {
                                    sweep_pos: if self.sweep_pos < self.pages.len() {
                                        self.pages.len() as int
                                    } else {
                                        self.sweep_pos
                                    },
                                    ..passed
                                },
                                Job::Idle,
                            ),
                        }
                    }
                },
            }
        }
    }
}

/// What the renderer does after it tried to open the document.
#[derive(Clone, Copy, Debug, PartialEq, Eq, Structural)]
pub enum OpenNext {
    /// Render the pages: of the document that is open now, or of the one
    /// that was open before and is kept.
    Render,
    /// Wait until a reload is asked for, then open again.
    WaitForReload,
    /// Pause for a moment, then open again.
    RetryAfterPause,
}

/// What an attempt to open the document comes to: what is reported to the
/// user interface, in this order, and how the renderer goes on.
#[derive(Clone, Debug, PartialEq, Eq)]
pub struct OpenStep {
    pub reports: Vec<Result<RenderInfo, RenderError>>,
    pub next: OpenNext,
}

/// How long the renderer pauses before it opens a document without pages
/// again, in seconds.
pub const RETRY_PAUSE_SECS: u64 = 1;

/// What is reported after an attempt to open the document: the error of a
/// failed attempt; else the page count, after the word that the document was
/// reloaded where one was open before.
pub open spec fn open_reports(had_document: bool, opened: Result<usize, String>) -> Seq<
    Result<RenderInfo, RenderError>,
> {
    match opened {
        Err(e) => seq![Err(RenderError::Doc(e))],
        Ok(n) => if had_document {
            seq![Ok(RenderInfo::Reloaded), Ok(RenderInfo::NumPages(n))]
        } else {
            seq![Ok(RenderInfo::NumPages(n))]
        },
    }
}

/// How the renderer goes on after an attempt to open the document. After a
/// failure it keeps to the document that was open before, or waits for a
/// reload where none was. A document without pages is opened again after a
/// pause.
pub open spec fn open_next(had_document: bool, opened: Result<usize, String>) -> OpenNext {
    match opened {
        Err(_) => if had_document {
            OpenNext::Render
        } else {
            OpenNext::WaitForReload
        },
        Ok(n) => if n == 0 {
            OpenNext::RetryAfterPause
        } else {
            OpenNext::Render
        },
    }
}

impl RendererModel {
    /// The state for a document of `n_pages` pages that was just opened:
    /// nothing is known of any page, and rendering starts at the first. What
    /// the renderer was told of the area, the search and the colours stays.
    pub open spec fn with_pages(self, n_pages: usize) -> RendererModel {
        (RendererModel {
            pages: Seq::new(
                n_pages as nat,
                |i: int| PrevRender { successful: false, num_search_found: None },
            ),
            start_point: 0,
            forced: Seq::empty(),
            ..self
        }).restarted()
    }
}

impl RendererModel {
    pub open spec fn wf(self) -> bool {
        &&& 0 <= self.start_point
        &&& self.start_point < self.pages.len() || self.start_point == 0
        &&& forall|i: int| 0 <= i < self.forced.len() ==> #[trigger] self.forced[i] < self.pages.len()
        &&& 0 <= self.pass_pos
        &&& 0 <= self.pass_bound <= usize::MAX
        &&& 1 <= self.sweep_pos
        &&& self.pages.len() <= usize::MAX
    }
}

fn clear_rendered(pages: &mut Vec<PrevRender>)
    ensures
        final(pages)@ == all_unrendered(old(pages)@),
{
    let n = pages.len();
    let mut i: usize = 0;
    while i < n
        invariant
            i <= n,
            pages.len() == n,
            old(pages).len() == n,
            forall|j: int| 0 <= j < i ==> #[trigger] pages[j] == all_unrendered(old(pages)@)[j],
            forall|j: int| i <= j < n ==> #[trigger] pages[j] == old(pages)[j],
        decreases n - i,
    {
        let found = pages[i].num_search_found;
        pages.set(i, PrevRender { successful: false, num_search_found: found });
        i = i + 1;
    }
    assert(pages@ =~= all_unrendered(old(pages)@));
}

fn clear_searched(pages: &mut Vec<PrevRender>)
    ensures
        final(pages)@ == all_unsearched(old(pages)@),
{
    let n = pages.len();
    let mut i: usize = 0;
    while i < n
        invariant
            i <= n,
            pages.len() == n,
            old(pages).len() == n,
            forall|j: int| 0 <= j < i ==> #[trigger] pages[j] == all_unsearched(old(pages)@)[j],
            forall|j: int| i <= j < n ==> #[trigger] pages[j] == old(pages)[j],
        decreases n - i,
    {
        let successful = pages[i].successful;
        pages.set(i, PrevRender { successful, num_search_found: None });
        i = i + 1;
    }
    assert(pages@ =~= all_unsearched(old(pages)@));
}

fn drop_hits(pages: &mut Vec<PrevRender>)
    ensures
        final(pages)@ == hits_dropped(old(pages)@),
{
    let n = pages.len();
    let mut i: usize = 0;
    while i < n
        invariant
            i <= n,
            pages.len() == n,
            old(pages).len() == n,
            forall|j: int| 0 <= j < i ==> #[trigger] pages[j] == hits_dropped(old(pages)@)[j],
            forall|j: int| i <= j < n ==> #[trigger] pages[j] == old(pages)[j],
        decreases n - i,
    {
        let hit = match pages[i].num_search_found {
            Some(n) => n > 0,
            None => false,
        };
        if hit {
            pages.set(i, PrevRender { successful: false, num_search_found: None });
        }
        i = i + 1;
    }
    assert(pages@ =~= hits_dropped(old(pages)@));
}

fn has_unsearched(pages: &Vec<PrevRender>) -> (b: bool)
    ensures
        b == any_unsearched(pages@),
{
    let n = pages.len();
    let mut i: usize = 0;
    while i < n
        invariant
            i <= n,
            pages.len() == n,
            forall|j: int| 0 <= j < i ==> (#[trigger] pages[j]).num_search_found is Some,
        decreases n - i,
    {
        if pages[i].num_search_found.is_none() {
            return true;
        }
        i = i + 1;
    }
    false
}

/// The number of occurrences that the first search of a page asks for.
pub const FIRST_SEARCH_BUDGET: u32 = 10;

/// A search that asked for at most `budget` occurrences returned `found` of
/// them. With fewer than asked for, they are all, and the search is over
/// (`None`); so it is when no more can be asked for. Otherwise the page is
/// searched again for twice as many, or as many as can be asked for.
pub fn search_budget_after(budget: u32, found: usize) -> (next: Option<u32>)
    ensures
        next == if found < budget || budget == u32::MAX {
            None
        } else if budget > u32::MAX / 2 {
            Some(u32::MAX)
        } else {
            Some((2 * budget) as u32)
        },
{
    if budget == u32::MAX {
        return None;
    }
    let all = match u32::try_from(found) {
        Ok(f) => f < budget,
        Err(_) => false,
    };
    if all {
        None
    } else if budget > u32::MAX / 2 {
        Some(u32::MAX)
    } else {
        Some(2 * budget)
    }
}

impl HighlightRect {
    /// The corners lie inside an image of `w` by `h` pixels, or on its edge,
    /// and the lower-right one is not before the upper-left one.
    pub open spec fn within(self, w: u32, h: u32) -> bool {
        self.ul_x <= self.lr_x <= w && self.ul_y <= self.lr_y <= h
    }

    /// A coordinate pulled back to an edge.
    pub open spec fn pulled(v: u32, edge: u32) -> u32 {
        if v <= edge {
            v
        } else {
            edge
        }
    }

    /// The rectangle with each corner pulled back to the edge of an image of
    /// `w` by `h` pixels, and the lower-right corner not before the upper-left
    /// one. It covers the same pixels of the image.
    pub open spec fn cut_to(self, w: u32, h: u32) -> HighlightRect {
        let ul_x = Self::pulled(self.ul_x, w);
        let ul_y = Self::pulled(self.ul_y, h);
        HighlightRect {
            ul_x,
            ul_y,
            lr_x: if Self::pulled(self.lr_x, w) >= ul_x {
                Self::pulled(self.lr_x, w)
            } else {
                ul_x
            },
            lr_y: if Self::pulled(self.lr_y, h) >= ul_y {
                Self::pulled(self.lr_y, h)
            } else {
                ul_y
            },
        }
    }

    pub fn clamp(self, w: u32, h: u32) -> (r: HighlightRect)
        ensures
            r == self.cut_to(w, h),
            r.within(w, h),
    {
        let ul_x = if self.ul_x <= w {
            self.ul_x
        } else {
            w
        };
        let ul_y = if self.ul_y <= h {
            self.ul_y
        } else {
            h
        };
        let lr_x = if self.lr_x <= w {
            self.lr_x
        } else {
            w
        };
        let lr_y = if self.lr_y <= h {
            self.lr_y
        } else {
            h
        };
        HighlightRect {
            ul_x,
            ul_y,
            lr_x: if lr_x >= ul_x {
                lr_x
            } else {
                ul_x
            },
            lr_y: if lr_y >= ul_y {
                lr_y
            } else {
                ul_y
            },
        }
    }
}

/// The rectangles that go out with a page: those found, cut to the image,
/// while a term is searched for; none otherwise.
pub open spec fn shown_rects(searching: bool, rects: Seq<HighlightRect>, w: u32, h: u32) -> Seq<
    HighlightRect,
> {
    if searching {
        Seq::new(rects.len(), |i: int| rects[i].cut_to(w, h))
    } else {
        Seq::empty()
    }
}

fn clamp_rects(rects: &Vec<HighlightRect>, w: u32, h: u32) -> (out: Vec<HighlightRect>)
    ensures
        out@ == shown_rects(true, rects@, w, h),
{
    let mut out: Vec<HighlightRect> = Vec::new();
    let mut i: usize = 0;
    while i < rects.len()
        invariant
            i <= rects.len(),
            out.len() == i,
            forall|j: int| 0 <= j < i ==> #[trigger] out[j] == rects[j].cut_to(w, h),
        decreases rects.len() - i,
    {
        out.push(rects[i].clamp(w, h));
        i = i + 1;
    }
    assert(out@ =~= shown_rects(true, rects@, w, h));
    out
}

/// Every rectangle that goes out with a page lies within its image.
pub proof fn lemma_shown_rects_within(searching: bool, rects: Seq<HighlightRect>, w: u32, h: u32)
    ensures
        shown_rects(searching, rects, w, h).len() == if searching {
            rects.len()
        } else {
            0
        },
        forall|i: int|
            0 <= i < shown_rects(searching, rects, w, h).len() ==> (#[trigger] shown_rects(
                searching,
                rects,
                w,
                h,
            )[i]).within(w, h),
{
}

impl RendererModel {
    /// While no term is searched for, no rendered page has a count other
    /// than zero.
    pub open spec fn counts_agree_with_term(self) -> bool {
        self.term is None ==> forall|i: int|
            0 <= i < self.pages.len() && (#[trigger] self.pages[i]).successful
                ==> !had_hits(self.pages[i])
    }

    /// Every rendered page has been searched.
    pub open spec fn rendered_pages_searched(self) -> bool {
        forall|i: int|
            0 <= i < self.pages.len() && (#[trigger] self.pages[i]).successful
                ==> self.pages[i].num_search_found is Some
    }
}

/// A pass that takes as many steps as the document has pages comes to every
/// page, and to the current page first.
pub proof fn lemma_full_pass_reaches_every_page(m: RendererModel)
    requires
        0 <= m.start_point < m.pages.len(),
    ensures
        m.page_at(0) == m.start_point,
        forall|p: int|
            0 <= p < m.pages.len() ==> #[trigger] reached_in_first_round(
                m.start_point,
                0,
                m.pages.len() as int,
                p,
            ),
        forall|k: int| 0 <= k < m.pages.len() ==> 0 <= #[trigger] m.page_at(k) < m.pages.len(),
{
    lemma_first_round_visits_each_once(m.start_point, 0, m.pages.len() as int);
    assert forall|k: int| 0 <= k < m.pages.len() implies 0 <= #[trigger] m.page_at(k)
        < m.pages.len() by {
        assert(m.page_at(k) == interleaved_nth(m.start_point, 0, m.pages.len() as int, k as nat));
    }
}

/// Some step of the pass that is still to come finds page `p` with work
/// left.
pub open spec fn due_for(m: RendererModel, p: int) -> bool {
    exists|k: int| 0 <= k && #[trigger] m.due(k) && m.page_at(k) == p
}

/// The search that follows the pass comes to page `p`.
pub open spec fn swept_for(m: RendererModel, p: int) -> bool {
    exists|o: int| #[trigger] m.unswept(o) && m.page_past(o) == p
}

/// A pass that starts and takes as many steps as the document has pages
/// comes to every page that has work left.
pub proof fn lemma_full_pass_finds_all_work(m: RendererModel)
    requires
        0 <= m.start_point < m.pages.len(),
        m.pass_pos == 0,
        m.pass_bound >= m.pages.len(),
    ensures
        forall|p: int|
            0 <= p < m.pages.len() && needs_work(#[trigger] m.pages[p]) ==> due_for(m, p),
{
    lemma_first_round_visits_each_once(m.start_point, 0, m.pages.len() as int);
    assert forall|p: int| 0 <= p < m.pages.len() && needs_work(#[trigger] m.pages[p]) implies due_for(
        m,
        p,
    ) by {
        assert(reached_in_first_round(m.start_point, 0, m.pages.len() as int, p));
        let k = choose|k: nat|
            k < m.pages.len() - 0 && #[trigger] interleaved_nth(
                m.start_point,
                0,
                m.pages.len() as int,
                k,
            ) == p;
        assert(m.page_at(k as int) == p);
        assert(m.due(k as int));
    }
}

/// After the term is dropped, with every page rendered and counted and no
/// limit on the pass, the pages with work left are exactly those on which the
/// term was found, and the pass comes to each of them. (Under a limit the
/// pass comes only to those within it.)
pub proof fn lemma_dropped_term_renders_pages_with_hits(m: RendererModel, term: String)
    requires
        term@.len() == 0,
        m.limit is All,
        0 <= m.start_point < m.pages.len(),
        forall|i: int|
            0 <= i < m.pages.len() ==> (#[trigger] m.pages[i]).successful
                && m.pages[i].num_search_found is Some,
    ensures
        forall|p: int|
            0 <= p < m.pages.len() ==> (needs_work(#[trigger] m.after(RenderNotif::Search(term)).pages[p])
                <==> had_hits(m.pages[p])),
        forall|p: int|
            0 <= p < m.pages.len() && had_hits(#[trigger] m.pages[p]) ==> due_for(
                m.after(RenderNotif::Search(term)),
                p,
            ),
{
    let a = m.after(RenderNotif::Search(term));
    lemma_full_pass_finds_all_work(a);
    assert forall|p: int| 0 <= p < m.pages.len() && had_hits(#[trigger] m.pages[p]) implies due_for(
        a,
        p,
    ) by {
        assert(needs_work(a.pages[p]));
    }
}

/// While a term is searched for, a pass that starts, with the search that
/// follows it, comes to every page whose count is unknown: to the current page
/// in the pass, to every other in the search behind it at the latest.
pub proof fn lemma_search_reaches_every_page(m: RendererModel)
    requires
        0 <= m.start_point < m.pages.len(),
        m.pass_pos == 0,
        m.pass_bound >= 1,
        m.sweep_pos == 1,
    ensures
        forall|p: int|
            0 <= p < m.pages.len() && (#[trigger] m.pages[p]).num_search_found is None ==> due_for(
                m,
                p,
            ) || swept_for(m, p),
{
    let n = m.pages.len() as int;
    lemma_first_round_visits_each_once(m.start_point, 0, n);
    assert forall|p: int|
        0 <= p < m.pages.len() && (#[trigger] m.pages[p]).num_search_found is None implies due_for(m, p)
        || swept_for(m, p) by {
        if p == m.start_point {
            assert(m.page_at(0) == p);
            assert(m.due(0));
        } else {
            let o = if p > m.start_point {
                p - m.start_point
            } else {
                p - m.start_point + n
            };
            assert(m.page_past(o) == p);
            assert(m.unswept(o));
        }
    }
}

/// A new term makes the count of every page unknown.
pub proof fn lemma_new_term_forgets_counts(m: RendererModel, term: String)
    requires
        term@.len() > 0,
    ensures
        m.after(RenderNotif::Search(term)).term == Some(term@),
        m.after(RenderNotif::Search(term)).pages.len() == m.pages.len(),
        forall|i: int|
            0 <= i < m.pages.len() ==> (#[trigger] m.after(
                RenderNotif::Search(term),
            ).pages[i]).num_search_found is None,
{
}

/// No instruction makes a count known: a page whose count is known after it
/// had the same count before.
pub proof fn lemma_instructions_count_nothing(m: RendererModel, notif: RenderNotif)
    ensures
        m.after(notif).pages.len() == m.pages.len(),
        forall|i: int|
            0 <= i < m.pages.len() && (#[trigger] m.after(notif).pages[i]).num_search_found is Some
                ==> m.after(notif).pages[i].num_search_found == m.pages[i].num_search_found,
{
}

/// Dropping the term leaves every rendered page whose count was known with
/// the count zero.
pub proof fn lemma_dropped_term_leaves_zero(m: RendererModel, term: String)
    requires
        term@.len() == 0,
        m.rendered_pages_searched(),
    ensures
        m.after(RenderNotif::Search(term)).term is None,
        forall|i: int|
            0 <= i < m.pages.len() && (#[trigger] m.after(
                RenderNotif::Search(term),
            ).pages[i]).successful ==> m.after(RenderNotif::Search(term)).pages[i].num_search_found
                == Some(0usize),
{
}

/// While no term is searched for, no rendered page keeps a count above
/// zero, whatever instruction arrives.
pub proof fn lemma_instructions_keep_counts_agreeing(m: RendererModel, notif: RenderNotif)
    requires
        m.counts_agree_with_term(),
    ensures
        m.after(notif).counts_agree_with_term(),
{
    let a = m.after(notif);
    if a.term is None {
        assert forall|i: int| 0 <= i < a.pages.len() && (#[trigger] a.pages[i]).successful implies !had_hits(
            a.pages[i],
        ) by {
            if m.term is None {
                assert(m.pages[i].successful ==> !had_hits(m.pages[i]));
            }
        }
    }
}

/// What the renderer was told and what it has done with each page.
pub struct Renderer {
    rendered: Vec<PrevRender>,
    start_point: usize,
    search_term: Option<String>,
    area: Option<Rect>,
    invert: bool,
    rotation: Rotation,
    fit_or_fill: FitOrFill,
    forced: Vec<usize>,
    limit: PrerenderLimit,
    pass_bound: usize,
    pass_pos: usize,
    sweep_pos: usize,
}

impl View for Renderer {
    type V = RendererModel;

    closed spec fn view(&self) -> RendererModel {
        RendererModel {
            pages: self.rendered@,
            start_point: self.start_point as int,
            term: match self.search_term {
                Some(t) => Some(t@),
                None => None,
            },
            area: self.area,
            invert: self.invert,
            rotation: self.rotation,
            fit_or_fill: self.fit_or_fill,
            forced: self.forced@,
            limit: self.limit,
            pass_bound: self.pass_bound as int,
            pass_pos: self.pass_pos as int,
            sweep_pos: self.sweep_pos as int,
        }
    }
}

impl Renderer {
    pub open spec fn wf(&self) -> bool {
        self@.wf()
    }

    /// A renderer that knows no document and no area yet.
    pub fn new(limit: PrerenderLimit) -> (r: Self)
        ensures
            r.wf(),
            r@.counts_agree_with_term(),
            r@ == (RendererModel {
                pages: Seq::empty(),
                start_point: 0,
                term: None,
                area: None,
                invert: false,
                rotation: Rotation::Deg0,
                fit_or_fill: FitOrFill::Fit,
                forced: Seq::empty(),
                limit,
                pass_bound: 0,
                pass_pos: 0,
                sweep_pos: 1,
            }),
    {
        Renderer {
            rendered: Vec::new(),
            start_point: 0,
            search_term: None,
            area: None,
            invert: false,
            rotation: Rotation::Deg0,
            fit_or_fill: FitOrFill::Fit,
            forced: Vec::new(),
            limit,
            pass_bound: 0,
            pass_pos: 0,
            sweep_pos: 1,
        }
    }

    fn restart(&mut self)
        requires
            old(self).wf(),
        ensures
            final(self).wf(),
            final(self)@ == old(self)@.restarted(),
    {
        let searching = self.search_term.is_some() && has_unsearched(&self.rendered);
        self.pass_bound = if searching {
            SEARCH_AT_TIME
        } else {
            match self.limit {
                PrerenderLimit::All => self.rendered.len(),
                PrerenderLimit::Limited(k) => k,
            }
        };
        self.pass_pos = 0;
        self.sweep_pos = 1;
    }

    /// The document was opened and has `n_pages` pages: nothing is known of
    /// any of them, and rendering starts at the first page. What the renderer
    /// was told of the area, the search and the colours stays.
    pub fn set_n_pages(&mut self, n_pages: usize)
        requires
            old(self).wf(),
        ensures
            final(self).wf(),
            final(self)@.counts_agree_with_term(),
            final(self)@ == old(self)@.with_pages(n_pages),
    {
        fill_default(&mut self.rendered, n_pages);
        self.start_point = 0;
        self.forced.clear();
        assert(self.rendered@ =~= Seq::new(
            n_pages as nat,
            |i: int| PrevRender { successful: false, num_search_found: None },
        ));
        self.restart();
    }

    /// Takes in what an attempt to open the document came to: the number of
    /// its pages, or the words of the failure. `had_document` says whether a
    /// document was open before. After a success the bookkeeping starts anew for
    /// the pages of the document; after a failure it stays as it is.
    pub fn on_open(&mut self, had_document: bool, opened: Result<usize, String>) -> (step: OpenStep)
        requires
            old(self).wf(),
        ensures
            final(self).wf(),
            step.reports@ == open_reports(had_document, opened),
            step.next == open_next(had_document, opened),
            final(self)@ == match opened {
                Ok(n) => old(self)@.with_pages(n),
                Err(_) => old(self)@,
            },
            old(self)@.counts_agree_with_term() ==> final(self)@.counts_agree_with_term(),
    {
        let mut reports: Vec<Result<RenderInfo, RenderError>> = Vec::new();
        match opened {
            Err(e) => {
                reports.push(Err(RenderError::Doc(e)));
                assert(reports@ =~= open_reports(had_document, opened));
                OpenStep {
                    reports,
                    next: if had_document {
                        OpenNext::Render
                    } else {
                        OpenNext::WaitForReload
                    },
                }
            },
            Ok(n) => {
                if had_document {
                    reports.push(Ok(RenderInfo::Reloaded));
                }
                reports.push(Ok(RenderInfo::NumPages(n)));
                assert(reports@ =~= open_reports(had_document, opened));
                self.set_n_pages(n);
                OpenStep {
                    reports,
                    next: if n == 0 {
                        OpenNext::RetryAfterPause
                    } else {
                        OpenNext::Render
                    },
                }
            },
        }
    }

    /// Whether an instruction ends the wait for a reload: only the reload
    /// itself does; every other is passed over.
    pub fn ends_wait(notif: &RenderNotif) -> (b: bool)
        ensures
            b == (*notif is Reload),
    {
        match notif {
            RenderNotif::Reload => true,
            _ => false,
        }
    }

    /// Takes an instruction in. All but `Reload` start a new pass over the
    /// pages; a jump or a re-render request for a page that the document does
    /// not have changes nothing else.
    pub fn apply_notif(&mut self, notif: RenderNotif) -> (flow: Flow)
        requires
            old(self).wf(),
        ensures
            final(self).wf(),
            final(self)@ == old(self)@.after(notif),
            old(self)@.counts_agree_with_term() ==> final(self)@.counts_agree_with_term(),
            flow == if notif is Reload {
                Flow::Reload
            } else {
                Flow::Restart
            },
    {
        proof {
            if self@.counts_agree_with_term() {
                lemma_instructions_keep_counts_agreeing(self@, notif);
            }
        }
        match notif {
            RenderNotif::Reload => {
                return Flow::Reload;
            },
            RenderNotif::Area(r) => {
                self.area = Some(r);
                clear_rendered(&mut self.rendered);
            },
            RenderNotif::Invert => {
                self.invert = !self.invert;
                clear_rendered(&mut self.rendered);
            },
            RenderNotif::Rotate => {
                self.rotation = self.rotation.next();
                clear_rendered(&mut self.rendered);
            },
            RenderNotif::SwitchFitOrFill(v) => {
                if v != self.fit_or_fill {
                    self.fit_or_fill = v;
                    clear_rendered(&mut self.rendered);
                }
            },
            RenderNotif::JumpToPage(p) => {
                if p < self.rendered.len() {
                    self.start_point = p;
                }
            },
            RenderNotif::PageNeedsReRender(p) => {
                if p < self.rendered.len() {
                    let found = self.rendered[p].num_search_found;
                    self.rendered.set(p, PrevRender { successful: false, num_search_found: found });
                    self.forced.push(p);
                }
            },
            RenderNotif::Search(term) => {
                if term.as_str().is_empty() {
                    self.search_term = None;
                    drop_hits(&mut self.rendered);
                } else {
                    self.search_term = Some(term);
                    clear_searched(&mut self.rendered);
                }
            },
        }
        self.restart();
        Flow::Restart
    }

    /// Decides what to do next and moves on past it.
    ///
    /// Before the first area has arrived nothing is done. Then the pages whose
    /// re-render was asked for come first, oldest request first. Then comes the
    /// first step of this pass, in the order of the walk around the current
    /// page, that finds a page with work left. When the pass is over and a term
    /// is searched for, the pages past the current one that were not searched
    /// yet are counted, one after the other, around the end of the document and
    /// back to the current page. After that nothing is left.
    #[verifier::loop_isolation(false)]
    pub fn next_job(&mut self) -> (job: Job)
        requires
            old(self).wf(),
        ensures
            final(self).wf(),
            (final(self)@, job) == old(self)@.next(),
            old(self)@.counts_agree_with_term() ==> final(self)@.counts_agree_with_term(),
            final(self)@ == (RendererModel {
                forced: final(self)@.forced,
                pass_pos: final(self)@.pass_pos,
                sweep_pos: final(self)@.sweep_pos,
                ..old(self)@
            }),
            old(self)@.area is None ==> job is WaitForArea && final(self)@ == old(self)@,
            old(self)@.area is Some && old(self)@.forced.len() > 0 ==> {
                &&& job == Job::Render { page: old(self)@.forced[0] }
                &&& final(self)@.forced == old(self)@.forced.drop_first()
                &&& final(self)@.pass_pos == old(self)@.pass_pos
                &&& final(self)@.sweep_pos == old(self)@.sweep_pos
            },
            old(self)@.area is Some && old(self)@.forced.len() == 0 ==> {
                &&& final(self)@.forced == old(self)@.forced
                &&& old(self)@.pages.len() == 0 ==> job is Idle
                &&& old(self)@.pages.len() > 0 ==> match job {
                    Job::WaitForArea => false,
                    Job::Render { page } => {
                        let k = final(self)@.pass_pos - 1;
                        &&& old(self)@.due(k)
                        &&& forall|j: int| old(self)@.pass_pos <= j < k ==> !old(self)@.due(j)
                        &&& page == old(self)@.page_at(k)
                        &&& final(self)@.sweep_pos == old(self)@.sweep_pos
                    },
                    Job::CountHits { page } => {
                        let o = final(self)@.sweep_pos - 1;
                        &&& forall|j: int| !old(self)@.due(j)
                        &&& old(self)@.term is Some
                        &&& old(self)@.unswept(o)
                        &&& forall|j: int| old(self)@.sweep_pos <= j < o ==> !old(self)@.unswept(j)
                        &&& page == old(self)@.page_past(o)
                    },
                    Job::Idle => {
                        &&& forall|j: int| !old(self)@.due(j)
                        &&& old(self)@.term is None || forall|j: int| !old(self)@.unswept(j)
                    },
                }
            },
            match job {
                Job::Render { page } => page < old(self)@.pages.len(),
                Job::CountHits { page } => page < old(self)@.pages.len(),
                _ => true,
            },
    {
        if self.area.is_none() {
            return Job::WaitForArea;
        }
        if self.forced.len() > 0 {
            let page = self.forced.remove(0);
            assert(self.forced@ =~= old(self)@.forced.drop_first());
            return Job::Render { page };
        }
        let n = self.rendered.len();
        if n == 0 {
            return Job::Idle;
        }
        while self.pass_pos < self.pass_bound
            invariant
                self.wf(),
                n == self.rendered.len(),
                n > 0,
                old(self)@.pass_pos <= self.pass_pos,
                self@ == (RendererModel { pass_pos: self@.pass_pos, ..old(self)@ }),
                forall|j: int| old(self)@.pass_pos <= j < self.pass_pos ==> !old(self)@.due(j),
                old(self)@.first_due(old(self)@.pass_pos) == old(self)@.first_due(self.pass_pos as int),
                self.pass_pos > old(self)@.pass_pos ==> self.pass_pos <= self.pass_bound,
            decreases self.pass_bound - self.pass_pos,
        {
            let k = self.pass_pos;
            let page = interleaved_index(self.start_point, 0, n, k);
            self.pass_pos = k + 1;
            let prev = self.rendered[page];
            if !(prev.successful && prev.num_search_found.is_some()) {
                return Job::Render { page };
            }
        }
        let ghost passed_pos = self@.pass_pos;
        assert(old(self)@.first_due(old(self)@.pass_pos) is None);
        if self.search_term.is_some() {
            while self.sweep_pos < n
                invariant
                    self@.pass_pos == passed_pos,
                    old(self)@.first_due(old(self)@.pass_pos) is None,
                    self.wf(),
                    n == self.rendered.len(),
                    n > 0,
                    self.start_point < n,
                    old(self)@.sweep_pos <= self.sweep_pos,
                    self@ == (RendererModel { pass_pos: self@.pass_pos, sweep_pos: self@.sweep_pos, ..old(self)@ }),
                    forall|j: int| old(self)@.sweep_pos <= j < self.sweep_pos ==> !old(self)@.unswept(j),
                    old(self)@.first_unswept(old(self)@.sweep_pos) == old(self)@.first_unswept(
                        self.sweep_pos as int,
                    ),
                    self.sweep_pos > old(self)@.sweep_pos ==> self.sweep_pos <= n,
                decreases n - self.sweep_pos,
            {
                let o = self.sweep_pos;
                let page = if o < n - self.start_point {
                    self.start_point + o
                } else {
                    o - (n - self.start_point)
                };
                self.sweep_pos = o + 1;
                if self.rendered[page].num_search_found.is_none() {
                    return Job::CountHits { page };
                }
            }
        }
        Job::Idle
    }

    /// The term was looked for on `page` before rendering it, and `hits`
    /// occurrences were found. A page that is rendered and has none needs no
    /// new render: its count is noted, and the answer is `false`. In every
    /// other case the page is to be rendered, and nothing changes yet.
    pub fn needs_render_after_search(&mut self, page: usize, hits: usize) -> (render: bool)
        requires
            old(self).wf(),
            page < old(self)@.pages.len(),
        ensures
            final(self).wf(),
            old(self)@.counts_agree_with_term() ==> final(self)@.counts_agree_with_term(),
            render == !(old(self)@.pages[page as int].successful && hits == 0),
            render ==> final(self)@ == old(self)@,
            !render ==> final(self)@ == (RendererModel {
                pages: old(self)@.pages.update(
                    page as int,
                    PrevRender { successful: true, num_search_found: Some(0) },
                ),
                ..old(self)@
            }),
    {
        if self.rendered[page].successful && hits == 0 {
            self.rendered.set(page, PrevRender { successful: true, num_search_found: Some(0) });
            false
        } else {
            true
        }
    }

    /// `page` was rendered: notes it, and makes the report that goes to the
    /// user interface. The rectangles are cut to the image, which is
    /// `pix_w` by `pix_h` pixels; without a term there are none.
    pub fn page_rendered(
        &mut self,
        page: usize,
        pixels: Vec<u8>,
        pix_w: u32,
        pix_h: u32,
        cell_w: u16,
        cell_h: u16,
        rects: Vec<HighlightRect>,
    ) -> (info: RenderInfo)
        requires
            old(self).wf(),
            page < old(self)@.pages.len(),
        ensures
            final(self).wf(),
            old(self)@.counts_agree_with_term() ==> final(self)@.counts_agree_with_term(),
            info matches RenderInfo::Page(pi) && {
                &&& pi.page_num == page
                &&& pi.img_data.pixels@ == pixels@
                &&& pi.img_data.cell_w == cell_w
                &&& pi.img_data.cell_h == cell_h
                &&& pi.result_rects@ == shown_rects(old(self)@.term is Some, rects@, pix_w, pix_h)
                &&& final(self)@ == (RendererModel {
                    pages: old(self)@.pages.update(
                        page as int,
                        PrevRender {
                            successful: true,
                            num_search_found: Some(pi.result_rects@.len() as usize),
                        },
                    ),
                    ..old(self)@
                })
            },
    {
        let result_rects = if self.search_term.is_some() {
            clamp_rects(&rects, pix_w, pix_h)
        } else {
            Vec::new()
        };
        let hits = result_rects.len();
        self.rendered.set(page, PrevRender { successful: true, num_search_found: Some(hits) });
        RenderInfo::Page(
            PageInfo { img_data: ImageData { pixels, cell_w, cell_h }, page_num: page, result_rects },
        )
    }

    /// `page` could not be rendered. What is known of the search stays.
    pub fn page_failed(&mut self, page: usize)
        requires
            old(self).wf(),
            page < old(self)@.pages.len(),
        ensures
            final(self).wf(),
            old(self)@.counts_agree_with_term() ==> final(self)@.counts_agree_with_term(),
            final(self)@ == (RendererModel {
                pages: old(self)@.pages.update(
                    page as int,
                    PrevRender {
                        successful: false,
                        num_search_found: old(self)@.pages[page as int].num_search_found,
                    },
                ),
                ..old(self)@
            }),
    {
        let found = self.rendered[page].num_search_found;
        self.rendered.set(page, PrevRender { successful: false, num_search_found: found });
    }

    /// The term occurs `hits` times on `page`, which was searched only.
    pub fn hits_counted(&mut self, page: usize, hits: usize)
        requires
            old(self).wf(),
            page < old(self)@.pages.len(),
        ensures
            final(self).wf(),
            old(self)@.counts_agree_with_term() && (old(self)@.term is Some || hits == 0)
                ==> final(self)@.counts_agree_with_term(),
            final(self)@ == (RendererModel {
                pages: old(self)@.pages.update(
                    page as int,
                    PrevRender {
                        successful: old(self)@.pages[page as int].successful,
                        num_search_found: Some(hits),
                    },
                ),
                ..old(self)@
            }),
    {
        let successful = self.rendered[page].successful;
        self.rendered.set(page, PrevRender { successful, num_search_found: Some(hits) });
    }

    pub fn n_pages(&self) -> (n: usize)
        ensures
            n == self@.pages.len(),
    {
        self.rendered.len()
    }

    pub fn area(&self) -> (a: Option<Rect>)
        ensures
            a == self@.area,
    {
        self.area
    }

    pub fn invert(&self) -> (b: bool)
        ensures
            b == self@.invert,
    {
        self.invert
    }

    pub fn rotation(&self) -> (r: Rotation)
        ensures
            r == self@.rotation,
    {
        self.rotation
    }

    pub fn fit_or_fill(&self) -> (f: FitOrFill)
        ensures
            f == self@.fit_or_fill,
    {
        self.fit_or_fill
    }

    /// The term that is searched for, if any.
    pub fn search_term(&self) -> (t: Option<String>)
        ensures
            match t {
                Some(s) => self@.term == Some(s@),
                None => self@.term is None,
            },
    {
        self.search_term.clone()
    }

    /// What is remembered of `page`.
    pub fn page_state(&self, page: usize) -> (p: Option<PrevRender>)
        ensures
            p == if page < self@.pages.len() {
                Some(self@.pages[page as int])
            } else {
                None
            },
    {
        if page < self.rendered.len() {
            Some(self.rendered[page])
        } else {
            None
        }
    }
}

} // verus!
