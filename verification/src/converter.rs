//! The converter's side: the pages that wait for conversion, which of them
//! is converted next, and what a converted page looks like to the screen.

use vstd::prelude::*;
use crate::renderer::{fill_default, PageInfo};
use crate::skip::{interleaved_index, interleaved_nth};

verus! {

/// Whether the terminal already holds the pixels of an image.
#[derive(Clone, Copy, Debug, PartialEq, Eq, Structural)]
pub enum MaybeTransferred {
    /// The pixels are still to be sent.
    NotYet,
    /// The terminal holds them under this id.
    Transferred(u32),
}

/// A page image as the screen layout sees it: how it is drawn, and its size
/// in terminal cells.
#[derive(Clone, Copy, Debug, PartialEq, Eq, Structural)]
pub enum ConvertedImage {
    /// Drawn as part of the text frame.
    Generic { cell_w: u16, cell_h: u16 },
    /// Sent to the terminal beside the text frame, once, and shown by id
    /// afterwards.
    Kitty { img: MaybeTransferred, cell_w: u16, cell_h: u16 },
}

impl ConvertedImage {
    pub open spec fn size(self) -> (u16, u16) {
        match self {
            ConvertedImage::Generic { cell_w, cell_h } => (cell_w, cell_h),
            ConvertedImage::Kitty { img: _, cell_w, cell_h } => (cell_w, cell_h),
        }
    }

    /// Width and height in terminal cells.
    pub fn w_h(&self) -> (r: (u16, u16))
        ensures
            r == self.size(),
    {
        match self {
            ConvertedImage::Generic { cell_w, cell_h } => (*cell_w, *cell_h),
            ConvertedImage::Kitty { img: _, cell_w, cell_h } => (*cell_w, *cell_h),
        }
    }
}

/// A converted page on its way to the screen.
#[derive(Clone, Copy, Debug, PartialEq, Eq, Structural)]
pub struct ConvertedPage {
    pub page: ConvertedImage,
    pub num: usize,
    pub num_results: usize,
}

/// What the user interface tells the converter.
#[derive(Clone, Debug, PartialEq, Eq)]
pub enum ConverterMsg {
    NumPages(usize),
    GoToPage(usize),
    AddImg(PageInfo),
}

/// The id under which the terminal keeps the image of a page: one more than
/// the page number, as long as that stays below 2^31.
pub fn kitty_image_id(page_num: usize) -> (id: Option<u32>)
    ensures
        id == if page_num + 1 < 0x8000_0000 {
            Some((page_num + 1) as u32)
        } else {
            None
        },
{
    if page_num < 0x7fff_ffff {
        Some((page_num + 1) as u32)
    } else {
        None
    }
}

/// The converter's state, as contracts speak of it.
#[verifier::ext_equal]
pub struct ConverterModel {
    /// For each page, the render that waits for conversion, if any.
    pub images: Seq<Option<PageInfo>>,
    /// The page that the user looks at.
    pub page: int,
    /// The step of the walk at which the last page was taken.
    pub iteration: int,
}

impl ConverterModel {
    /// The first page of the window that `prerender` allows around the
    /// current page.
    pub open spec fn window_start(self, prerender: int) -> int {
        if self.page >= prerender / 2 {
            self.page - prerender / 2
        } else {
            0
        }
    }

    /// The end of that window, which the document cuts short.
    pub open spec fn window_end(self, prerender: int) -> int {
        if self.window_start(prerender) + prerender < self.images.len() {
            self.window_start(prerender) + prerender
        } else {
            self.images.len() as int
        }
    }

    /// The page that step `i` of the walk around the current page visits.
    pub open spec fn page_at(self, prerender: int, i: int) -> int {
        interleaved_nth(
            self.page,
            self.window_start(prerender),
            self.window_end(prerender),
            i as nat,
        )
    }

    /// Step `i` of the walk finds a page that waits for conversion.
    pub open spec fn waiting_at(self, prerender: int, i: int) -> bool {
        &&& 0 <= i < prerender
        &&& self.iteration < prerender
        &&& self.page < self.window_end(prerender)
        &&& self.images[self.page_at(prerender, i)] is Some
    }

    /// The first step from `i` on, within `prerender` steps, that finds a page
    /// that waits for conversion.
    pub open spec fn first_waiting(self, prerender: int, i: int) -> Option<int>
        decreases prerender - i,
    {
        if i < 0 || i >= prerender {
            None
        } else if self.images[self.page_at(prerender, i)] is Some {
            Some(i)
        } else {
            self.first_waiting(prerender, i + 1)
        }
    }

    /// The render that is converted next, and the state without it.
    pub open spec fn taken(self, prerender: int) -> (ConverterModel, Option<PageInfo>) {
        if self.images.len() == 0 || self.iteration >= prerender || self.page >= self.window_end(
            prerender,
        ) {
            (self, None)
        } else {
            match self.first_waiting(prerender, 0) {
                Some(i) => (
                    ConverterModel {
                        images: self.images.update(self.page_at(prerender, i), None),
                        iteration: i,
                        ..self
                    },
                    self.images[self.page_at(prerender, i)],
                ),
                None => (self, None),
            }
        }
    }

    /// The state that a message leaves behind. A render for a page that the
    /// document does not have is dropped.
    pub open spec fn after(self, msg: ConverterMsg) -> ConverterModel {
        match msg {
            ConverterMsg::AddImg(info) => ConverterModel {
                images: if info.page_num < self.images.len() {
                    self.images.update(info.page_num as int, Some(info))
                } else {
                    self.images
                },
                iteration: 0,
                ..self
            },
            ConverterMsg::NumPages(n) => ConverterModel {
                images: Seq::new(n as nat, |i: int| None),
                page: if n == 0 {
                    0
                } else if self.page < n {
                    self.page
                } else {
                    n - 1
                },
                iteration: 0,
            },
            ConverterMsg::GoToPage(p) => ConverterModel { page: p as int, iteration: 0, ..self },
        }
    }
}

/// The renders that wait for conversion, and the page around which they are
/// converted first.
pub struct Converter {
    images: Vec<Option<PageInfo>>,
    page: usize,
    iteration: usize,
}

impl View for Converter {
    type V = ConverterModel;

    closed spec fn view(&self) -> ConverterModel {
        ConverterModel {
            images: self.images@,
            page: self.page as int,
            iteration: self.iteration as int,
        }
    }
}

impl Converter {
    /// A converter that knows no document yet.
    pub fn new() -> (c: Self)
        ensures
            c@ == (ConverterModel { images: Seq::empty(), page: 0, iteration: 0 }),
    {
        Converter { images: Vec::new(), page: 0, iteration: 0 }
    }

    /// Takes a message in.
    pub fn handle_msg(&mut self, msg: ConverterMsg)
        ensures
            final(self)@ == old(self)@.after(msg),
    {
        match msg {
            ConverterMsg::AddImg(info) => {
                let page_num = info.page_num;
                if page_num < self.images.len() {
                    self.images.set(page_num, Some(info));
                }
            },
            ConverterMsg::NumPages(n) => {
                fill_default(&mut self.images, n);
                if n == 0 {
                    self.page = 0;
                } else if self.page >= n {
                    self.page = n - 1;
                }
                assert(self.images@ =~= Seq::new(n as nat, |i: int| None));
            },
            ConverterMsg::GoToPage(p) => {
                self.page = p;
            },
        }
        self.iteration = 0;
    }

    /// Takes the render that is converted next out of the waiting ones: the
    /// first that the walk around the current page finds within `prerender`
    /// steps, inside the window of `prerender` pages that starts half of that
    /// before the current page. `None` when there is none, or when the current
    /// page lies outside the document.
    #[verifier::loop_isolation(false)]
    pub fn next_page(&mut self, prerender: usize) -> (r: Option<PageInfo>)
        ensures
            (final(self)@, r) == old(self)@.taken(prerender as int),
            match r {
                Some(info) => {
                    let i = final(self)@.iteration;
                    &&& old(self)@.waiting_at(prerender as int, i)
                    &&& forall|j: int| 0 <= j < i ==> !old(self)@.waiting_at(prerender as int, j)
                    &&& old(self)@.images[old(self)@.page_at(prerender as int, i)] == Some(info)
                    &&& final(self)@.images == old(self)@.images.update(
                        old(self)@.page_at(prerender as int, i),
                        None,
                    )
                    &&& final(self)@.page == old(self)@.page
                },
                None => {
                    &&& forall|j: int| !old(self)@.waiting_at(prerender as int, j)
                    &&& final(self)@ == old(self)@
                },
            },
    {
        let len = self.images.len();
        if len == 0 || self.iteration >= prerender {
            return None;
        }
        let half = prerender / 2;
        let idx_start = if self.page >= half {
            self.page - half
        } else {
            0
        };
        let idx_end = if prerender < len && idx_start < len - prerender {
            idx_start + prerender
        } else {
            len
        };
        if self.page >= idx_end {
            return None;
        }
        let mut i: usize = 0;
        while i < prerender
            invariant
                i <= prerender,
                self@ == old(self)@,
                forall|j: int| 0 <= j < i ==> !old(self)@.waiting_at(prerender as int, j),
                old(self)@.first_waiting(prerender as int, 0) == old(self)@.first_waiting(
                    prerender as int,
                    i as int,
                ),
            decreases prerender - i,
        {
            let p = interleaved_index(self.page, idx_start, idx_end, i);
            if self.images[p].is_some() {
                self.images.push(None);
                let taken = self.images.swap_remove(p);
                self.iteration = i;
                assert(self.images@ =~= old(self)@.images.update(p as int, None));
                return taken;
            }
            i = i + 1;
        }
        None
    }

    /// The page around which renders are converted first.
    pub fn page(&self) -> (p: usize)
        ensures
            p == self@.page,
    {
        self.page
    }

    /// How many renders wait for conversion.
    pub fn n_pages(&self) -> (n: usize)
        ensures
            n == self@.images.len(),
    {
        self.images.len()
    }
}

} // verus!
