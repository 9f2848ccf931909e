//! A terminal document viewer's coordination logic: which pages to render and
//! in what order, what to show on screen, and how each part reacts to the
//! messages of the others.

use vstd::prelude::*;

pub mod color;
pub mod converter;
pub mod event_loop;
pub mod frame;
pub mod geometry;
pub mod history;
pub mod kitty;
pub mod layout;
pub mod paint;
pub mod renderer;
pub mod skip;
pub mod status;
pub mod termsize;
pub mod text;
pub mod tui;
pub mod watch;

verus! {

/// How many pages around the current one are rendered ahead of time.
#[derive(Clone, Copy, Debug, PartialEq, Eq, Structural)]
pub enum PrerenderLimit {
    All,
    /// A positive number of pages.
    Limited(usize),
}

impl PrerenderLimit {
    /// The limit that a command-line count stands for: none or zero lift it.
    pub fn from_count(count: Option<usize>) -> (limit: Self)
        ensures
            limit == match count {
                Some(n) if n > 0 => PrerenderLimit::Limited(n),
                _ => PrerenderLimit::All,
            },
    {
        match count {
            Some(n) if n > 0 => PrerenderLimit::Limited(n),
            _ => PrerenderLimit::All,
        }
    }
}

/// Whether a page is scaled to lie wholly inside the area or to cover it.
#[derive(Clone, Copy, Debug, PartialEq, Eq, Structural)]
pub enum FitOrFill {
    Fit,
    Fill,
}

} // verus!
