//! The words of the title bar and of the status line.

use vstd::prelude::*;
use crate::text::{decimal, push_decimal, push_text};
use crate::tui::{BottomMessage, BottomMessageView, InputCommand, InputCommandView, RenderedInfo};

verus! {

/// How a message is coloured.
#[derive(Clone, Copy, Debug, PartialEq, Eq, Structural)]
pub enum Tone {
    Info,
    Error,
}

/// How many of the first `n` slots hold an image.
pub open spec fn images_ready(slots: Seq<RenderedInfo>, n: nat) -> nat
    decreases n,
{
    if n == 0 {
        0
    } else {
        images_ready(slots, (n - 1) as nat) + if slots[n - 1].img is Some {
            1nat
        } else {
            0nat
        }
    }
}

/// How many of the first `n` pages have been searched.
pub open spec fn pages_searched(slots: Seq<RenderedInfo>, n: nat) -> nat
    decreases n,
{
    if n == 0 {
        0
    } else {
        pages_searched(slots, (n - 1) as nat) + if slots[n - 1].num_results is Some {
            1nat
        } else {
            0nat
        }
    }
}

/// How often the term was found on the first `n` pages together.
pub open spec fn results_total(slots: Seq<RenderedInfo>, n: nat) -> nat
    decreases n,
{
    if n == 0 {
        0
    } else {
        results_total(slots, (n - 1) as nat) + match slots[n - 1].num_results {
            Some(k) => k as nat,
            None => 0nat,
        }
    }
}

/// `part` of `whole` in percent, rounded down; zero of nothing.
pub open spec fn percent(part: nat, whole: nat) -> nat {
    if whole == 0 {
        0
    } else {
        (part * 100 / whole) as nat
    }
}

/// A count as the status line can show it: it stops at the largest number
/// there is.
pub open spec fn capped(n: nat) -> nat {
    if n > usize::MAX {
        usize::MAX as nat
    } else {
        n
    }
}

fn percent_of(part: usize, whole: usize) -> (p: usize)
    requires
        part <= whole,
    ensures
        p == percent(part as nat, whole as nat),
        p <= 100,
{
    if whole == 0 {
        0
    } else {
        let wide: u128 = (part as u128) * 100 / (whole as u128);
        assert(part * 100 / (whole as int) <= 100) by (nonlinear_arith)
            requires
                0 <= part <= whole,
                whole > 0,
        ;
        wide as usize
    }
}

/// The page count of the title bar: the current page, one-based, of all.
pub open spec fn page_label_text(page_num: usize, total: nat) -> Seq<char> {
    decimal(page_num as nat + 1) + " / "@ + decimal(total) + " "@
}

/// How much of the document is converted, or nothing for an empty document.
pub open spec fn rendered_label_text(slots: Seq<RenderedInfo>) -> Seq<char> {
    if slots.len() == 0 {
        Seq::empty()
    } else {
        "Rendered: "@ + decimal(percent(images_ready(slots, slots.len()), slots.len())) + "%"@
    }
}

/// The words of the status line.
pub open spec fn message_text(msg: BottomMessageView, slots: Seq<RenderedInfo>) -> Seq<char> {
    match msg {
        BottomMessageView::Help => "?: Show help page"@,
        BottomMessageView::Error(e) => e,
        BottomMessageView::Input(InputCommandView::GoToPage(p)) => "Go to: "@ + decimal(p as nat),
        BottomMessageView::Input(InputCommandView::Search(s)) => "Search: "@ + s,
        BottomMessageView::SearchResults(term) => "Results for '"@ + term + "': "@ + decimal(
            capped(results_total(slots, slots.len())),
        ) + " (searched: "@ + decimal(percent(pages_searched(slots, slots.len()), slots.len()))
            + "%)"@,
        BottomMessageView::Reloaded => "Document was reloaded!"@,
    }
}

pub open spec fn message_tone(msg: BottomMessageView) -> Tone {
    if msg is Error {
        Tone::Error
    } else {
        Tone::Info
    }
}

/// The page count of the title bar.
pub fn page_label(page_num: usize, total: usize) -> (s: String)
    ensures
        s@ == page_label_text(page_num, total as nat),
{
    let mut s = String::new();
    push_decimal(&mut s, page_num as u128 + 1);
    push_text(&mut s, " / ");
    push_decimal(&mut s, total as u128);
    push_text(&mut s, " ");
    assert(s@ =~= page_label_text(page_num, total as nat));
    s
}

fn count_images(slots: &Vec<RenderedInfo>) -> (n: usize)
    ensures
        n == images_ready(slots@, slots@.len()),
        n <= slots.len(),
{
    let mut n: usize = 0;
    let mut i: usize = 0;
    while i < slots.len()
        invariant
            i <= slots.len(),
            n <= i,
            n == images_ready(slots@, i as nat),
        decreases slots.len() - i,
    {
        if slots[i].img.is_some() {
            n = n + 1;
        }
        i = i + 1;
    }
    n
}

fn count_searched(slots: &Vec<RenderedInfo>) -> (n: usize)
    ensures
        n == pages_searched(slots@, slots@.len()),
        n <= slots.len(),
{
    let mut n: usize = 0;
    let mut i: usize = 0;
    while i < slots.len()
        invariant
            i <= slots.len(),
            n <= i,
            n == pages_searched(slots@, i as nat),
        decreases slots.len() - i,
    {
        if slots[i].num_results.is_some() {
            n = n + 1;
        }
        i = i + 1;
    }
    n
}

fn sum_results(slots: &Vec<RenderedInfo>) -> (n: usize)
    ensures
        n == capped(results_total(slots@, slots@.len())),
{
    let mut n: usize = 0;
    let mut i: usize = 0;
    while i < slots.len()
        invariant
            i <= slots.len(),
            n == capped(results_total(slots@, i as nat)),
        decreases slots.len() - i,
    {
        let k = match slots[i].num_results {
            Some(k) => k,
            None => 0,
        };
        n = if k > usize::MAX - n {
            usize::MAX
        } else {
            n + k
        };
        i = i + 1;
    }
    n
}

/// How much of the document is converted.
pub fn rendered_label(slots: &Vec<RenderedInfo>) -> (s: String)
    ensures
        s@ == rendered_label_text(slots@),
{
    let mut s = String::new();
    if slots.len() > 0 {
        let pct = percent_of(count_images(slots), slots.len());
        push_text(&mut s, "Rendered: ");
        push_decimal(&mut s, pct as u128);
        push_text(&mut s, "%");
    }
    assert(s@ =~= rendered_label_text(slots@));
    s
}

/// The words of the status line, and their colour.
pub fn bottom_message(msg: &BottomMessage, slots: &Vec<RenderedInfo>) -> (r: (String, Tone))
    ensures
        r.0@ == message_text(msg@, slots@),
        r.1 == message_tone(msg@),
{
    let mut s = String::new();
    let tone = match msg {
        BottomMessage::Help => {
            push_text(&mut s, "?: Show help page");
            Tone::Info
        },
        BottomMessage::Error(e) => {
            push_text(&mut s, e.as_str());
            Tone::Error
        },
        BottomMessage::Input(InputCommand::GoToPage(p)) => {
            push_text(&mut s, "Go to: ");
            push_decimal(&mut s, *p as u128);
            Tone::Info
        },
        BottomMessage::Input(InputCommand::Search(t)) => {
            push_text(&mut s, "Search: ");
            push_text(&mut s, t.as_str());
            Tone::Info
        },
        BottomMessage::SearchResults(term) => {
            let found = sum_results(slots);
            let pct = percent_of(count_searched(slots), slots.len());
            push_text(&mut s, "Results for '");
            push_text(&mut s, term.as_str());
            push_text(&mut s, "': ");
            push_decimal(&mut s, found as u128);
            push_text(&mut s, " (searched: ");
            push_decimal(&mut s, pct as u128);
            push_text(&mut s, "%)");
            Tone::Info
        },
        BottomMessage::Reloaded => {
            push_text(&mut s, "Document was reloaded!");
            Tone::Info
        },
    };
    assert(s@ =~= message_text(msg@, slots@));
    (s, tone)
}

} // verus!
