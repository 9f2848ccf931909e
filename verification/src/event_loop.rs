//! What the event loop does with each thing that reaches it: which messages
//! go out to the renderer and the converter, and what changes on the screen.

use vstd::prelude::*;
use crate::converter::{ConvertedPage, ConverterMsg};
use crate::kitty::{DisplayError, DisplayResult, KittyFailureView};
use crate::renderer::{RenderError, RenderInfo, RenderNotif};
use crate::text::push_text;
use crate::tui::{
    error_text, held_pages, transferred, BottomMessage, BottomMessageView, InputAction, MessageSetting,
    RenderLayout, RenderedInfo, Tui, TuiModel,
};

verus! {

/// A message on its way out of the event loop.
#[derive(Clone, Debug, PartialEq, Eq)]
pub enum Outgoing {
    ToRenderer(RenderNotif),
    ToConverter(ConverterMsg),
}

/// What the event loop does after an input event.
#[derive(Clone, Debug, PartialEq, Eq)]
pub struct Reaction {
    /// The messages to send, in this order.
    pub out: Vec<Outgoing>,
    pub needs_redraw: bool,
    pub quit: bool,
    /// The title bar and the status line are shown or hidden.
    pub toggle_fullscreen: bool,
    /// The process hands the terminal back and stops.
    pub suspend: bool,
}

/// The messages that an action sends out.
pub open spec fn messages_of(action: Option<InputAction>) -> Seq<Outgoing> {
    match action {
        Some(InputAction::JumpingToPage(p)) => seq![
            Outgoing::ToRenderer(RenderNotif::JumpToPage(p)),
            Outgoing::ToConverter(ConverterMsg::GoToPage(p)),
        ],
        Some(InputAction::Search(term)) => seq![Outgoing::ToRenderer(RenderNotif::Search(term))],
        Some(InputAction::Invert) => seq![Outgoing::ToRenderer(RenderNotif::Invert)],
        Some(InputAction::Rotate) => seq![Outgoing::ToRenderer(RenderNotif::Rotate)],
        Some(InputAction::SwitchRenderZoom(f)) => seq![
            Outgoing::ToRenderer(RenderNotif::SwitchFitOrFill(f)),
        ],
        _ => Seq::empty(),
    }
}

/// Turns the action that an input event came to into what the event loop
/// does: without an action nothing, not even a new frame.
pub fn dispatch(action: Option<InputAction>) -> (r: Reaction)
    ensures
        r.out@ == messages_of(action),
        r.needs_redraw == (action is Some),
        r.quit == (action matches Some(InputAction::QuitApp)),
        r.toggle_fullscreen == (action matches Some(InputAction::Fullscreen)),
        r.suspend == (action matches Some(InputAction::Suspend)),
{
    let mut r = Reaction {
        out: Vec::new(),
        needs_redraw: true,
        quit: false,
        toggle_fullscreen: false,
        suspend: false,
    };
    match action {
        None => {
            r.needs_redraw = false;
        },
        Some(InputAction::Redraw) => {},
        Some(InputAction::QuitApp) => {
            r.quit = true;
        },
        Some(InputAction::JumpingToPage(p)) => {
            r.out.push(Outgoing::ToRenderer(RenderNotif::JumpToPage(p)));
            r.out.push(Outgoing::ToConverter(ConverterMsg::GoToPage(p)));
        },
        Some(InputAction::Search(term)) => {
            r.out.push(Outgoing::ToRenderer(RenderNotif::Search(term)));
        },
        Some(InputAction::Invert) => {
            r.out.push(Outgoing::ToRenderer(RenderNotif::Invert));
        },
        Some(InputAction::Rotate) => {
            r.out.push(Outgoing::ToRenderer(RenderNotif::Rotate));
        },
        Some(InputAction::Fullscreen) => {
            r.toggle_fullscreen = true;
        },
        Some(InputAction::SwitchRenderZoom(f)) => {
            r.out.push(Outgoing::ToRenderer(RenderNotif::SwitchFitOrFill(f)));
        },
        Some(InputAction::Suspend) => {
            r.suspend = true;
        },
    }
    assert(r.out@ =~= messages_of(action));
    r
}

/// The slot of a page with the number of occurrences of the term.
pub open spec fn with_count(slots: Seq<RenderedInfo>, page_num: usize, n: usize) -> Seq<RenderedInfo> {
    if page_num < slots.len() {
        slots.update(
            page_num as int,
            RenderedInfo { img: slots[page_num as int].img, num_results: Some(n) },
        )
    } else {
        slots
    }
}

/// The state of the user interface after a report of the renderer.
pub open spec fn after_render_info(m: TuiModel, msg: Result<RenderInfo, RenderError>) -> TuiModel {
    match msg {
        Ok(RenderInfo::NumPages(n)) => TuiModel {
            slots: Seq::new(n as nat, |i: int| RenderedInfo { img: None, num_results: None }),
            page: if n == 0 {
                0
            } else if m.page < n {
                m.page
            } else {
                n - 1
            },
            ..m
        },
        Ok(RenderInfo::Page(info)) => TuiModel {
            slots: with_count(m.slots, info.page_num, info.result_rects@.len() as usize),
            ..m
        },
        Ok(RenderInfo::SearchResults { page_num, num_results }) => TuiModel {
            slots: with_count(m.slots, page_num, num_results),
            ..m
        },
        Ok(RenderInfo::Reloaded) => m.showing(BottomMessageView::Reloaded),
        Err(e) => m.showing(BottomMessageView::Error(error_text(e))),
    }
}

/// What a report of the renderer sends on to the converter.
pub open spec fn forwarded(msg: Result<RenderInfo, RenderError>) -> Seq<Outgoing> {
    match msg {
        Ok(RenderInfo::NumPages(n)) => seq![Outgoing::ToConverter(ConverterMsg::NumPages(n))],
        Ok(RenderInfo::Page(info)) => seq![Outgoing::ToConverter(ConverterMsg::AddImg(info))],
        _ => Seq::empty(),
    }
}

/// Takes a report of the renderer in: a page count empties the page buffer and
/// goes on to the converter; a page goes on to the converter, and the number
/// of its highlights is noted; a search count is noted; a reload and an error
/// are shown on the status line.
pub fn on_render_info(tui: &mut Tui, msg: Result<RenderInfo, RenderError>) -> (out: Vec<Outgoing>)
    ensures
        final(tui)@ == after_render_info(old(tui)@, msg),
        out@ == forwarded(msg),
{
    let mut out: Vec<Outgoing> = Vec::new();
    match msg {
        Ok(RenderInfo::NumPages(n)) => {
            tui.set_n_pages(n);
            out.push(Outgoing::ToConverter(ConverterMsg::NumPages(n)));
        },
        Ok(RenderInfo::Page(info)) => {
            tui.got_num_results_on_page(info.page_num, info.result_rects.len());
            out.push(Outgoing::ToConverter(ConverterMsg::AddImg(info)));
        },
        Ok(RenderInfo::SearchResults { page_num, num_results }) => {
            tui.got_num_results_on_page(page_num, num_results);
        },
        Ok(RenderInfo::Reloaded) => {
            tui.set_msg(MessageSetting::Show(BottomMessage::Reloaded));
        },
        Err(e) => {
            tui.show_error(e);
        },
    }
    assert(out@ =~= forwarded(msg));
    out
}

/// Takes a result of the converter in: an image goes into the page buffer,
/// an error onto the status line.
pub fn on_converted(tui: &mut Tui, msg: Result<ConvertedPage, RenderError>)
    ensures
        final(tui)@ == match msg {
            Ok(p) => old(tui)@.with_image(p.page, p.num, p.num_results),
            Err(e) => old(tui)@.showing(BottomMessageView::Error(error_text(e))),
        },
{
    match msg {
        Ok(p) => {
            tui.page_ready(p.page, p.num, p.num_results);
        },
        Err(e) => {
            tui.show_error(e);
        },
    }
}

/// The message that tells the renderer of a new page area, when the layout
/// has changed.
pub fn area_changed(old_layout: &RenderLayout, new_layout: &RenderLayout) -> (r: Option<RenderNotif>)
    ensures
        r == if *old_layout == *new_layout {
            None
        } else {
            Some(RenderNotif::Area(new_layout.page_area))
        },
{
    if old_layout.same_as(new_layout) {
        None
    } else {
        Some(RenderNotif::Area(new_layout.page_area))
    }
}

/// The page buffer after the terminal took the pixels of the first `n` of
/// these pages.
pub open spec fn slots_transferred(slots: Seq<RenderedInfo>, done: Seq<(usize, u32)>, n: nat) -> Seq<
    RenderedInfo,
>
    decreases n,
{
    if n == 0 {
        slots
    } else {
        let before = slots_transferred(slots, done, (n - 1) as nat);
        let (page, id) = done[n - 1];
        if page < before.len() {
            before.update(page as int, transferred(before[page as int], id))
        } else {
            before
        }
    }
}

/// The id under which the terminal took the image of `page` last, among
/// the first `n` of these pages.
pub open spec fn last_id_for(done: Seq<(usize, u32)>, n: nat, page: int) -> Option<u32>
    decreases n,
{
    if n == 0 {
        None
    } else if done[n - 1].0 == page {
        Some(done[n - 1].1)
    } else {
        last_id_for(done, (n - 1) as nat, page)
    }
}

/// After the terminal took the pixels of some pages, the slot of each of
/// them holds the id of its image and no pixels to send, so that it can only
/// be shown by that id; every other slot is as it was.
pub proof fn lemma_sent_images_are_held(slots: Seq<RenderedInfo>, done: Seq<(usize, u32)>, n: nat)
    requires
        n <= done.len(),
    ensures
        slots_transferred(slots, done, n).len() == slots.len(),
        forall|i: int|
            0 <= i < slots.len() ==> #[trigger] slots_transferred(slots, done, n)[i] == match last_id_for(
                done,
                n,
                i,
            ) {
                Some(id) => transferred(slots[i], id),
                None => slots[i],
            },
    decreases n,
{
    if n > 0 {
        lemma_sent_images_are_held(slots, done, (n - 1) as nat);
    }
}

/// The page buffer after the images of the first `n` of these pages were
/// lost.
pub open spec fn slots_lost(slots: Seq<RenderedInfo>, pages: Seq<usize>, n: nat) -> Seq<RenderedInfo>
    decreases n,
{
    if n == 0 {
        slots
    } else {
        let before = slots_lost(slots, pages, (n - 1) as nat);
        let page = pages[n - 1];
        if page < before.len() {
            before.update(
                page as int,
                RenderedInfo { img: None, num_results: before[page as int].num_results },
            )
        } else {
            before
        }
    }
}

/// What the status line says of a failure of the terminal.
pub open spec fn failure_text(description: Seq<char>, failure: KittyFailureView) -> Seq<char> {
    description + ": "@ + failure.message
}

/// The state of the user interface after a frame's requests: the images that
/// the terminal took are shown by id from now on; the images that did not
/// reach the screen are lost; and a failure is shown on the status line,
/// unless it says that the terminal no longer held an image.
pub open spec fn after_display(m: TuiModel, done: Seq<(usize, u32)>, error: Option<DisplayError>) -> TuiModel {
    let taken = TuiModel { slots: slots_transferred(m.slots, done, done.len()), ..m };
    match error {
        None => taken,
        Some(e) => {
            let told = if e.failure.no_entity {
                taken
            } else {
                taken.showing(BottomMessageView::Error(failure_text(e.description@, e.failure@)))
            };
            TuiModel { slots: slots_lost(told.slots, e.pages@, e.pages@.len()), ..told }
        },
    }
}

/// The pages that are to be rendered again, one request for each.
pub open spec fn rerender_requests(error: Option<DisplayError>) -> Seq<RenderNotif> {
    match error {
        None => Seq::empty(),
        Some(e) => Seq::new(e.pages@.len(), |i: int| RenderNotif::PageNeedsReRender(e.pages@[i])),
    }
}

/// Takes in what a frame's requests to the terminal came to, and says which
/// pages the renderer is to render again.
pub fn on_display_result(tui: &mut Tui, result: DisplayResult) -> (out: Vec<RenderNotif>)
    ensures
        final(tui)@ == after_display(old(tui)@, result.transferred@, result.error),
        out@ == rerender_requests(result.error),
{
    let DisplayResult { transferred: done, error } = result;
    let mut i: usize = 0;
    while i < done.len()
        invariant
            i <= done.len(),
            tui@ == (TuiModel { slots: slots_transferred(old(tui)@.slots, done@, i as nat), ..old(tui)@ }),
        decreases done.len() - i,
    {
        let (page, id) = done[i];
        tui.image_transferred(page, id);
        i = i + 1;
    }
    let mut out: Vec<RenderNotif> = Vec::new();
    match error {
        None => {},
        Some(e) => {
            if !e.failure.no_entity {
                let mut text = String::new();
                push_text(&mut text, e.description.as_str());
                push_text(&mut text, ": ");
                push_text(&mut text, e.failure.message.as_str());
                assert(text@ =~= failure_text(e.description@, e.failure@));
                tui.set_msg(MessageSetting::Show(BottomMessage::Error(text)));
            }
            let ghost told = tui@;
            let mut j: usize = 0;
            while j < e.pages.len()
                invariant
                    j <= e.pages.len(),
                    tui@ == (TuiModel { slots: slots_lost(told.slots, e.pages@, j as nat), ..told }),
                    out.len() == j,
                    forall|k: int| 0 <= k < j ==> #[trigger] out[k] == RenderNotif::PageNeedsReRender(e.pages@[k]),
                decreases e.pages.len() - j,
            {
                let page = e.pages[j];
                tui.page_failed_display(page);
                out.push(RenderNotif::PageNeedsReRender(page));
                j = j + 1;
            }
        },
    }
    assert(out@ =~= rerender_requests(error));
    out
}

/// The requests that go to the renderer after a suspension: one for each
/// page whose image the terminal held.
pub open spec fn resume_requests(slots: Seq<RenderedInfo>) -> Seq<RenderNotif> {
    Seq::new(
        held_pages(slots, slots.len()).len(),
        |i: int| RenderNotif::PageNeedsReRender(held_pages(slots, slots.len())[i]),
    )
}

/// The process runs again after a suspension: the images that the terminal
/// held are taken as gone, and their pages are to be rendered again.
pub fn on_resumed(tui: &mut Tui) -> (out: Vec<RenderNotif>)
    ensures
        final(tui)@ == old(tui)@.resumed(),
        out@ == resume_requests(old(tui)@.slots),
{
    let lost = tui.resumed();
    let mut out: Vec<RenderNotif> = Vec::new();
    let mut i: usize = 0;
    while i < lost.len()
        invariant
            i <= lost.len(),
            out.len() == i,
            forall|k: int| 0 <= k < i ==> #[trigger] out[k] == RenderNotif::PageNeedsReRender(lost[k]),
        decreases lost.len() - i,
    {
        out.push(RenderNotif::PageNeedsReRender(lost[i]));
        i = i + 1;
    }
    assert(out@ =~= resume_requests(old(tui)@.slots));
    out
}

} // verus!
