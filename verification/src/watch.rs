//! What a change in the document's directory means for the viewer.

use vstd::prelude::*;
use crate::renderer::{RenderError, RenderNotif};
use crate::text::push_text;

verus! {

/// What happened to a file, as the watcher tells it.
#[derive(Clone, Copy, Debug, PartialEq, Eq, Structural)]
pub enum FileEventKind {
    Access,
    Remove,
    Create,
    Modify,
    Any,
    Other,
}

/// What the viewer does about an event of the watcher.
#[derive(Clone, Debug, PartialEq, Eq)]
pub enum WatchAction {
    Ignore,
    /// The renderer opens the document again.
    Reload,
    /// The status line shows an error.
    Report(RenderError),
}

/// Whether one of the files of an event is the document.
pub open spec fn any_true(hits: Seq<bool>) -> bool {
    exists|i: int| 0 <= i < hits.len() && #[trigger] hits[i]
}

fn any(hits: &Vec<bool>) -> (b: bool)
    ensures
        b == any_true(hits@),
{
    let mut i: usize = 0;
    while i < hits.len()
        invariant
            i <= hits.len(),
            forall|j: int| 0 <= j < i ==> !#[trigger] hits[j],
        decreases hits.len() - i,
    {
        if hits[i] {
            return true;
        }
        i = i + 1;
    }
    false
}

/// Decides what an event means. `is_document` says of each file of the
/// event whether it is the document. An event that does not touch the
/// document is ignored, and so is a mere access; a removal is reported; every
/// other change makes the renderer open the document again.
pub fn on_file_event(kind: FileEventKind, is_document: &Vec<bool>) -> (action: WatchAction)
    ensures
        !any_true(is_document@) || kind is Access ==> action is Ignore,
        any_true(is_document@) && kind is Remove ==> (action matches WatchAction::Report(
            RenderError::Converting(s),
        ) && s@ == "File was deleted"@),
        any_true(is_document@) && !(kind is Access) && !(kind is Remove) ==> action is Reload,
{
    if !any(is_document) {
        return WatchAction::Ignore;
    }
    match kind {
        FileEventKind::Access => WatchAction::Ignore,
        FileEventKind::Remove => {
            let mut s = String::new();
            push_text(&mut s, "File was deleted");
            assert(s@ =~= "File was deleted"@);
            WatchAction::Report(RenderError::Converting(s))
        },
        _ => WatchAction::Reload,
    }
}

/// The watcher itself failed: the status line shows its words.
pub fn on_watch_error(message: String) -> (action: WatchAction)
    ensures
        action == WatchAction::Report(RenderError::Notify(message)),
{
    WatchAction::Report(RenderError::Notify(message))
}

/// The message that a reload sends to the renderer.
pub fn reload_notif() -> (n: RenderNotif)
    ensures
        n is Reload,
{
    RenderNotif::Reload
}

} // verus!
