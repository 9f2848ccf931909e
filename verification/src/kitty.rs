//! What is shown through the terminal's image protocol, frame by frame: the
//! list of images of a frame, the requests that show them, and what becomes
//! of each request's answer.

use vstd::prelude::*;
use crate::converter::MaybeTransferred;
use crate::geometry::Position;
use crate::text::push_text;

verus! {

/// Which part of an image is shown, in pixels, and on how many cells. Zero
/// stands for "all of it" and "as many as it takes".
#[derive(Clone, Copy, Debug, PartialEq, Eq, Structural)]
pub struct DisplayLocation {
    pub x: u32,
    pub y: u32,
    pub width: u32,
    pub height: u32,
    pub columns: u16,
    pub rows: u16,
}

impl DisplayLocation {
    pub open spec fn whole() -> DisplayLocation {
        DisplayLocation { x: 0, y: 0, width: 0, height: 0, columns: 0, rows: 0 }
    }

    /// The whole image at its own size.
    pub fn new() -> (d: DisplayLocation)
        ensures
            d == DisplayLocation::whole(),
    {
        DisplayLocation { x: 0, y: 0, width: 0, height: 0, columns: 0, rows: 0 }
    }
}

/// One image of a frame: the page, whether the terminal holds its pixels,
/// and where it goes.
#[derive(Clone, Copy, Debug, PartialEq, Eq, Structural)]
pub struct KittyReadyToDisplay {
    pub img: MaybeTransferred,
    pub page_num: usize,
    pub pos: Position,
    pub display_loc: DisplayLocation,
}

/// What a frame asks of the image protocol.
#[derive(Clone, Debug, PartialEq, Eq)]
pub enum KittyDisplay {
    NoChange,
    ClearImages,
    DisplayImages(Vec<KittyReadyToDisplay>),
}

/// One request to the terminal. Before a request that shows an image the
/// cursor moves to `pos`.
#[derive(Clone, Copy, Debug, PartialEq, Eq, Structural)]
pub enum KittyRequest {
    /// Take every image off the screen.
    ClearAll,
    /// Send the pixels of the page's image and show it.
    TransmitAndDisplay { page_num: usize, pos: Position, display_loc: DisplayLocation },
    /// Show the image that the terminal holds under `image_id`.
    Display { image_id: u32, page_num: usize, pos: Position, display_loc: DisplayLocation },
}

/// The request that shows an image: its pixels are sent only while the
/// terminal does not hold them.
pub open spec fn request_of(e: KittyReadyToDisplay) -> KittyRequest {
    match e.img {
        MaybeTransferred::NotYet => KittyRequest::TransmitAndDisplay {
            page_num: e.page_num,
            pos: e.pos,
            display_loc: e.display_loc,
        },
        MaybeTransferred::Transferred(id) => KittyRequest::Display {
            image_id: id,
            page_num: e.page_num,
            pos: e.pos,
            display_loc: e.display_loc,
        },
    }
}

pub fn request_for(e: &KittyReadyToDisplay) -> (r: KittyRequest)
    ensures
        r == request_of(*e),
{
    match e.img {
        MaybeTransferred::NotYet => KittyRequest::TransmitAndDisplay {
            page_num: e.page_num,
            pos: e.pos,
            display_loc: e.display_loc,
        },
        MaybeTransferred::Transferred(id) => KittyRequest::Display {
            image_id: id,
            page_num: e.page_num,
            pos: e.pos,
            display_loc: e.display_loc,
        },
    }
}

/// Why a request failed.
#[derive(Clone, Debug, PartialEq, Eq)]
pub struct KittyFailure {
    /// The terminal's words.
    pub message: String,
    /// The terminal no longer holds the image.
    pub no_entity: bool,
}

#[verifier::ext_equal]
pub struct KittyFailureView {
    pub message: Seq<char>,
    pub no_entity: bool,
}

impl View for KittyFailure {
    type V = KittyFailureView;

    open spec fn view(&self) -> KittyFailureView {
        KittyFailureView { message: self.message@, no_entity: self.no_entity }
    }
}

/// What a frame's requests came to when one of them failed: the pages whose
/// images are not on the screen, what was being done, and the failure to
/// report.
#[derive(Clone, Debug, PartialEq, Eq)]
pub struct DisplayError {
    pub pages: Vec<usize>,
    pub description: String,
    pub failure: KittyFailure,
}

/// How far the requests of a frame have come.
#[derive(Clone, Copy, Debug, PartialEq, Eq, Structural)]
pub enum Phase {
    /// The screen is to be cleared of images.
    Clearing,
    /// The image at this place of the list is to be shown.
    Showing(usize),
    Finished,
}

/// The requests of a frame, as contracts speak of them.
#[verifier::ext_equal]
pub struct SessionModel {
    pub entries: Seq<KittyReadyToDisplay>,
    pub phase: Phase,
    /// The pages whose pixels the terminal took, each with its id.
    pub transferred: Seq<(usize, u32)>,
    /// The pages whose request failed.
    pub failed: Seq<usize>,
    /// The failure that is reported: the first that says more than that the
    /// terminal no longer held an image, or else the first.
    pub failure: Option<KittyFailureView>,
    pub clear_failed: bool,
}

/// Which of two failures is reported, the one kept so far or a new one: the
/// one kept, unless it only says that the terminal no longer held an image
/// and the new one says more.
pub open spec fn kept_failure(kept: Option<KittyFailureView>, new: KittyFailureView) -> KittyFailureView {
    match kept {
        Some(k) => if k.no_entity && !new.no_entity {
            new
        } else {
            k
        },
        None => new,
    }
}

pub open spec fn outcome_view(outcome: Result<u32, KittyFailure>) -> Result<u32, KittyFailureView> {
    match outcome {
        Ok(id) => Ok(id),
        Err(f) => Err(f@),
    }
}

impl SessionModel {
    pub open spec fn wf(self) -> bool {
        &&& self.phase matches Phase::Showing(i) ==> i < self.entries.len()
        &&& self.failed.len() > 0 || self.clear_failed ==> self.failure is Some
    }

    /// The requests that a frame starts with.
    pub open spec fn started(display: KittyDisplay) -> SessionModel {
        SessionModel {
            entries: match display {
                KittyDisplay::DisplayImages(v) => v@,
                _ => Seq::empty(),
            },
            phase: if display is NoChange {
                Phase::Finished
            } else {
                Phase::Clearing
            },
            transferred: Seq::empty(),
            failed: Seq::empty(),
            failure: None,
            clear_failed: false,
        }
    }

    /// The request that is due.
    pub open spec fn due(self) -> Option<KittyRequest> {
        match self.phase {
            Phase::Clearing => Some(KittyRequest::ClearAll),
            Phase::Showing(i) => Some(request_of(self.entries[i as int])),
            Phase::Finished => None,
        }
    }

    /// What comes after the image at place `i`.
    pub open spec fn phase_after(self, i: int) -> Phase {
        if i + 1 < self.entries.len() {
            Phase::Showing((i + 1) as usize)
        } else {
            Phase::Finished
        }
    }

    /// The state after the terminal answered the request that was due. When
    /// the screen cannot be cleared, nothing is shown. An image whose request
    /// fails is noted and the next one is tried. Of the failures one is kept
    /// for the report: a failure that only says that the terminal no longer
    /// held an image gives way to any other.
    pub open spec fn after(self, outcome: Result<u32, KittyFailureView>) -> SessionModel {
        match self.phase {
            Phase::Finished => self,
            Phase::Clearing => match outcome {
                Ok(_) => SessionModel { phase: self.phase_after(-1), ..self },
                Err(f) => SessionModel {
                    phase: Phase::Finished,
                    clear_failed: true,
                    failure: Some(f),
                    ..self
                },
            },
            Phase::Showing(i) => {
                let e = self.entries[i as int];
                match outcome {
                    Ok(id) => SessionModel {
                        phase: self.phase_after(i as int),
                        transferred: if e.img is NotYet {
                            self.transferred.push((e.page_num, id))
                        } else {
                            self.transferred
                        },
                        ..self
                    },
                    Err(f) => SessionModel {
                        phase: self.phase_after(i as int),
                        failed: self.failed.push(e.page_num),
                        failure: Some(kept_failure(self.failure, f)),
                        ..self
                    },
                }
            },
        }
    }
}

/// A failure that says more than that the terminal no longer held an image
/// is never lost: once one is kept it stays, and one that arrives while a
/// request is due is kept or finds such a one kept.
pub proof fn lemma_other_failures_are_kept(m: SessionModel, outcome: Result<u32, KittyFailureView>)
    ensures
        m.failure matches Some(k) && !k.no_entity && !(m.phase is Clearing) ==> m.after(outcome).failure
            == m.failure,
        outcome matches Err(f) && !f.no_entity && !(m.phase is Finished) ==> (m.after(
            outcome,
        ).failure matches Some(k) && !k.no_entity),
{
}

/// The state of a frame that shows the images of a list, after the terminal
/// answered the first `n` requests.
pub open spec fn state_after(
    list: Seq<KittyReadyToDisplay>,
    answers: Seq<Result<u32, KittyFailureView>>,
    n: nat,
) -> SessionModel
    decreases n,
{
    if n == 0 {
        SessionModel {
            entries: list,
            phase: Phase::Clearing,
            transferred: Seq::empty(),
            failed: Seq::empty(),
            failure: None,
            clear_failed: false,
        }
    } else {
        state_after(list, answers, (n - 1) as nat).after(answers[n - 1])
    }
}

/// The images among the first `n` of a list whose pixels the terminal took,
/// each with the id that the terminal answered: those that it did not hold
/// before.
pub open spec fn sent_pairs(
    list: Seq<KittyReadyToDisplay>,
    answers: Seq<Result<u32, KittyFailureView>>,
    n: nat,
) -> Seq<(usize, u32)>
    decreases n,
{
    if n == 0 {
        Seq::empty()
    } else {
        let before = sent_pairs(list, answers, (n - 1) as nat);
        if list[n - 1].img is NotYet {
            before.push((list[n - 1].page_num, answers[n as int]->Ok_0))
        } else {
            before
        }
    }
}

/// While the terminal answers every request with success, a frame asks once
/// to clear the screen and then, for each image of its list in order, once
/// for that image: by its id where the terminal holds it, with its pixels
/// where not. Only the latter are noted as sent, and nothing has failed.
pub proof fn lemma_successful_frame(
    list: Seq<KittyReadyToDisplay>,
    answers: Seq<Result<u32, KittyFailureView>>,
    n: nat,
)
    requires
        list.len() < usize::MAX,
        n <= list.len() + 1,
        n <= answers.len(),
        forall|i: int| 0 <= i < n ==> (#[trigger] answers[i]) is Ok,
    ensures
        state_after(list, answers, n).wf(),
        state_after(list, answers, n).entries == list,
        state_after(list, answers, n).failed.len() == 0,
        state_after(list, answers, n).failure is None,
        !state_after(list, answers, n).clear_failed,
        state_after(list, answers, n).phase == if n == 0 {
            Phase::Clearing
        } else if n <= list.len() {
            Phase::Showing((n - 1) as usize)
        } else {
            Phase::Finished
        },
        n == 0 ==> state_after(list, answers, n).due() == Some(KittyRequest::ClearAll),
        0 < n <= list.len() ==> state_after(list, answers, n).due() == Some(request_of(list[n - 1])),
        n == list.len() + 1 ==> state_after(list, answers, n).due() is None,
        n > 0 ==> state_after(list, answers, n).transferred == sent_pairs(
            list,
            answers,
            (n - 1) as nat,
        ),
        n == 0 ==> state_after(list, answers, n).transferred.len() == 0,
    decreases n,
{
    if n > 0 {
        lemma_successful_frame(list, answers, (n - 1) as nat);
        let before = state_after(list, answers, (n - 1) as nat);
        assert(answers[n - 1] is Ok);
        if n == 1 {
            assert(sent_pairs(list, answers, 0) =~= Seq::empty());
        }
    }
}

/// The requests of one frame and what became of them.
pub struct DisplaySession {
    entries: Vec<KittyReadyToDisplay>,
    phase: Phase,
    transferred: Vec<(usize, u32)>,
    failed: Vec<usize>,
    failure: Option<KittyFailure>,
    clear_failed: bool,
}

impl View for DisplaySession {
    type V = SessionModel;

    closed spec fn view(&self) -> SessionModel {
        SessionModel {
            entries: self.entries@,
            phase: self.phase,
            transferred: self.transferred@,
            failed: self.failed@,
            failure: match self.failure {
                Some(f) => Some(f@),
                None => None,
            },
            clear_failed: self.clear_failed,
        }
    }
}

/// What a frame's requests came to.
#[derive(Clone, Debug, PartialEq, Eq)]
pub struct DisplayResult {
    /// The pages whose pixels the terminal took, each with its id.
    pub transferred: Vec<(usize, u32)>,
    pub error: Option<DisplayError>,
}

impl DisplaySession {
    /// The requests of a frame.
    pub fn start(display: KittyDisplay) -> (s: Self)
        ensures
            s@ == SessionModel::started(display),
            s@.wf(),
            display matches KittyDisplay::DisplayImages(list) ==> s@ == state_after(
                list@,
                Seq::empty(),
                0,
            ),
    {
        let (entries, phase) = match display {
            KittyDisplay::NoChange => (Vec::new(), Phase::Finished),
            KittyDisplay::ClearImages => (Vec::new(), Phase::Clearing),
            KittyDisplay::DisplayImages(v) => (v, Phase::Clearing),
        };
        DisplaySession {
            entries,
            phase,
            transferred: Vec::new(),
            failed: Vec::new(),
            failure: None,
            clear_failed: false,
        }
    }

    /// The request to make now; `None` when the frame is through.
    pub fn next_request(&self) -> (r: Option<KittyRequest>)
        requires
            self@.wf(),
        ensures
            r == self@.due(),
    {
        match self.phase {
            Phase::Clearing => Some(KittyRequest::ClearAll),
            Phase::Showing(i) => Some(request_for(&self.entries[i])),
            Phase::Finished => None,
        }
    }

    /// Notes the terminal's answer to the request that was due: the id under
    /// which it keeps the image, or why it failed.
    pub fn record(&mut self, outcome: Result<u32, KittyFailure>)
        requires
            old(self)@.wf(),
        ensures
            final(self)@.wf(),
            final(self)@ == old(self)@.after(outcome_view(outcome)),
    {
        match self.phase {
            Phase::Finished => {},
            Phase::Clearing => {
                match outcome {
                    Ok(_) => {
                        self.phase = if self.entries.len() > 0 {
                            Phase::Showing(0)
                        } else {
                            Phase::Finished
                        };
                    },
                    Err(f) => {
                        self.phase = Phase::Finished;
                        self.clear_failed = true;
                        self.failure = Some(f);
                    },
                }
            },
            Phase::Showing(i) => {
                let e = self.entries[i];
                match outcome {
                    Ok(id) => {
                        match e.img {
                            MaybeTransferred::NotYet => {
                                self.transferred.push((e.page_num, id));
                            },
                            MaybeTransferred::Transferred(_) => {},
                        }
                    },
                    Err(f) => {
                        self.failed.push(e.page_num);
                        let replace = match &self.failure {
                            Some(k) => k.no_entity && !f.no_entity,
                            None => true,
                        };
                        if replace {
                            self.failure = Some(f);
                        }
                    },
                }
                let len = self.entries.len();
                self.phase = if i + 1 < len {
                    Phase::Showing(i + 1)
                } else {
                    Phase::Finished
                };
            },
        }
    }

    /// What the frame's requests came to. There is an error when the screen
    /// could not be cleared, with no page, or when the request of an image
    /// failed, with the pages of all that did.
    pub fn finish(self) -> (r: DisplayResult)
        requires
            self@.wf(),
        ensures
            r.transferred@ == self@.transferred,
            self@.clear_failed ==> (r.error matches Some(e) && e.pages@.len() == 0 && e.description@
                == "Couldn't clear previous images"@ && Some(e.failure@) == self@.failure),
            !self@.clear_failed && self@.failed.len() > 0 ==> (r.error matches Some(e) && e.pages@
                == self@.failed && e.description@ == "Couldn't transfer image to the terminal"@
                && Some(e.failure@) == self@.failure),
            !self@.clear_failed && self@.failed.len() == 0 ==> r.error is None,
    {
        let DisplaySession { entries: _, phase: _, transferred, failed, failure, clear_failed } =
            self;
        let error = match failure {
            Some(failure) => {
                if clear_failed {
                    let mut description = String::new();
                    push_text(&mut description, "Couldn't clear previous images");
                    assert(description@ =~= "Couldn't clear previous images"@);
                    Some(DisplayError { pages: Vec::new(), description, failure })
                } else if failed.len() > 0 {
                    let mut description = String::new();
                    push_text(&mut description, "Couldn't transfer image to the terminal");
                    assert(description@ =~= "Couldn't transfer image to the terminal"@);
                    Some(DisplayError { pages: failed, description, failure })
                } else {
                    None
                }
            },
            None => None,
        };
        DisplayResult { transferred, error }
    }
}

} // verus!
