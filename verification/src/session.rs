//! One reading of the clipboard, as a conversation with the utility.
//!
//! A session says what to ask the utility next; the caller runs the utility
//! and hands back what came of it; the session then either asks again or
//! is done. The first thing asked for is the list of types on offer, which
//! is of interest to a log only. After it, the candidate formats are asked
//! for in their order, and the first that gives any bytes ends the session.

use crate::format::{priority, priority_order, ImageFormat};
use crate::image::{ClipboardImage, ImageView};
use crate::encoding::{can_encode, encoded_len};
use crate::probe::ProbeOutcome;
use vstd::prelude::*;

verus! {

/// The name of the clipboard utility.
pub const UTILITY: &'static str = "wl-paste";

/// Something to ask the clipboard utility for.
#[derive(Clone, Copy, Debug, PartialEq, Eq, Structural)]
pub enum Request {
    /// The types of content that the clipboard offers.
    ListTypes,
    /// The content of the clipboard in one format.
    Content(ImageFormat),
}

impl Request {
    /// The arguments with which the utility is run for the request.
    pub open spec fn command_line(self) -> Seq<Seq<char>> {
        match self {
            Request::ListTypes => seq!["--list-types"@],
            Request::Content(format) => seq!["--type"@, format.mime()],
        }
    }

    /// The arguments with which the utility is run for the request.
    pub fn arguments(&self) -> (arguments: Vec<&'static str>)
        ensures
            arguments@.len() == self.command_line().len(),
            forall|at: int|
                0 <= at < arguments@.len() ==> (#[trigger] arguments@[at])@
                    == self.command_line()[at],
    {
        match self {
            Request::ListTypes => vec!["--list-types"],
            Request::Content(format) => vec!["--type", format.mime_type()],
        }
    }
}

/// What a session waits for.
pub enum Pending {
    /// The list of types on offer.
    Listing,
    /// The content in the candidate format at this place.
    Probe(nat),
}

/// The state of a session: the candidate formats in the order in which
/// they are tried, and what is being waited for.
pub struct SessionView {
    pub candidates: Seq<ImageFormat>,
    pub pending: Pending,
}

/// The state of a reading after an answer: another question, or the end.
pub enum StepView {
    Ask(SessionView),
    Done(Result<Option<ImageView>, Seq<char>>),
}

impl SessionView {
    /// The state in which a session over the candidates begins.
    pub open spec fn beginning(candidates: Seq<ImageFormat>) -> SessionView {
        SessionView { candidates, pending: Pending::Listing }
    }

    /// A session only ever waits for a candidate that exists.
    pub open spec fn well_formed(self) -> bool {
        self.pending matches Pending::Probe(at) ==> at < self.candidates.len()
    }

    /// What the session asks the utility for.
    pub open spec fn request(self) -> Request {
        match self.pending {
            Pending::Listing => Request::ListTypes,
            Pending::Probe(at) => Request::Content(self.candidates[at as int]),
        }
    }

    /// Going on to the candidate at a place: it is asked for, and if there
    /// is none, the reading ends without an image.
    pub open spec fn turn_to(self, at: nat) -> StepView {
        if at < self.candidates.len() {
            StepView::Ask(SessionView { candidates: self.candidates, pending: Pending::Probe(at) })
        } else {
            StepView::Done(Ok(None))
        }
    }

    /// What follows when the utility has answered. The list of types
    /// changes nothing: the first candidate is asked for whatever it said.
    /// A candidate that gave bytes ends the reading with its image; one
    /// that gave none leads on to the next.
    pub open spec fn answer(self, outcome: ProbeOutcome) -> StepView {
        match self.pending {
            Pending::Listing => self.turn_to(0),
            Pending::Probe(at) => match outcome.payload() {
                Some(bytes) => StepView::Done(
                    Ok(Some(ImageView::of(self.candidates[at as int], bytes))),
                ),
                None => self.turn_to(at + 1),
            },
        }
    }
}

impl StepView {
    /// A bound on the number of questions that are still to come.
    pub open spec fn questions_left(self) -> nat {
        match self {
            StepView::Done(_) => 0,
            StepView::Ask(session) => match session.pending {
                Pending::Listing => session.candidates.len() + 1,
                Pending::Probe(at) => if at < session.candidates.len() {
                    (session.candidates.len() - at) as nat
                } else {
                    1
                },
            },
        }
    }
}

/// A reading in progress: it holds what to ask the utility for next.
#[derive(Debug)]
pub struct Session {
    candidates: Vec<ImageFormat>,
    listed: bool,
    position: usize,
}

/// What a session has come to: another question to put to the utility, or
/// the end of the reading, with the image if there is one. The reading
/// itself never ends in an error.
#[derive(Debug)]
pub enum Step {
    Ask(Session),
    Done(Result<Option<ClipboardImage>, String>),
}

impl View for Session {
    type V = SessionView;

    closed spec fn view(&self) -> SessionView {
        SessionView {
            candidates: self.candidates@,
            pending: if self.listed {
                Pending::Probe(self.position as nat)
            } else {
                Pending::Listing
            },
        }
    }
}

impl View for Step {
    type V = StepView;

    open spec fn view(&self) -> StepView {
        match self {
            Step::Ask(session) => StepView::Ask(session@),
            Step::Done(Ok(Some(image))) => StepView::Done(Ok(Some(image@))),
            Step::Done(Ok(None)) => StepView::Done(Ok(None)),
            Step::Done(Err(message)) => StepView::Done(Err(message@)),
        }
    }
}

impl Session {
    #[verifier::type_invariant]
    spec fn holds(self) -> bool {
        self@.well_formed()
    }

    /// Whether the session can take the answer: where it ends the reading,
    /// the text of its bytes must be short enough to be held in memory.
    pub open spec fn can_take(self, outcome: ProbeOutcome) -> bool {
        self@.pending is Probe ==> (outcome.payload() matches Some(bytes) ==> encoded_len(
            bytes.len(),
        ) <= isize::MAX)
    }

    /// Whether the session can take the answer.
    pub fn accepts(&self, outcome: &ProbeOutcome) -> (accepted: bool)
        ensures
            accepted == self.can_take(*outcome),
    {
        if !self.listed {
            true
        } else {
            match outcome.payload_bytes() {
                Some(bytes) => can_encode(bytes.len()),
                None => true,
            }
        }
    }

    /// Begins a reading that tries the candidate formats in their order.
    pub fn begin(candidates: Vec<ImageFormat>) -> (session: Session)
        ensures
            session@ == SessionView::beginning(candidates@),
    {
        Session { candidates, listed: false, position: 0 }
    }

    /// Begins a reading that tries the four formats in their usual order.
    pub fn standard() -> (session: Session)
        ensures
            session@ == SessionView::beginning(priority()),
    {
        Session::begin(priority_order())
    }

    /// What to ask the utility for.
    pub fn request(&self) -> (request: Request)
        ensures
            self@.well_formed(),
            request == self@.request(),
    {
        proof {
            use_type_invariant(self);
        }
        if self.listed {
            Request::Content(self.candidates[self.position])
        } else {
            Request::ListTypes
        }
    }

    /// Takes what came of the request and says how the reading goes on.
    pub fn answer(self, outcome: ProbeOutcome) -> (step: Step)
        requires
            self.can_take(outcome),
        ensures
            step@ == self@.answer(outcome),
    {
        proof {
            use_type_invariant(&self);
        }
        if !self.listed {
            self.turn_to(0)
        } else {
            match outcome.payload_bytes() {
                Some(bytes) => {
                    let format = self.candidates[self.position];
                    Step::Done(Ok(ClipboardImage::from_bytes(format, bytes.as_slice())))
                },
                None => {
                    assert(self.position < self.candidates.len());
                    let next: usize = self.position + 1;
                    self.turn_to(next)
                },
            }
        }
    }

    fn turn_to(self, at: usize) -> (step: Step)
        ensures
            step@ == self@.turn_to(at as nat),
    {
        if at < self.candidates.len() {
            Step::Ask(Session { candidates: self.candidates, listed: true, position: at })
        } else {
            Step::Done(Ok(None))
        }
    }
}

} // verus!
