//! What a whole reading comes to, whatever the clipboard utility says.
//!
//! The utility is taken here as a function from requests to outcomes. A
//! reading puts the session's questions to it one by one until the session
//! is done. The theorems of this file say what image comes out, and which
//! questions were asked on the way.

use crate::encoding::{decoded, decoding_inverts_encoding, encoded};
use crate::format::{priority, ImageFormat};
use crate::image::ImageView;
use crate::probe::ProbeOutcome;
use crate::session::{Pending, Request, SessionView, StepView};
use vstd::prelude::*;

verus! {

/// What a reading ends in when it goes on from a step, each question
/// being answered by the utility.
pub open spec fn conclusion(step: StepView, utility: spec_fn(Request) -> ProbeOutcome) -> Result<
    Option<ImageView>,
    Seq<char>,
>
    decreases step.questions_left(),
{
    match step {
        StepView::Done(result) => result,
        StepView::Ask(session) => conclusion(
            session.answer(utility(session.request())),
            utility,
        ),
    }
}

/// The questions that are put to the utility from a step on, in order.
pub open spec fn questions(step: StepView, utility: spec_fn(Request) -> ProbeOutcome) -> Seq<
    Request,
>
    decreases step.questions_left(),
{
    match step {
        StepView::Done(_) => Seq::empty(),
        StepView::Ask(session) => seq![session.request()] + questions(
            session.answer(utility(session.request())),
            utility,
        ),
    }
}

/// What a whole reading over the candidates ends in.
pub open spec fn reading(
    candidates: Seq<ImageFormat>,
    utility: spec_fn(Request) -> ProbeOutcome,
) -> Result<Option<ImageView>, Seq<char>> {
    conclusion(StepView::Ask(SessionView::beginning(candidates)), utility)
}

/// The bytes that the utility gives when asked for a format, if any.
pub open spec fn gives(utility: spec_fn(Request) -> ProbeOutcome, format: ImageFormat) -> Option<
    Seq<u8>,
> {
    utility(Request::Content(format)).payload()
}

/// Whether the candidate at a place is the first that gives any bytes.
pub open spec fn first_usable(
    candidates: Seq<ImageFormat>,
    utility: spec_fn(Request) -> ProbeOutcome,
    at: int,
) -> bool {
    &&& 0 <= at < candidates.len()
    &&& gives(utility, candidates[at]) is Some
    &&& forall|before: int|
        0 <= before < at ==> gives(utility, #[trigger] candidates[before]) is None
}

/// Whether no candidate gives any bytes.
pub open spec fn none_usable(
    candidates: Seq<ImageFormat>,
    utility: spec_fn(Request) -> ProbeOutcome,
) -> bool {
    forall|at: int| 0 <= at < candidates.len() ==> gives(utility, #[trigger] candidates[at]) is None
}

/// The questions for the candidates from one place up to, not including,
/// another.
pub open spec fn asked(candidates: Seq<ImageFormat>, from: int, to: int) -> Seq<Request> {
    Seq::new((to - from) as nat, |k: int| Request::Content(candidates[from + k]))
}

/// The session that waits for the candidate at a place.
spec fn probing(candidates: Seq<ImageFormat>, at: int) -> StepView {
    StepView::Ask(SessionView { candidates, pending: Pending::Probe(at as nat) })
}

proof fn probing_finds(
    candidates: Seq<ImageFormat>,
    utility: spec_fn(Request) -> ProbeOutcome,
    from: int,
    at: int,
)
    requires
        0 <= from <= at < candidates.len(),
        gives(utility, candidates[at]) is Some,
        forall|before: int|
            from <= before < at ==> gives(utility, #[trigger] candidates[before]) is None,
    ensures
        conclusion(probing(candidates, from), utility) == Ok::<Option<ImageView>, Seq<char>>(
            Some(ImageView::of(candidates[at], gives(utility, candidates[at])->0)),
        ),
        questions(probing(candidates, from), utility) == asked(candidates, from, at + 1),
    decreases at - from,
{
    let session = SessionView { candidates, pending: Pending::Probe(from as nat) };
    let next = session.answer(utility(session.request()));
    if from == at {
        assert(conclusion(next, utility) == next->Done_0);
        assert(questions(next, utility) == Seq::<Request>::empty());
        assert(questions(probing(candidates, from), utility) =~= asked(candidates, from, at + 1));
    } else {
        assert(gives(utility, candidates[from]) is None);
        assert(next == probing(candidates, from + 1));
        probing_finds(candidates, utility, from + 1, at);
        assert(questions(probing(candidates, from), utility) =~= asked(candidates, from, at + 1));
    }
}

proof fn probing_finds_nothing(
    candidates: Seq<ImageFormat>,
    utility: spec_fn(Request) -> ProbeOutcome,
    from: int,
)
    requires
        0 <= from < candidates.len(),
        forall|at: int|
            from <= at < candidates.len() ==> gives(utility, #[trigger] candidates[at]) is None,
    ensures
        conclusion(probing(candidates, from), utility) == Ok::<Option<ImageView>, Seq<char>>(None),
        questions(probing(candidates, from), utility) == asked(
            candidates,
            from,
            candidates.len() as int,
        ),
    decreases candidates.len() - from,
{
    let session = SessionView { candidates, pending: Pending::Probe(from as nat) };
    let next = session.answer(utility(session.request()));
    assert(gives(utility, candidates[from]) is None);
    if from + 1 < candidates.len() {
        assert(next == probing(candidates, from + 1));
        probing_finds_nothing(candidates, utility, from + 1);
    } else {
        assert(conclusion(next, utility) == next->Done_0);
        assert(questions(next, utility) == Seq::<Request>::empty());
    }
    assert(questions(probing(candidates, from), utility) =~= asked(
        candidates,
        from,
        candidates.len() as int,
    ));
}

/// The first candidate that gives any bytes decides the reading: the image
/// has its type and the base64 text of exactly its bytes, whatever later
/// candidates would have given and whatever types the utility listed. The
/// utility is asked for the list of types and for each candidate up to
/// that one, and for nothing after it.
pub proof fn first_usable_candidate_wins(
    candidates: Seq<ImageFormat>,
    utility: spec_fn(Request) -> ProbeOutcome,
    at: int,
)
    requires
        first_usable(candidates, utility, at),
    ensures
        reading(candidates, utility) == Ok::<Option<ImageView>, Seq<char>>(
            Some(ImageView::of(candidates[at], gives(utility, candidates[at])->0)),
        ),
        questions(StepView::Ask(SessionView::beginning(candidates)), utility) == seq![
            Request::ListTypes,
        ] + asked(candidates, 0, at + 1),
{
    let session = SessionView::beginning(candidates);
    assert(session.answer(utility(session.request())) == probing(candidates, 0));
    probing_finds(candidates, utility, 0, at);
}

/// Where no candidate gives any bytes, be it that the utility fails, writes
/// nothing or cannot be run, the reading ends without an image and without
/// an error, after the list of types and every candidate were asked for.
pub proof fn no_usable_candidate_no_image(
    candidates: Seq<ImageFormat>,
    utility: spec_fn(Request) -> ProbeOutcome,
)
    requires
        none_usable(candidates, utility),
    ensures
        reading(candidates, utility) == Ok::<Option<ImageView>, Seq<char>>(None),
        questions(StepView::Ask(SessionView::beginning(candidates)), utility) == seq![
            Request::ListTypes,
        ] + asked(candidates, 0, candidates.len() as int),
{
    let session = SessionView::beginning(candidates);
    let next = session.answer(utility(session.request()));
    if candidates.len() > 0 {
        assert(next == probing(candidates, 0));
        probing_finds_nothing(candidates, utility, 0);
    } else {
        assert(conclusion(next, utility) == next->Done_0);
        assert(questions(next, utility) == Seq::<Request>::empty());
        assert(questions(StepView::Ask(session), utility) =~= seq![Request::ListTypes] + asked(
            candidates,
            0,
            0,
        ));
    }
}

/// Looks for the first candidate, from a place on, that gives any bytes.
proof fn search(
    candidates: Seq<ImageFormat>,
    utility: spec_fn(Request) -> ProbeOutcome,
    from: int,
) -> (at: int)
    requires
        0 <= from <= candidates.len(),
        forall|before: int|
            0 <= before < from ==> gives(utility, #[trigger] candidates[before]) is None,
    ensures
        from <= at <= candidates.len(),
        at < candidates.len() ==> first_usable(candidates, utility, at),
        at == candidates.len() ==> none_usable(candidates, utility),
    decreases candidates.len() - from,
{
    if from == candidates.len() || gives(utility, candidates[from]) is Some {
        from
    } else {
        search(candidates, utility, from + 1)
    }
}

/// Either some candidate is the first to give bytes, or none gives any:
/// the two theorems above leave no reading out.
pub proof fn first_usable_or_none(
    candidates: Seq<ImageFormat>,
    utility: spec_fn(Request) -> ProbeOutcome,
)
    ensures
        none_usable(candidates, utility) || exists|at: int| first_usable(candidates, utility, at),
{
    let at = search(candidates, utility, 0);
    if at < candidates.len() {
        assert(first_usable(candidates, utility, at));
    }
}

/// A reading never ends in an error: it ends with an image or without one.
pub proof fn reading_never_fails(
    candidates: Seq<ImageFormat>,
    utility: spec_fn(Request) -> ProbeOutcome,
)
    ensures
        reading(candidates, utility) is Ok,
{
    let at = search(candidates, utility, 0);
    if at < candidates.len() {
        first_usable_candidate_wins(candidates, utility, at);
    } else {
        no_usable_candidate_no_image(candidates, utility);
    }
}

/// An image that a reading ends with is well formed; in particular it
/// never holds empty data.
pub proof fn reading_gives_well_formed_image(
    candidates: Seq<ImageFormat>,
    utility: spec_fn(Request) -> ProbeOutcome,
)
    ensures
        reading(candidates, utility) matches Ok(Some(image)) ==> image.well_formed()
            && image.data.len() > 0,
{
    let at = search(candidates, utility, 0);
    if at < candidates.len() {
        first_usable_candidate_wins(candidates, utility, at);
        let bytes = gives(utility, candidates[at])->0;
        utility(Request::Content(candidates[at])).payload_or_failure();
        assert(ImageView::of(candidates[at], bytes).well_formed());
    } else {
        no_usable_candidate_no_image(candidates, utility);
    }
}

/// Decoding the data of the image gives back, byte for byte, what the
/// utility wrote for the format that was taken.
pub proof fn image_data_decodes_to_payload(
    candidates: Seq<ImageFormat>,
    utility: spec_fn(Request) -> ProbeOutcome,
    at: int,
)
    requires
        first_usable(candidates, utility, at),
    ensures
        reading(candidates, utility) matches Ok(Some(image)) && decoded(image.data) == gives(
            utility,
            candidates[at],
        ),
{
    first_usable_candidate_wins(candidates, utility, at);
    decoding_inverts_encoding(gives(utility, candidates[at])->0);
}

/// In the usual order of preference, each of the four formats is returned
/// when the utility gives bytes for it and for none that is preferred to
/// it: the image has that format's type and the base64 text of exactly
/// those bytes.
pub proof fn preferred_format_is_returned(
    utility: spec_fn(Request) -> ProbeOutcome,
    format: ImageFormat,
)
    requires
        gives(utility, format) is Some,
        forall|other: ImageFormat|
            other.rank() < format.rank() ==> (#[trigger] gives(utility, other)) is None,
    ensures
        reading(priority(), utility) == Ok::<Option<ImageView>, Seq<char>>(
            Some(ImageView::of(format, gives(utility, format)->0)),
        ),
{
    let candidates = priority();
    assert(candidates[format.rank()] == format);
    assert forall|before: int| 0 <= before < format.rank() implies gives(
        utility,
        #[trigger] candidates[before],
    ) is None by {
        assert(candidates[before].rank() == before);
    }
    first_usable_candidate_wins(candidates, utility, format.rank());
}

/// What the utility says when asked for the list of types, and anything
/// else about it but the bytes it gives for each format, has no part in
/// what a reading ends in.
pub proof fn listed_types_change_nothing(
    candidates: Seq<ImageFormat>,
    one: spec_fn(Request) -> ProbeOutcome,
    other: spec_fn(Request) -> ProbeOutcome,
)
    requires
        forall|format: ImageFormat| #[trigger] gives(one, format) == gives(other, format),
    ensures
        reading(candidates, one) == reading(candidates, other),
{
    let at = search(candidates, one, 0);
    if at < candidates.len() {
        assert(gives(other, candidates[at]) is Some);
        assert forall|before: int| 0 <= before < at implies gives(
            other,
            #[trigger] candidates[before],
        ) is None by {
            assert(gives(one, candidates[before]) is None);
        }
        first_usable_candidate_wins(candidates, one, at);
        first_usable_candidate_wins(candidates, other, at);
    } else {
        assert forall|at: int| 0 <= at < candidates.len() implies gives(
            other,
            #[trigger] candidates[at],
        ) is None by {
            assert(gives(one, candidates[at]) is None);
        }
        no_usable_candidate_no_image(candidates, one);
        no_usable_candidate_no_image(candidates, other);
    }
}

/// Where the utility cannot be run at all, a reading still ends without an
/// image and without an error.
pub proof fn unavailable_utility_no_image(
    candidates: Seq<ImageFormat>,
    utility: spec_fn(Request) -> ProbeOutcome,
)
    requires
        forall|request: Request| (#[trigger] utility(request)) is NotStarted,
    ensures
        reading(candidates, utility) == Ok::<Option<ImageView>, Seq<char>>(None),
{
    assert forall|at: int| 0 <= at < candidates.len() implies gives(
        utility,
        #[trigger] candidates[at],
    ) is None by {
        assert(utility(Request::Content(candidates[at])) is NotStarted);
    }
    no_usable_candidate_no_image(candidates, utility);
}

} // verus!
