//! The order of the steps that publish a listing once its page is open: the
//! sign-in check first, then the photos, then the form, then the wait for the
//! marketplace to confirm. The driver carries out each step and reports how
//! it went; these functions decide what comes next.

use vstd::prelude::*;
use crate::domain::error::DomainError;
use crate::infra::marketplace::{
    asks_for_login, not_logged_in_error, not_logged_in_text, publication_failed_text, publication_result,
    requires_login, Poll, CONFIRMATION_POLLS,
};

verus! {

/// The pause before the form is filled, while it loads after the photos: 5 s.
pub const FORM_LOAD_PAUSE_MS: u64 = 5000;

/// The pause before each look for the confirmation: 2 s.
pub const CONFIRMATION_PAUSE_MS: u64 = 2000;

/// Where a publication stands.
#[derive(Clone, Copy, Debug, PartialEq, Eq, Structural)]
pub enum PublishStage {
    /// The page is open; its address tells whether the user is signed in.
    CheckingLogin,
    /// Waiting for the photo input to show.
    WaitingForPhotoInput,
    /// Handing the photos to the page.
    UploadingPhotos,
    /// Filling in the form.
    FillingForm,
    /// Looking for the confirmation; `polls` looks were already made.
    Confirming { polls: u32 },
    /// Nothing is left to do.
    Finished,
}

/// What the driver reports after carrying out a step.
#[derive(Debug)]
pub enum PublishEvent {
    /// The address of the opened page.
    PageAddress(String),
    /// How the step that was asked for ended.
    StepEnded(Result<(), DomainError>),
    /// What one look at the page for the confirmation decided.
    Looked(Poll),
}

/// What the driver is to do next.
#[derive(Debug)]
pub enum PublishAction {
    /// Wait for the photo input to show.
    WaitForPhotoInput,
    /// Hand the photos to the page.
    UploadPhotos,
    /// Pause for `pause_ms` milliseconds, then fill in the form.
    FillForm { pause_ms: u64 },
    /// Pause for `pause_ms` milliseconds, then look at the page once.
    LookForConfirmation { pause_ms: u64 },
    /// Close the browser, then end the publication with this result.
    CloseAndReturn(Result<(), DomainError>),
    /// End the publication at once with this failure; the browser is closed
    /// behind it.
    Abandon(DomainError),
}

/// The kind of an action, without what it carries.
#[derive(Clone, Copy, Debug, PartialEq, Eq, Structural)]
pub enum PublishActionKind {
    WaitForPhotoInput,
    UploadPhotos,
    FillForm,
    LookForConfirmation,
    CloseAndReturn,
    Abandon,
}

impl PublishAction {
    /// The kind of this action.
    pub open spec fn kind(self) -> PublishActionKind {
        match self {
            PublishAction::WaitForPhotoInput => PublishActionKind::WaitForPhotoInput,
            PublishAction::UploadPhotos => PublishActionKind::UploadPhotos,
            PublishAction::FillForm { .. } => PublishActionKind::FillForm,
            PublishAction::LookForConfirmation { .. } => PublishActionKind::LookForConfirmation,
            PublishAction::CloseAndReturn(_) => PublishActionKind::CloseAndReturn,
            PublishAction::Abandon(_) => PublishActionKind::Abandon,
        }
    }
}

/// Whether `event` is what a publication at `stage` waits for.
pub open spec fn expects(stage: PublishStage, event: PublishEvent) -> bool {
    match stage {
        PublishStage::CheckingLogin => event is PageAddress,
        PublishStage::WaitingForPhotoInput => event is StepEnded,
        PublishStage::UploadingPhotos => event is StepEnded,
        PublishStage::FillingForm => event is StepEnded,
        PublishStage::Confirming { polls } => event is Looked && polls < CONFIRMATION_POLLS,
        PublishStage::Finished => false,
    }
}

/// Where a publication at `stage` stands after `event`.
pub open spec fn next_stage(stage: PublishStage, event: PublishEvent) -> PublishStage {
    match (stage, event) {
        (PublishStage::CheckingLogin, PublishEvent::PageAddress(url)) => {
            if asks_for_login(url@) {
                PublishStage::Finished
            } else {
                PublishStage::WaitingForPhotoInput
            }
        },
        (PublishStage::WaitingForPhotoInput, PublishEvent::StepEnded(result)) => {
            if result is Ok { PublishStage::UploadingPhotos } else { PublishStage::Finished }
        },
        (PublishStage::UploadingPhotos, PublishEvent::StepEnded(result)) => {
            if result is Ok { PublishStage::FillingForm } else { PublishStage::Finished }
        },
        (PublishStage::FillingForm, PublishEvent::StepEnded(result)) => {
            if result is Ok { PublishStage::Confirming { polls: 0 } } else { PublishStage::Finished }
        },
        (PublishStage::Confirming { polls }, PublishEvent::Looked(poll)) => {
            if poll == Poll::KeepWaiting && polls + 1 < CONFIRMATION_POLLS {
                PublishStage::Confirming { polls: (polls + 1) as u32 }
            } else {
                PublishStage::Finished
            }
        },
        _ => PublishStage::Finished,
    }
}

/// The kind of action that a publication at `stage` asks for after `event`.
pub open spec fn next_action_kind(stage: PublishStage, event: PublishEvent) -> PublishActionKind {
    match next_stage(stage, event) {
        PublishStage::WaitingForPhotoInput => PublishActionKind::WaitForPhotoInput,
        PublishStage::UploadingPhotos => PublishActionKind::UploadPhotos,
        PublishStage::FillingForm => PublishActionKind::FillForm,
        PublishStage::Confirming { .. } => PublishActionKind::LookForConfirmation,
        _ => if event is StepEnded { PublishActionKind::Abandon } else { PublishActionKind::CloseAndReturn },
    }
}

/// Whether a publication at `stage` waits for `event`.
pub fn accepts(stage: PublishStage, event: &PublishEvent) -> (r: bool)
    ensures
        r == expects(stage, *event),
{
    match (stage, event) {
        (PublishStage::CheckingLogin, PublishEvent::PageAddress(_)) => true,
        (PublishStage::WaitingForPhotoInput, PublishEvent::StepEnded(_)) => true,
        (PublishStage::UploadingPhotos, PublishEvent::StepEnded(_)) => true,
        (PublishStage::FillingForm, PublishEvent::StepEnded(_)) => true,
        (PublishStage::Confirming { polls }, PublishEvent::Looked(_)) => polls < CONFIRMATION_POLLS,
        _ => false,
    }
}

/// Decides the next step of a publication at `stage` after `event`:
/// - a page that asks the user to sign in closes the browser and fails with
///   the sign-in failure, before any photo is handed over or any field typed;
/// - otherwise the photo input is waited for, the photos handed over, and,
///   after a pause while the form loads, the form filled in; a step that
///   fails ends the publication with its failure;
/// - then the page is looked at, after a pause each time, up to
///   `CONFIRMATION_POLLS` times: a confirmation closes the browser and
///   succeeds; a page that is gone, or no confirmation after the last look,
///   closes the browser and fails with the publication failure.
pub fn next_publish_step(stage: PublishStage, event: PublishEvent) -> (r: (PublishStage, PublishAction))
    requires
        expects(stage, event),
    ensures
        r.0 == next_stage(stage, event),
        r.1.kind() == next_action_kind(stage, event),
        r.1 matches PublishAction::FillForm { pause_ms } ==> pause_ms == FORM_LOAD_PAUSE_MS,
        r.1 matches PublishAction::LookForConfirmation { pause_ms } ==> pause_ms == CONFIRMATION_PAUSE_MS,
        event matches PublishEvent::PageAddress(_) ==> (r.1 matches PublishAction::CloseAndReturn(res)
            ==> (res matches Err(e) && e.is_automation_with(not_logged_in_text()))),
        event matches PublishEvent::StepEnded(res) ==> (r.1 matches PublishAction::Abandon(e)
            ==> (res matches Err(f) && e == f)),
        event matches PublishEvent::Looked(poll) ==> (r.1 matches PublishAction::CloseAndReturn(res) ==> {
            &&& poll == Poll::Confirmed ==> res is Ok
            &&& poll != Poll::Confirmed ==> (res matches Err(e) && e.is_automation_with(publication_failed_text()))
        }),
{
    match event {
        PublishEvent::PageAddress(url) => {
            if requires_login(url.as_str()) {
                (PublishStage::Finished, PublishAction::CloseAndReturn(Err(not_logged_in_error())))
            } else {
                (PublishStage::WaitingForPhotoInput, PublishAction::WaitForPhotoInput)
            }
        },
        PublishEvent::StepEnded(result) => {
            match result {
                Err(e) => (PublishStage::Finished, PublishAction::Abandon(e)),
                Ok(()) => match stage {
                    PublishStage::WaitingForPhotoInput => (PublishStage::UploadingPhotos, PublishAction::UploadPhotos),
                    PublishStage::UploadingPhotos => (
                        PublishStage::FillingForm,
                        PublishAction::FillForm { pause_ms: FORM_LOAD_PAUSE_MS },
                    ),
                    _ => (
                        PublishStage::Confirming { polls: 0 },
                        PublishAction::LookForConfirmation { pause_ms: CONFIRMATION_PAUSE_MS },
                    ),
                },
            }
        },
        PublishEvent::Looked(poll) => {
            let polls = match stage {
                PublishStage::Confirming { polls } => polls,
                _ => 0,
            };
            match poll {
                Poll::Confirmed => (PublishStage::Finished, PublishAction::CloseAndReturn(publication_result(true))),
                Poll::Stop => (PublishStage::Finished, PublishAction::CloseAndReturn(publication_result(false))),
                Poll::KeepWaiting => {
                    if polls + 1 < CONFIRMATION_POLLS {
                        (
                            PublishStage::Confirming { polls: polls + 1 },
                            PublishAction::LookForConfirmation { pause_ms: CONFIRMATION_PAUSE_MS },
                        )
                    } else {
                        (PublishStage::Finished, PublishAction::CloseAndReturn(publication_result(false)))
                    }
                },
            }
        },
    }
}

// ─── Runs ────────────────────────────────────────────────────────────────────

/// Where a publication stands after `events`, from the sign-in check.
pub open spec fn stage_after(events: Seq<PublishEvent>) -> PublishStage
    decreases events.len(),
{
    if events.len() == 0 {
        PublishStage::CheckingLogin
    } else {
        next_stage(stage_after(events.drop_last()), events.last())
    }
}

/// Whether every event of `events` is one the publication waited for.
pub open spec fn accepted_run(events: Seq<PublishEvent>) -> bool {
    forall|k: int| 0 <= k < events.len() ==> expects(stage_after(events.take(k)), #[trigger] events[k])
}

/// The kind of action asked for after event `k` of `events`.
pub open spec fn action_after(events: Seq<PublishEvent>, k: int) -> PublishActionKind {
    next_action_kind(stage_after(events.take(k)), events[k])
}

/// The page was found signed in: the first event is an address that does
/// not ask for a sign-in.
pub open spec fn signed_in_run(events: Seq<PublishEvent>) -> bool {
    &&& events.len() > 0
    &&& events[0] matches PublishEvent::PageAddress(url) && !asks_for_login(url@)
}

/// Past the first event, a publication has either finished or got past the
/// sign-in check on a signed-in page.
proof fn lemma_stage_after_first(events: Seq<PublishEvent>, k: int)
    requires
        accepted_run(events),
        1 <= k <= events.len(),
    ensures
        stage_after(events.take(k)) != PublishStage::CheckingLogin,
        stage_after(events.take(k)) != PublishStage::Finished ==> signed_in_run(events),
    decreases k,
{
    let prefix = events.take(k);
    assert(prefix.drop_last() =~= events.take(k - 1));
    assert(prefix.last() == events[k - 1]);
    if k == 1 {
        assert(events.take(0) =~= Seq::<PublishEvent>::empty());
        assert(expects(stage_after(events.take(0)), events[0]));
    } else {
        lemma_stage_after_first(events, k - 1);
        assert(expects(stage_after(events.take(k - 1)), events[k - 1]));
    }
}

/// A publication on a page that asks the user to sign in never hands over a
/// photo nor fills in the form: in any run of accepted events, those
/// actions are only ever asked for when the page was found signed in.
pub proof fn lemma_no_upload_without_sign_in(events: Seq<PublishEvent>, k: int)
    requires
        accepted_run(events),
        0 <= k < events.len(),
        action_after(events, k) == PublishActionKind::UploadPhotos
            || action_after(events, k) == PublishActionKind::FillForm,
    ensures
        signed_in_run(events),
{
    assert(expects(stage_after(events.take(k)), events[k]));
    if k == 0 {
        assert(events.take(0) =~= Seq::<PublishEvent>::empty());
    } else {
        lemma_stage_after_first(events, k);
    }
}

/// A page that asks the user to sign in ends the publication at once: the
/// browser is closed and nothing else is asked for.
pub proof fn lemma_sign_in_page_ends_publication(url: String)
    requires
        asks_for_login(url@),
    ensures
        next_stage(PublishStage::CheckingLogin, PublishEvent::PageAddress(url)) == PublishStage::Finished,
        next_action_kind(PublishStage::CheckingLogin, PublishEvent::PageAddress(url))
            == PublishActionKind::CloseAndReturn,
        forall|event: PublishEvent| !expects(PublishStage::Finished, event),
{
}

} // verus!
