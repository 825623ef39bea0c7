//! The scan-job state machine: from a triggering event through job
//! submission, per-page polling and download to delivery, as one verified
//! transition function from phase and device reply to next phase and next
//! action. The surrounding loop performs the actions — the blocking calls,
//! the sleep — and feeds each reply back in.

use vstd::prelude::*;

use crate::helpers::{create_job, spec_create_job};
use crate::objects::{PreScanPage, PreScanPageView, ScanConfigError, ScanSettings, ScanSettingsView, ScanStatus, ScanStatusView, WalkupScanToCompSettings, WalkupScanToCompSettingsView};
use crate::strutil::str_eq;

verus! {

/// Why a scan attempt was given up. An abort is local to the attempt: the
/// poll loop resumes afterwards.
#[derive(Clone, Copy, Debug, PartialEq, Eq)]
pub enum AbortReason {
    /// The device's current scan-to-comp event is neither a scan request
    /// nor the completion of a previous scan.
    UnexpectedEventType,
    /// The triggered destination carries no stored preset.
    MissingSettings,
    /// The feeder state or the stored shortcut lies outside the fixed
    /// mapping.
    Configuration { error: ScanConfigError },
    /// A device call failed; nothing further can be learned this attempt.
    Transport,
    /// The driver fed a reply the current phase did not ask for.
    UnexpectedInput,
}

/// Where the state machine stands.
pub enum ScanPhase {
    Idle,
    ConfirmingEvent,
    FetchingDestination,
    FetchingStatus { shortcut: String },
    SubmittingJob,
    PagePolling { location: String },
    PageReady { uri: String },
    Delivering,
    Complete,
    Aborted { reason: AbortReason },
}

pub enum ScanPhaseView {
    Idle,
    ConfirmingEvent,
    FetchingDestination,
    FetchingStatus { shortcut: Seq<char> },
    SubmittingJob,
    PagePolling { location: Seq<char> },
    PageReady { uri: Seq<char> },
    Delivering,
    Complete,
    Aborted { reason: AbortReason },
}

impl View for ScanPhase {
    type V = ScanPhaseView;

    open spec fn view(&self) -> ScanPhaseView {
        match self {
            ScanPhase::Idle => ScanPhaseView::Idle,
            ScanPhase::ConfirmingEvent => ScanPhaseView::ConfirmingEvent,
            ScanPhase::FetchingDestination => ScanPhaseView::FetchingDestination,
            ScanPhase::FetchingStatus { shortcut } => ScanPhaseView::FetchingStatus {
                shortcut: shortcut@,
            },
            ScanPhase::SubmittingJob => ScanPhaseView::SubmittingJob,
            ScanPhase::PagePolling { location } => ScanPhaseView::PagePolling {
                location: location@,
            },
            ScanPhase::PageReady { uri } => ScanPhaseView::PageReady { uri: uri@ },
            ScanPhase::Delivering => ScanPhaseView::Delivering,
            ScanPhase::Complete => ScanPhaseView::Complete,
            ScanPhase::Aborted { reason } => ScanPhaseView::Aborted { reason: *reason },
        }
    }
}

/// A reply the driver feeds into the state machine.
pub enum ScanInput {
    /// The poller matched an event to this orchestrator's destination.
    Triggered,
    /// The device's current scan-to-comp event.
    ScanEvent { event_type: String },
    /// The triggered destination, reduced to its stored preset.
    Destination { settings: Option<WalkupScanToCompSettings> },
    /// The device's current status.
    Status { status: ScanStatus },
    /// The location of the job the device created.
    JobCreated { location: String },
    /// The job's current page list.
    JobState { pages: Vec<PreScanPage> },
    /// The page's binary resource was stored locally.
    PageDownloaded,
    /// The delivery collaborator accepted the artifact.
    Delivered,
    /// The outstanding device or delivery call failed.
    CallFailed,
}

pub enum ScanInputView {
    Triggered,
    ScanEvent { event_type: Seq<char> },
    Destination { settings: Option<WalkupScanToCompSettingsView> },
    Status { status: ScanStatusView },
    JobCreated { location: Seq<char> },
    JobState { pages: Seq<PreScanPageView> },
    PageDownloaded,
    Delivered,
    CallFailed,
}

impl View for ScanInput {
    type V = ScanInputView;

    open spec fn view(&self) -> ScanInputView {
        match self {
            ScanInput::Triggered => ScanInputView::Triggered,
            ScanInput::ScanEvent { event_type } => ScanInputView::ScanEvent {
                event_type: event_type@,
            },
            ScanInput::Destination { settings } => ScanInputView::Destination {
                settings: match settings {
                    Some(s) => Some(s@),
                    None => None,
                },
            },
            ScanInput::Status { status } => ScanInputView::Status { status: status@ },
            ScanInput::JobCreated { location } => ScanInputView::JobCreated {
                location: location@,
            },
            ScanInput::JobState { pages } => ScanInputView::JobState {
                pages: pages@.map_values(|p: PreScanPage| p@),
            },
            ScanInput::PageDownloaded => ScanInputView::PageDownloaded,
            ScanInput::Delivered => ScanInputView::Delivered,
            ScanInput::CallFailed => ScanInputView::CallFailed,
        }
    }
}

/// What the driver must do next.
pub enum ScanAction {
    /// Fetch the device's current scan-to-comp event.
    FetchScanEvent,
    /// Fetch the triggered destination.
    FetchDestination,
    /// Fetch the device's current status.
    FetchStatus,
    /// Submit this settings document, obtaining a job location.
    SubmitJob { settings: ScanSettings },
    /// Fetch the job at this location.
    PollJob { location: String },
    /// Sleep briefly, then fetch the job at this location.
    SleepThenPoll { location: String },
    /// Download this binary resource to a local artifact.
    DownloadPage { uri: String },
    /// Hand the artifact to the delivery collaborator.
    Deliver,
    /// Delete the delivered local artifact.
    DiscardArtifact,
    /// Nothing: the attempt is over.
    NoAction,
}

pub enum ScanActionView {
    FetchScanEvent,
    FetchDestination,
    FetchStatus,
    SubmitJob { settings: ScanSettingsView },
    PollJob { location: Seq<char> },
    SleepThenPoll { location: Seq<char> },
    DownloadPage { uri: Seq<char> },
    Deliver,
    DiscardArtifact,
    NoAction,
}

impl View for ScanAction {
    type V = ScanActionView;

    open spec fn view(&self) -> ScanActionView {
        match self {
            ScanAction::FetchScanEvent => ScanActionView::FetchScanEvent,
            ScanAction::FetchDestination => ScanActionView::FetchDestination,
            ScanAction::FetchStatus => ScanActionView::FetchStatus,
            ScanAction::SubmitJob { settings } => ScanActionView::SubmitJob {
                settings: settings@,
            },
            ScanAction::PollJob { location } => ScanActionView::PollJob { location: location@ },
            ScanAction::SleepThenPoll { location } => ScanActionView::SleepThenPoll {
                location: location@,
            },
            ScanAction::DownloadPage { uri } => ScanActionView::DownloadPage { uri: uri@ },
            ScanAction::Deliver => ScanActionView::Deliver,
            ScanAction::DiscardArtifact => ScanActionView::DiscardArtifact,
            ScanAction::NoAction => ScanActionView::NoAction,
        }
    }
}

/// The transition function of the state machine: what phase the machine
/// enters and what it asks of the driver, for each phase and reply.
pub open spec fn spec_step(phase: ScanPhaseView, input: ScanInputView) -> (ScanPhaseView, ScanActionView) {
    match (phase, input) {
        (ScanPhaseView::Idle, ScanInputView::Triggered) => (
            ScanPhaseView::ConfirmingEvent,
            ScanActionView::FetchScanEvent,
        ),
        (ScanPhaseView::ConfirmingEvent, ScanInputView::ScanEvent { event_type }) => {
            if event_type == "ScanPagesComplete"@ {
                (ScanPhaseView::Complete, ScanActionView::NoAction)
            } else if event_type != "ScanRequested"@ {
                (
                    ScanPhaseView::Aborted { reason: AbortReason::UnexpectedEventType },
                    ScanActionView::NoAction,
                )
            } else {
                (ScanPhaseView::FetchingDestination, ScanActionView::FetchDestination)
            }
        },
        (ScanPhaseView::FetchingDestination, ScanInputView::Destination { settings }) => {
            match settings {
                None => (
                    ScanPhaseView::Aborted { reason: AbortReason::MissingSettings },
                    ScanActionView::NoAction,
                ),
                Some(preset) => (
                    ScanPhaseView::FetchingStatus { shortcut: preset.shortcut },
                    ScanActionView::FetchStatus,
                ),
            }
        },
        (ScanPhaseView::FetchingStatus { shortcut }, ScanInputView::Status { status }) => {
            match spec_create_job(status.adf_state, shortcut) {
                Ok(settings) => (
                    ScanPhaseView::SubmittingJob,
                    ScanActionView::SubmitJob { settings },
                ),
                Err(error) => (
                    ScanPhaseView::Aborted { reason: AbortReason::Configuration { error } },
                    ScanActionView::NoAction,
                ),
            }
        },
        (ScanPhaseView::SubmittingJob, ScanInputView::JobCreated { location }) => (
            ScanPhaseView::PagePolling { location },
            ScanActionView::PollJob { location },
        ),
        (ScanPhaseView::PagePolling { location }, ScanInputView::JobState { pages }) => {
            if pages.len() == 0 {
                (ScanPhaseView::Complete, ScanActionView::NoAction)
            } else if pages[0].state == "PreparingScan"@ {
                (
                    ScanPhaseView::PagePolling { location },
                    ScanActionView::SleepThenPoll { location },
                )
            } else if pages[0].state == "ReadyToUpload"@ {
                (
                    ScanPhaseView::PageReady { uri: pages[0].binary_url },
                    ScanActionView::DownloadPage { uri: pages[0].binary_url },
                )
            } else {
                (
                    ScanPhaseView::PagePolling { location },
                    ScanActionView::PollJob { location },
                )
            }
        },
        (ScanPhaseView::PageReady { uri: _ }, ScanInputView::PageDownloaded) => (
            ScanPhaseView::Delivering,
            ScanActionView::Deliver,
        ),
        (ScanPhaseView::Delivering, ScanInputView::Delivered) => (
            ScanPhaseView::Complete,
            ScanActionView::DiscardArtifact,
        ),
        (ScanPhaseView::Complete, _) => (ScanPhaseView::Complete, ScanActionView::NoAction),
        (ScanPhaseView::Aborted { reason }, _) => (
            ScanPhaseView::Aborted { reason },
            ScanActionView::NoAction,
        ),
        (ScanPhaseView::Idle, _) => (
            ScanPhaseView::Aborted { reason: AbortReason::UnexpectedInput },
            ScanActionView::NoAction,
        ),
        (_, ScanInputView::CallFailed) => (
            ScanPhaseView::Aborted { reason: AbortReason::Transport },
            ScanActionView::NoAction,
        ),
        (_, _) => (
            ScanPhaseView::Aborted { reason: AbortReason::UnexpectedInput },
            ScanActionView::NoAction,
        ),
    }
}

/// One scan attempt for one triggered destination, driven to completion
/// before the poll loop resumes.
pub struct ScanOrchestrator {
    /// The id of the destination whose trigger started this attempt.
    pub target: String,
    /// Where the state machine stands.
    pub phase: ScanPhase,
}

impl ScanOrchestrator {
    /// An attempt for the given destination, not yet started.
    pub fn new(target: String) -> (r: ScanOrchestrator)
        ensures
            r.phase@ == ScanPhaseView::Idle,
            r.target@ == target@,
    {
        ScanOrchestrator { target, phase: ScanPhase::Idle }
    }

    /// The id of the destination this attempt serves.
    pub fn target(&self) -> (r: &String)
        ensures
            r@ == self.target@,
    {
        &self.target
    }

    /// Whether the attempt is over, by completion or abort.
    pub fn is_settled(&self) -> (r: bool)
        ensures
            r == (self.phase@ is Complete || self.phase@ is Aborted),
    {
        match self.phase {
            ScanPhase::Complete => true,
            ScanPhase::Aborted { .. } => true,
            _ => false,
        }
    }

    /// Feeds one reply into the state machine and hands back what the
    /// driver must do next, exactly as the transition function says.
    pub fn step(&mut self, input: ScanInput) -> (action: ScanAction)
        ensures
            final(self).target == old(self).target,
            (final(self).phase@, action@) == spec_step(old(self).phase@, input@),
    {
        let (next, action): (ScanPhase, ScanAction) = match (&self.phase, input) {
            (ScanPhase::Idle, ScanInput::Triggered) => (
                ScanPhase::ConfirmingEvent,
                ScanAction::FetchScanEvent,
            ),
            (ScanPhase::ConfirmingEvent, ScanInput::ScanEvent { event_type }) => {
                if str_eq(event_type.as_str(), "ScanPagesComplete") {
                    (ScanPhase::Complete, ScanAction::NoAction)
                } else if !str_eq(event_type.as_str(), "ScanRequested") {
                    (
                        ScanPhase::Aborted { reason: AbortReason::UnexpectedEventType },
                        ScanAction::NoAction,
                    )
                } else {
                    (ScanPhase::FetchingDestination, ScanAction::FetchDestination)
                }
            },
            (ScanPhase::FetchingDestination, ScanInput::Destination { settings }) => {
                match settings {
                    None => (
                        ScanPhase::Aborted { reason: AbortReason::MissingSettings },
                        ScanAction::NoAction,
                    ),
                    Some(preset) => (
                        ScanPhase::FetchingStatus { shortcut: preset.shortcut },
                        ScanAction::FetchStatus,
                    ),
                }
            },
            (ScanPhase::FetchingStatus { shortcut }, ScanInput::Status { status }) => {
                let preset = WalkupScanToCompSettings {
                    settings: crate::objects::ChosenScanSettings { scan_plex_mode: String::new() },
                    shortcut: shortcut.clone(),
                };
                match create_job(status, preset) {
                    Ok(settings) => (ScanPhase::SubmittingJob, ScanAction::SubmitJob { settings }),
                    Err(error) => (
                        ScanPhase::Aborted { reason: AbortReason::Configuration { error } },
                        ScanAction::NoAction,
                    ),
                }
            },
            (ScanPhase::SubmittingJob, ScanInput::JobCreated { location }) => {
                let kept = location.clone();
                (ScanPhase::PagePolling { location: kept }, ScanAction::PollJob { location })
            },
            (ScanPhase::PagePolling { location }, ScanInput::JobState { pages }) => {
                if pages.len() == 0 {
                    (ScanPhase::Complete, ScanAction::NoAction)
                } else {
                    proof {
                        assert(pages@.map_values(|p: PreScanPage| p@)[0] == pages@[0]@);
                    }
                    let first = &pages[0];
                    if str_eq(first.state.as_str(), "PreparingScan") {
                        (
                            ScanPhase::PagePolling { location: location.clone() },
                            ScanAction::SleepThenPoll { location: location.clone() },
                        )
                    } else if str_eq(first.state.as_str(), "ReadyToUpload") {
                        (
                            ScanPhase::PageReady { uri: first.binary_url.clone() },
                            ScanAction::DownloadPage { uri: first.binary_url.clone() },
                        )
                    } else {
                        (
                            ScanPhase::PagePolling { location: location.clone() },
                            ScanAction::PollJob { location: location.clone() },
                        )
                    }
                }
            },
            (ScanPhase::PageReady { uri: _ }, ScanInput::PageDownloaded) => (
                ScanPhase::Delivering,
                ScanAction::Deliver,
            ),
            (ScanPhase::Delivering, ScanInput::Delivered) => (
                ScanPhase::Complete,
                ScanAction::DiscardArtifact,
            ),
            (ScanPhase::Complete, _) => (ScanPhase::Complete, ScanAction::NoAction),
            (ScanPhase::Aborted { reason }, _) => (
                ScanPhase::Aborted { reason: *reason },
                ScanAction::NoAction,
            ),
            (ScanPhase::Idle, _) => (
                ScanPhase::Aborted { reason: AbortReason::UnexpectedInput },
                ScanAction::NoAction,
            ),
            (_, ScanInput::CallFailed) => (
                ScanPhase::Aborted { reason: AbortReason::Transport },
                ScanAction::NoAction,
            ),
            (_, _) => (
                ScanPhase::Aborted { reason: AbortReason::UnexpectedInput },
                ScanAction::NoAction,
            ),
        };
        self.phase = next;
        action
    }
}

// ---------------------------------------------------------------------------
// Runs of the state machine, and the laws that hold of them
// ---------------------------------------------------------------------------

/// The run of the state machine from `phase` over a sequence of replies:
/// the phase entered and the action asked of the driver, step by step.
pub open spec fn spec_run(phase: ScanPhaseView, inputs: Seq<ScanInputView>) -> Seq<
    (ScanPhaseView, ScanActionView),
>
    decreases inputs.len(),
{
    if inputs.len() == 0 {
        Seq::<(ScanPhaseView, ScanActionView)>::empty()
    } else {
        let first = spec_step(phase, inputs[0]);
        Seq::<(ScanPhaseView, ScanActionView)>::empty().push(first) + spec_run(
            first.0,
            inputs.subrange(1, inputs.len() as int),
        )
    }
}

proof fn lemma_run_len(phase: ScanPhaseView, inputs: Seq<ScanInputView>)
    ensures
        spec_run(phase, inputs).len() == inputs.len(),
    decreases inputs.len(),
{
    if inputs.len() > 0 {
        lemma_run_len(spec_step(phase, inputs[0]).0, inputs.subrange(1, inputs.len() as int));
    }
}

/// A completed attempt stays completed and asks nothing further of the
/// driver, whatever replies are still fed in.
pub proof fn lemma_complete_is_absorbing(inputs: Seq<ScanInputView>)
    ensures
        spec_run(ScanPhaseView::Complete, inputs).len() == inputs.len(),
        forall|k: int|
            0 <= k < inputs.len() ==> #[trigger] spec_run(ScanPhaseView::Complete, inputs)[k] == (
                ScanPhaseView::Complete,
                ScanActionView::NoAction,
            ),
    decreases inputs.len(),
{
    if inputs.len() > 0 {
        let rest = inputs.subrange(1, inputs.len() as int);
        lemma_complete_is_absorbing(rest);
        assert(spec_step(ScanPhaseView::Complete, inputs[0]) == (
            ScanPhaseView::Complete,
            ScanActionView::NoAction,
        ));
        assert forall|k: int| 0 <= k < inputs.len() implies #[trigger] spec_run(
            ScanPhaseView::Complete,
            inputs,
        )[k] == (ScanPhaseView::Complete, ScanActionView::NoAction) by {
            if k > 0 {
                assert(spec_run(ScanPhaseView::Complete, inputs)[k] == spec_run(
                    ScanPhaseView::Complete,
                    rest,
                )[k - 1]);
            }
        }
    }
}

/// Short-circuit law: an attempt whose triggering event turns out to be
/// `ScanPagesComplete` reaches `Complete` on that very reply, and no step of
/// the whole run ever asks the driver to submit a job.
pub proof fn lemma_pages_complete_short_circuit(inputs: Seq<ScanInputView>)
    requires
        inputs.len() > 0,
        inputs[0] == (ScanInputView::ScanEvent { event_type: "ScanPagesComplete"@ }),
    ensures
        spec_run(ScanPhaseView::ConfirmingEvent, inputs).len() == inputs.len(),
        spec_run(ScanPhaseView::ConfirmingEvent, inputs)[0] == (
            ScanPhaseView::Complete,
            ScanActionView::NoAction,
        ),
        forall|k: int|
            0 <= k < inputs.len() ==> !((#[trigger] spec_run(
                ScanPhaseView::ConfirmingEvent,
                inputs,
            )[k]).1 is SubmitJob),
{
    let run = spec_run(ScanPhaseView::ConfirmingEvent, inputs);
    let rest = inputs.subrange(1, inputs.len() as int);
    assert(spec_step(ScanPhaseView::ConfirmingEvent, inputs[0]) == (
        ScanPhaseView::Complete,
        ScanActionView::NoAction,
    ));
    lemma_complete_is_absorbing(rest);
    assert forall|k: int| 0 <= k < inputs.len() implies !((#[trigger] run[k]).1
        is SubmitJob) by {
        if k > 0 {
            assert(run[k] == spec_run(ScanPhaseView::Complete, rest)[k - 1]);
        }
    }
}

/// Empty-page-list law: an attempt whose first job poll finds no pages
/// reaches `Complete` on that very reply, and no step of the whole run ever
/// asks the driver to download a page or deliver an artifact.
pub proof fn lemma_empty_page_list_completes(location: Seq<char>, inputs: Seq<ScanInputView>)
    requires
        inputs.len() > 0,
        inputs[0] == (ScanInputView::JobState { pages: Seq::<PreScanPageView>::empty() }),
    ensures
        spec_run(ScanPhaseView::PagePolling { location }, inputs).len() == inputs.len(),
        spec_run(ScanPhaseView::PagePolling { location }, inputs)[0] == (
            ScanPhaseView::Complete,
            ScanActionView::NoAction,
        ),
        forall|k: int|
            0 <= k < inputs.len() ==> {
                let step = #[trigger] spec_run(ScanPhaseView::PagePolling { location }, inputs)[k];
                !(step.1 is DownloadPage) && !(step.1 is Deliver)
            },
{
    let run = spec_run(ScanPhaseView::PagePolling { location }, inputs);
    let rest = inputs.subrange(1, inputs.len() as int);
    assert(spec_step(ScanPhaseView::PagePolling { location }, inputs[0]) == (
        ScanPhaseView::Complete,
        ScanActionView::NoAction,
    ));
    lemma_complete_is_absorbing(rest);
    assert forall|k: int| 0 <= k < inputs.len() implies {
        let step = #[trigger] run[k];
        !(step.1 is DownloadPage) && !(step.1 is Deliver)
    } by {
        if k > 0 {
            assert(run[k] == spec_run(ScanPhaseView::Complete, rest)[k - 1]);
        }
    }
}

} // verus!
