//! The orchestrator: it takes one job through its phases, from accepted to
//! ended.
//!
//! The orchestrator does no work of its own. It is told what happened (a
//! `Signal`), says what is to be written into the job's record (the events
//! of a `Step`) and what is to be done next (the step's `Action`). The
//! caller writes, acts, and comes back with the next signal:
//!
//! `Created` --start--> [`Detecting` --colour--> ] `Encoding` --end--> `Done`

use crate::ident::{assign_job_id, is_random_uuid_text};
use crate::job::{
    all_sound, copy_text, lemma_after_all_concat, lemma_after_all_push, text_of, EventView,
    JobEvent, JobStatus, JobView, Status, ENCODING_PROGRESS, FULL_PROGRESS,
};
use crate::options::ConversionOptions;
use crate::paths::{input_path_of, result_path_of, ArtifactPath, Locations};
use vstd::prelude::*;
use vstd::string::StringExecFns;

verus! {

/// The progress of a job that the orchestrator has taken up.
pub const STARTED_PROGRESS: u8 = 10;

/// The progress of a job whose colour is being detected.
pub const DETECTING_PROGRESS: u8 = 20;

/// Where the orchestrator stands with its job.
#[derive(Clone, Copy, Debug, PartialEq, Eq, Structural)]
pub enum Phase {
    /// Accepted, not yet taken up.
    Created,
    /// Waiting for the colour sampler.
    Detecting,
    /// Waiting for the encoder.
    Encoding,
    /// The encoder has ended, well or not.
    Done,
}

/// What the caller is to do next.
#[derive(Clone, Copy, Debug, PartialEq, Eq, Structural)]
pub enum Action {
    /// Run the colour sampler on the input, then signal `ColorSampled`.
    SampleColor,
    /// Run the encoder with a progress monitor beside it, then signal
    /// `EncodeEnded`.
    Encode,
    /// Remove the job's input. Nothing is left to do after that.
    RemoveInput,
}

/// How the encoder ended.
#[derive(Clone, Debug, PartialEq, Eq)]
pub enum EncodeOutcome {
    /// It ran and reported success.
    Succeeded,
    /// It ran and reported failure. `stderr` is what it wrote to its error
    /// stream, empty where that was not captured.
    ExitedWithError { stderr: String },
    /// It could not be run: it did not start, or could not be waited for.
    /// `reason` is what the system said.
    CouldNotRun { reason: String },
}

/// What an `EncodeOutcome` holds.
pub enum OutcomeView {
    Succeeded,
    ExitedWithError { stderr: Seq<char> },
    CouldNotRun { reason: Seq<char> },
}

impl View for EncodeOutcome {
    type V = OutcomeView;

    open spec fn view(&self) -> OutcomeView {
        match self {
            EncodeOutcome::Succeeded => OutcomeView::Succeeded,
            EncodeOutcome::ExitedWithError { stderr } => OutcomeView::ExitedWithError {
                stderr: stderr@,
            },
            EncodeOutcome::CouldNotRun { reason } => OutcomeView::CouldNotRun { reason: reason@ },
        }
    }
}

/// What happened since the last step.
#[derive(Clone, Debug, PartialEq, Eq)]
pub enum Signal {
    /// The job is taken up.
    Start,
    /// The colour sampler is through: it found this colour, or it could not
    /// run.
    ColorSampled(Option<String>),
    /// The encoder has ended.
    EncodeEnded(EncodeOutcome),
}

/// What a `Signal` holds.
pub enum SignalView {
    Start,
    ColorSampled(Option<Seq<char>>),
    EncodeEnded(OutcomeView),
}

impl View for Signal {
    type V = SignalView;

    open spec fn view(&self) -> SignalView {
        match self {
            Signal::Start => SignalView::Start,
            Signal::ColorSampled(color) => SignalView::ColorSampled(text_of(*color)),
            Signal::EncodeEnded(outcome) => SignalView::EncodeEnded(outcome@),
        }
    }
}

/// The orchestrator of one job.
#[derive(Clone, Debug, PartialEq, Eq)]
pub struct Orchestrator {
    pub phase: Phase,
    pub detect_green: bool,
    pub detected_green: Option<String>,
    pub result_path: ArtifactPath,
}

/// What an `Orchestrator` holds.
pub struct OrchestratorView {
    pub phase: Phase,
    pub detect_green: bool,
    pub detected_green: Option<Seq<char>>,
    pub result_path: Seq<char>,
}

impl OrchestratorView {
    /// What holds of every orchestrator: it knows where the artifact goes.
    pub open spec fn valid(self) -> bool {
        self.result_path.len() > 0
    }
}

impl View for Orchestrator {
    type V = OrchestratorView;

    open spec fn view(&self) -> OrchestratorView {
        OrchestratorView {
            phase: self.phase,
            detect_green: self.detect_green,
            detected_green: text_of(self.detected_green),
            result_path: self.result_path@,
        }
    }
}

/// One step of the orchestrator.
#[derive(Clone, Debug, PartialEq, Eq)]
pub struct Step {
    /// The orchestrator for the next step.
    pub orchestrator: Orchestrator,
    /// What to write into the job's record, in this order.
    pub events: Vec<JobEvent>,
    /// What to do next; `None` where the signal changed nothing.
    pub action: Option<Action>,
}

/// What a `Step` holds.
pub struct StepView {
    pub orchestrator: OrchestratorView,
    pub events: Seq<EventView>,
    pub action: Option<Action>,
}

/// What a run of events holds.
pub open spec fn events_view(events: Seq<JobEvent>) -> Seq<EventView> {
    Seq::new(events.len(), |i: int| events[i]@)
}

impl View for Step {
    type V = StepView;

    open spec fn view(&self) -> StepView {
        StepView {
            orchestrator: self.orchestrator@,
            events: events_view(self.events@),
            action: self.action,
        }
    }
}

/// The error recorded for an encoder that ended as `outcome`: for one that
/// reported failure, `FFmpeg failed`, followed by what it wrote to its
/// error stream where that was captured; for one that could not be
/// run, the system's reason.
pub open spec fn failure_text(outcome: OutcomeView) -> Seq<char> {
    match outcome {
        OutcomeView::Succeeded => Seq::<char>::empty(),
        OutcomeView::ExitedWithError { stderr } => if stderr.len() == 0 {
            "FFmpeg failed"@
        } else {
            "FFmpeg failed: "@ + stderr
        },
        OutcomeView::CouldNotRun { reason } => reason,
    }
}

/// The event that records how the encoder ended.
pub open spec fn ending_event(o: OrchestratorView, outcome: OutcomeView) -> EventView {
    if outcome is Succeeded {
        EventView::Completed { result_path: o.result_path, detected_green: o.detected_green }
    } else {
        EventView::Failed { error: failure_text(outcome) }
    }
}

/// The step that `o` takes on `signal`. A signal that does not belong to
/// the phase changes nothing.
pub open spec fn step_of(o: OrchestratorView, signal: SignalView) -> StepView {
    match (o.phase, signal) {
        (Phase::Created, SignalView::Start) => if o.detect_green {
            StepView {
                orchestrator: OrchestratorView { phase: Phase::Detecting, ..o },
                events: seq![
                    EventView::Progress(STARTED_PROGRESS),
                    EventView::Progress(DETECTING_PROGRESS),
                ],
                action: Some(Action::SampleColor),
            }
        } else {
            StepView {
                orchestrator: OrchestratorView { phase: Phase::Encoding, ..o },
                events: seq![EventView::Progress(STARTED_PROGRESS), EventView::Detected(None)],
                action: Some(Action::Encode),
            }
        },
        (Phase::Detecting, SignalView::ColorSampled(color)) => StepView {
            orchestrator: OrchestratorView { phase: Phase::Encoding, detected_green: color, ..o },
            events: seq![EventView::Detected(color)],
            action: Some(Action::Encode),
        },
        (Phase::Encoding, SignalView::EncodeEnded(outcome)) => StepView {
            orchestrator: OrchestratorView { phase: Phase::Done, ..o },
            events: seq![ending_event(o, outcome)],
            action: Some(Action::RemoveInput),
        },
        _ => StepView { orchestrator: o, events: Seq::<EventView>::empty(), action: None },
    }
}

/// The error to record for an encoder that did not end well.
fn describe_failure(outcome: &EncodeOutcome) -> (text: String)
    ensures
        text@ == failure_text(outcome@),
{
    match outcome {
        EncodeOutcome::Succeeded => String::new(),
        EncodeOutcome::ExitedWithError { stderr } => {
            if stderr.as_str().is_empty() {
                "FFmpeg failed".to_owned()
            } else {
                "FFmpeg failed: ".to_owned().concat(stderr.as_str())
            }
        },
        EncodeOutcome::CouldNotRun { reason } => reason.clone(),
    }
}

impl Orchestrator {
    /// The orchestrator of the job `job_id`, accepted with `options`. Its
    /// artifact will go where `locations` puts the job's result.
    pub fn new(locations: &Locations, job_id: &str, options: &ConversionOptions) -> (o:
        Orchestrator)
        ensures
            o@ == (OrchestratorView {
                phase: Phase::Created,
                detect_green: options@.detect_green,
                detected_green: None,
                result_path: result_path_of(locations.results@, job_id@),
            }),
            o@.valid(),
    {
        let result_path = locations.result_path(job_id);
        Orchestrator {
            phase: Phase::Created,
            detect_green: options.detect_green(),
            detected_green: None,
            result_path,
        }
    }

    /// Whether the job has ended.
    pub fn is_done(&self) -> (done: bool)
        ensures
            done == (self@.phase == Phase::Done),
    {
        self.phase == Phase::Done
    }

    /// Takes the step that `signal` calls for.
    pub fn advance(self, signal: Signal) -> (step: Step)
        ensures
            step@ == step_of(self@, signal@),
            step@.orchestrator.valid(),
            all_sound(step@.events),
    {
        proof {
            use_type_invariant(&self.result_path);
        }
        let mut events: Vec<JobEvent> = Vec::new();
        match (self.phase, signal) {
            (Phase::Created, Signal::Start) => {
                events.push(JobEvent::Progress(STARTED_PROGRESS));
                if self.detect_green {
                    events.push(JobEvent::Progress(DETECTING_PROGRESS));
                    let step = Step {
                        orchestrator: Orchestrator {
                            phase: Phase::Detecting,
                            detect_green: self.detect_green,
                            detected_green: self.detected_green,
                            result_path: self.result_path,
                        },
                        events,
                        action: Some(Action::SampleColor),
                    };
                    assert(step@.events =~= step_of(self@, signal@).events);
                    step
                } else {
                    events.push(JobEvent::Detected(None));
                    let step = Step {
                        orchestrator: Orchestrator {
                            phase: Phase::Encoding,
                            detect_green: self.detect_green,
                            detected_green: self.detected_green,
                            result_path: self.result_path,
                        },
                        events,
                        action: Some(Action::Encode),
                    };
                    assert(step@.events =~= step_of(self@, signal@).events);
                    step
                }
            },
            (Phase::Detecting, Signal::ColorSampled(color)) => {
                events.push(JobEvent::Detected(copy_text(&color)));
                let step = Step {
                    orchestrator: Orchestrator {
                        phase: Phase::Encoding,
                        detect_green: self.detect_green,
                        detected_green: color,
                        result_path: self.result_path,
                    },
                    events,
                    action: Some(Action::Encode),
                };
                assert(step@.events =~= step_of(self@, signal@).events);
                step
            },
            (Phase::Encoding, Signal::EncodeEnded(outcome)) => {
                let event = match &outcome {
                    EncodeOutcome::Succeeded => JobEvent::Completed {
                        result_path: self.result_path.clone(),
                        detected_green: copy_text(&self.detected_green),
                    },
                    _ => JobEvent::Failed { error: describe_failure(&outcome) },
                };
                events.push(event);
                let step = Step {
                    orchestrator: Orchestrator {
                        phase: Phase::Done,
                        detect_green: self.detect_green,
                        detected_green: self.detected_green,
                        result_path: self.result_path,
                    },
                    events,
                    action: Some(Action::RemoveInput),
                };
                assert(step@.events =~= step_of(self@, signal@).events);
                step
            },
            _ => {
                let step = Step { orchestrator: self, events, action: None };
                assert(step@.events =~= step_of(self@, signal@).events);
                step
            },
        }
    }
}

/// A job that has been accepted: what it is called, where its input is to
/// be kept, the record to store for it and the orchestrator that will take
/// it through its phases.
#[derive(Debug, PartialEq, Eq)]
pub struct Accepted {
    pub job_id: String,
    pub input_path: String,
    pub record: JobStatus,
    pub orchestrator: Orchestrator,
}

/// Accepts an upload as a new job. The job is called as the caller asked,
/// or gets a fresh random identifier; its record is that of a job just
/// accepted.
pub fn accept_upload(
    locations: &Locations,
    supplied_id: Option<String>,
    options: &ConversionOptions,
) -> (a: Accepted)
    ensures
        match supplied_id {
            Some(own) => a.job_id@ == own@,
            None => is_random_uuid_text(a.job_id@),
        },
        a.input_path@ == input_path_of(locations.inputs@, a.job_id@),
        a.record@ == JobView::created(),
        a.orchestrator@ == (OrchestratorView {
            phase: Phase::Created,
            detect_green: options@.detect_green,
            detected_green: None,
            result_path: result_path_of(locations.results@, a.job_id@),
        }),
{
    let job_id = assign_job_id(supplied_id);
    let input_path = locations.input_path(job_id.as_str());
    let orchestrator = Orchestrator::new(locations, job_id.as_str(), options);
    Accepted { job_id, input_path, record: JobStatus::created(), orchestrator }
}

/// The step that changes nothing.
pub open spec fn idle_step(o: OrchestratorView) -> StepView {
    StepView { orchestrator: o, events: Seq::<EventView>::empty(), action: None }
}

/// The events of a whole run, from taking the job up to the encoder's end:
/// the sampler, where it is asked for, reports `color`, and the encoder
/// ends as `outcome`.
pub open spec fn run_events(
    o: OrchestratorView,
    color: Option<Seq<char>>,
    outcome: OutcomeView,
) -> Seq<EventView> {
    let first = step_of(o, SignalView::Start);
    let second = if o.detect_green {
        step_of(first.orchestrator, SignalView::ColorSampled(color))
    } else {
        idle_step(first.orchestrator)
    };
    let third = step_of(second.orchestrator, SignalView::EncodeEnded(outcome));
    first.events + second.events + third.events
}

/// Every step of a valid orchestrator gives sound events and a valid
/// orchestrator.
pub proof fn lemma_step_is_sound(o: OrchestratorView, signal: SignalView)
    requires
        o.valid(),
    ensures
        step_of(o, signal).orchestrator.valid(),
        all_sound(step_of(o, signal).events),
{
}

/// Once the job has ended, no signal brings another event or action: the
/// record is not written again and the input is not removed twice.
pub proof fn lemma_done_is_final(o: OrchestratorView, signal: SignalView)
    requires
        o.phase == Phase::Done,
    ensures
        step_of(o, signal) == idle_step(o),
{
}

/// The input is to be removed exactly on the step that takes the encoder's
/// end, however the encoder ended; and that step ends the job.
pub proof fn lemma_input_removed_when_encoder_ends(o: OrchestratorView, signal: SignalView)
    ensures
        step_of(o, signal).action == Some(Action::RemoveInput) <==> (o.phase == Phase::Encoding
            && signal is EncodeEnded),
        step_of(o, signal).action == Some(Action::RemoveInput) <==> (o.phase != Phase::Done
            && step_of(o, signal).orchestrator.phase == Phase::Done),
{
}

/// Only the step that takes the encoder's end writes an ending into the
/// record; a failed colour detection never does.
pub proof fn lemma_only_encoder_ends_the_job(o: OrchestratorView, signal: SignalView, i: int)
    requires
        0 <= i < step_of(o, signal).events.len(),
        step_of(o, signal).events[i] is Completed || step_of(o, signal).events[i] is Failed,
    ensures
        o.phase == Phase::Encoding,
        signal is EncodeEnded,
        step_of(o, signal).events[i] is Completed <==> signal->EncodeEnded_0 is Succeeded,
{
}

/// A whole run takes the record of a freshly accepted job through its
/// milestones and ends it. With colour detection the progress stands at
/// `DETECTING_PROGRESS` while the sampler runs; with or without, it stands
/// at `ENCODING_PROGRESS` when the encoder starts. An encoder that ends well
/// leaves the job complete at 100 with the artifact's path and the colour
/// that was found; one that does not leaves it failed, with an error and
/// the progress it had.
pub proof fn lemma_run_ends_the_job(
    o: OrchestratorView,
    color: Option<Seq<char>>,
    outcome: OutcomeView,
)
    requires
        o.valid(),
        o.phase == Phase::Created,
        o.detected_green is None,
    ensures
        ({
            let first = step_of(o, SignalView::Start);
            let started = JobView::created().after_all(first.events);
            let ended = JobView::created().after_all(run_events(o, color, outcome));
            let found = if o.detect_green {
                color
            } else {
                None
            };
            &&& started.status == Status::Processing
            &&& started.progress == (if o.detect_green {
                DETECTING_PROGRESS
            } else {
                ENCODING_PROGRESS
            })
            &&& ended.valid()
            &&& ended.status.terminal()
            &&& ended.detected_green == found
            &&& outcome is Succeeded ==> ended.status == Status::Complete && ended.progress
                == FULL_PROGRESS && ended.result_path == Some(o.result_path)
            &&& !(outcome is Succeeded) ==> ended.status == Status::Failed && ended.progress
                == ENCODING_PROGRESS && ended.error is Some
        }),
{
    let created = JobView::created();
    let first = step_of(o, SignalView::Start);
    let second = if o.detect_green {
        step_of(first.orchestrator, SignalView::ColorSampled(color))
    } else {
        idle_step(first.orchestrator)
    };
    let third = step_of(second.orchestrator, SignalView::EncodeEnded(outcome));
    let none = Seq::<EventView>::empty();

    assert(first.events =~= none.push(first.events[0]).push(first.events[1]));
    lemma_after_all_push(created, none, first.events[0]);
    lemma_after_all_push(created, none.push(first.events[0]), first.events[1]);
    let started = created.after_all(first.events);
    assert(started == created.after(first.events[0]).after(first.events[1]));

    let sampled = started.after_all(second.events);
    if o.detect_green {
        lemma_after_all_push(started, none, second.events[0]);
    }
    assert(sampled.status == Status::Processing && sampled.progress == ENCODING_PROGRESS);

    lemma_after_all_push(sampled, none, third.events[0]);
    let ended = sampled.after_all(third.events);
    assert(ended == sampled.after(third.events[0]));

    lemma_after_all_concat(created, first.events, second.events);
    lemma_after_all_concat(created, first.events + second.events, third.events);
    assert(ended == created.after_all(run_events(o, color, outcome)));
    reveal_strlit("FFmpeg failed");
}

} // verus!
