//! The record of a job and the ways in which it may change.
//!
//! A job is `Processing` from the moment it is accepted. It ends as
//! `Complete` or as `Failed`, and a record that has ended never changes
//! again. While the job is processed its progress only rises, and it stays
//! below 100: a record shows 100 exactly when it is complete.

use crate::paths::ArtifactPath;
use crate::text::same_text;
use vstd::prelude::*;

verus! {

/// The progress of a job that has just been accepted.
pub const CREATED_PROGRESS: u8 = 5;

/// The progress at which the encode begins, reached once colour detection
/// is over or was not asked for.
pub const ENCODING_PROGRESS: u8 = 30;

/// The highest progress of a job that is still processed.
pub const MAX_OPEN_PROGRESS: u8 = 99;

/// The progress of a complete job.
pub const FULL_PROGRESS: u8 = 100;

/// How far a job has come.
#[derive(Clone, Copy, Debug, PartialEq, Eq, Structural)]
pub enum Status {
    Processing,
    Complete,
    Failed,
}

impl Status {
    /// The word a status is stored and reported as.
    pub open spec fn name(self) -> Seq<char> {
        match self {
            Status::Processing => "processing"@,
            Status::Complete => "complete"@,
            Status::Failed => "failed"@,
        }
    }

    /// The status that `word` names, if it names one.
    pub open spec fn named(word: Seq<char>) -> Option<Status> {
        if word == "processing"@ {
            Some(Status::Processing)
        } else if word == "complete"@ {
            Some(Status::Complete)
        } else if word == "failed"@ {
            Some(Status::Failed)
        } else {
            None
        }
    }

    /// Whether a job with this status has ended.
    pub open spec fn terminal(self) -> bool {
        self != Status::Processing
    }

    /// The word this status is stored and reported as.
    pub fn as_str(&self) -> (word: &'static str)
        ensures
            word@ == self.name(),
    {
        match self {
            Status::Processing => "processing",
            Status::Complete => "complete",
            Status::Failed => "failed",
        }
    }

    /// The status that `word` names, if it names one.
    pub fn from_name(word: &str) -> (r: Option<Status>)
        ensures
            r == Status::named(word@),
    {
        if same_text(word, "processing") {
            Some(Status::Processing)
        } else if same_text(word, "complete") {
            Some(Status::Complete)
        } else if same_text(word, "failed") {
            Some(Status::Failed)
        } else {
            None
        }
    }

    /// Whether a job with this status has ended.
    pub fn is_terminal(&self) -> (r: bool)
        ensures
            r == self.terminal(),
    {
        match self {
            Status::Processing => false,
            Status::Complete => true,
            Status::Failed => true,
        }
    }
}

/// The text an optional string holds.
pub open spec fn text_of(s: Option<String>) -> Option<Seq<char>> {
    match s {
        Some(t) => Some(t@),
        None => None,
    }
}

/// A copy of an optional string.
pub fn copy_text(s: &Option<String>) -> (r: Option<String>)
    ensures
        text_of(r) == text_of(*s),
{
    match s {
        Some(t) => Some(t.clone()),
        None => None,
    }
}

/// The error recorded for a failure that comes without a description.
pub open spec fn unnamed_failure() -> Seq<char> {
    "FFmpeg failed"@
}

/// What a job's record holds.
pub struct JobView {
    pub status: Status,
    pub progress: u8,
    pub result_path: Option<Seq<char>>,
    pub detected_green: Option<Seq<char>>,
    pub error: Option<Seq<char>>,
}

/// Something that happened to a job and is to be written into its record.
#[derive(Clone, Debug, PartialEq, Eq)]
pub enum JobEvent {
    /// The job got as far as this estimate.
    Progress(u8),
    /// Colour detection is over, or was not asked for. It found this
    /// colour, or none.
    Detected(Option<String>),
    /// The encoder ended well and left the artifact at `result_path`.
    Completed { result_path: ArtifactPath, detected_green: Option<String> },
    /// The encoder failed; `error` describes how.
    Failed { error: String },
}

/// What a `JobEvent` holds.
pub enum EventView {
    Progress(u8),
    Detected(Option<Seq<char>>),
    Completed { result_path: Seq<char>, detected_green: Option<Seq<char>> },
    Failed { error: Seq<char> },
}

impl EventView {
    /// Whether the event can stand in a record: a completion names an
    /// artifact. Every `JobEvent` that a program holds is sound.
    pub open spec fn sound(self) -> bool {
        self matches EventView::Completed { result_path, .. } ==> result_path.len() > 0
    }
}

impl View for JobEvent {
    type V = EventView;

    open spec fn view(&self) -> EventView {
        match self {
            JobEvent::Progress(p) => EventView::Progress(*p),
            JobEvent::Detected(color) => EventView::Detected(text_of(*color)),
            JobEvent::Completed { result_path, detected_green } => EventView::Completed {
                result_path: result_path@,
                detected_green: text_of(*detected_green),
            },
            JobEvent::Failed { error } => EventView::Failed { error: error@ },
        }
    }
}

impl JobView {
    /// What must hold of every record.
    pub open spec fn valid(self) -> bool {
        &&& self.progress <= FULL_PROGRESS
        &&& (self.status == Status::Complete <==> self.progress == FULL_PROGRESS)
        &&& (self.status == Status::Complete <==> self.result_path is Some)
        &&& (self.result_path matches Some(path) ==> path.len() > 0)
        &&& (self.status == Status::Failed <==> self.error is Some)
        &&& (self.error matches Some(error) ==> error.len() > 0)
    }

    /// The record of a job that has just been accepted.
    pub open spec fn created() -> JobView {
        JobView {
            status: Status::Processing,
            progress: CREATED_PROGRESS,
            result_path: None,
            detected_green: None,
            error: None,
        }
    }

    /// The record after an estimate `p` came in: the progress rises to
    /// `p`, held at `MAX_OPEN_PROGRESS`, and never falls.
    pub open spec fn with_progress(self, p: u8) -> JobView {
        let held = if p > MAX_OPEN_PROGRESS {
            MAX_OPEN_PROGRESS
        } else {
            p
        };
        if self.status.terminal() || held <= self.progress {
            self
        } else {
            JobView { progress: held, ..self }
        }
    }

    /// The record after colour detection: the colour is noted and the
    /// progress rises to `ENCODING_PROGRESS`.
    pub open spec fn with_detection(self, color: Option<Seq<char>>) -> JobView {
        if self.status.terminal() {
            self
        } else {
            JobView { detected_green: color, ..self.with_progress(ENCODING_PROGRESS) }
        }
    }

    /// The record after the encoder ended well.
    pub open spec fn completed(
        self,
        result_path: Seq<char>,
        detected_green: Option<Seq<char>>,
    ) -> JobView {
        if self.status.terminal() {
            self
        } else {
            JobView {
                status: Status::Complete,
                progress: FULL_PROGRESS,
                result_path: Some(result_path),
                detected_green,
                ..self
            }
        }
    }

    /// The record after the encoder failed. The progress stays where it
    /// was.
    pub open spec fn failed(self, error: Seq<char>) -> JobView {
        if self.status.terminal() {
            self
        } else {
            JobView {
                status: Status::Failed,
                error: Some(
                    if error.len() > 0 {
                        error
                    } else {
                        unnamed_failure()
                    },
                ),
                ..self
            }
        }
    }

    /// The record after `event`. A record that has ended stays as it is.
    pub open spec fn after(self, event: EventView) -> JobView {
        match event {
            EventView::Progress(p) => self.with_progress(p),
            EventView::Detected(color) => self.with_detection(color),
            EventView::Completed { result_path, detected_green } => self.completed(
                result_path,
                detected_green,
            ),
            EventView::Failed { error } => self.failed(error),
        }
    }

    /// The record after a run of events, in order.
    pub open spec fn after_all(self, events: Seq<EventView>) -> JobView
        decreases events.len(),
    {
        if events.len() == 0 {
            self
        } else {
            self.after_all(events.drop_last()).after(events.last())
        }
    }
}

/// The record of one job.
#[derive(Debug, PartialEq, Eq)]
pub struct JobStatus {
    status: Status,
    progress: u8,
    result_path: Option<String>,
    detected_green: Option<String>,
    error: Option<String>,
}

impl View for JobStatus {
    type V = JobView;

    closed spec fn view(&self) -> JobView {
        JobView {
            status: self.status,
            progress: self.progress,
            result_path: text_of(self.result_path),
            detected_green: text_of(self.detected_green),
            error: text_of(self.error),
        }
    }
}

impl Clone for JobStatus {
    fn clone(&self) -> (r: JobStatus)
        ensures
            r@ == self@,
    {
        proof {
            use_type_invariant(self);
        }
        JobStatus {
            status: self.status,
            progress: self.progress,
            result_path: copy_text(&self.result_path),
            detected_green: copy_text(&self.detected_green),
            error: copy_text(&self.error),
        }
    }
}

impl JobStatus {
    #[verifier::type_invariant]
    spec fn is_valid(&self) -> bool {
        self@.valid()
    }

    /// The record of a job that has just been accepted: processing, with
    /// the first few points of progress.
    pub fn created() -> (r: JobStatus)
        ensures
            r@ == JobView::created(),
            r@.valid(),
    {
        JobStatus {
            status: Status::Processing,
            progress: CREATED_PROGRESS,
            result_path: None,
            detected_green: None,
            error: None,
        }
    }

    /// A record out of the parts it was stored as. There is none where
    /// `status` names no status or the parts break what holds of every
    /// record: such a record is corrupt.
    pub fn from_stored(
        status: &str,
        progress: u8,
        result_path: Option<String>,
        detected_green: Option<String>,
        error: Option<String>,
    ) -> (r: Option<JobStatus>)
        ensures
            match Status::named(status@) {
                Some(s) => {
                    let parts = JobView {
                        status: s,
                        progress,
                        result_path: text_of(result_path),
                        detected_green: text_of(detected_green),
                        error: text_of(error),
                    };
                    if parts.valid() {
                        r matches Some(record) && record@ == parts
                    } else {
                        r is None
                    }
                },
                None => r is None,
            },
    {
        let status = match Status::from_name(status) {
            Some(s) => s,
            None => {
                return None;
            },
        };
        let complete = status == Status::Complete;
        let failed = status == Status::Failed;
        if progress > FULL_PROGRESS || complete != (progress == FULL_PROGRESS) {
            return None;
        }
        match &result_path {
            Some(path) => {
                if !complete || path.as_str().is_empty() {
                    return None;
                }
            },
            None => {
                if complete {
                    return None;
                }
            },
        }
        match &error {
            Some(text) => {
                if !failed || text.as_str().is_empty() {
                    return None;
                }
            },
            None => {
                if failed {
                    return None;
                }
            },
        }
        Some(JobStatus { status, progress, result_path, detected_green, error })
    }

    /// How far the job has come.
    pub fn status(&self) -> (s: Status)
        ensures
            s == self@.status,
            self@.valid(),
    {
        proof {
            use_type_invariant(self);
        }
        self.status
    }

    /// The progress, from 0 to 100. It is 100 exactly when the job is
    /// complete.
    pub fn progress(&self) -> (p: u8)
        ensures
            p == self@.progress,
            p <= FULL_PROGRESS,
            p == FULL_PROGRESS <==> self@.status == Status::Complete,
            self@.valid(),
    {
        proof {
            use_type_invariant(self);
        }
        self.progress
    }

    /// The path of the artifact. There is one exactly when the job is
    /// complete, and it is not empty.
    pub fn result_path(&self) -> (path: Option<String>)
        ensures
            text_of(path) == self@.result_path,
            path is Some <==> self@.status == Status::Complete,
            path matches Some(p) ==> p@.len() > 0,
            self@.valid(),
    {
        proof {
            use_type_invariant(self);
        }
        copy_text(&self.result_path)
    }

    /// The backdrop colour that was detected, if any.
    pub fn detected_green(&self) -> (color: Option<String>)
        ensures
            text_of(color) == self@.detected_green,
    {
        copy_text(&self.detected_green)
    }

    /// The description of the failure. There is one exactly when the job
    /// has failed, and it is not empty.
    pub fn error(&self) -> (error: Option<String>)
        ensures
            text_of(error) == self@.error,
            error is Some <==> self@.status == Status::Failed,
            error matches Some(e) ==> e@.len() > 0,
            self@.valid(),
    {
        proof {
            use_type_invariant(self);
        }
        copy_text(&self.error)
    }

    /// The record after `event`. A record that has ended stays as it is;
    /// one that is processed never loses progress.
    pub fn apply(self, event: &JobEvent) -> (r: JobStatus)
        ensures
            r@ == self@.after(event@),
            r@.valid(),
            self@.valid(),
            r@.progress >= self@.progress,
    {
        proof {
            use_type_invariant(&self);
        }
        if self.status.is_terminal() {
            return self;
        }
        match event {
            JobEvent::Progress(p) => {
                let progress = raised(self.progress, *p);
                JobStatus {
                    status: self.status,
                    progress,
                    result_path: self.result_path,
                    detected_green: self.detected_green,
                    error: self.error,
                }
            },
            JobEvent::Detected(color) => {
                let progress = raised(self.progress, ENCODING_PROGRESS);
                JobStatus {
                    status: self.status,
                    progress,
                    result_path: self.result_path,
                    detected_green: copy_text(color),
                    error: self.error,
                }
            },
            JobEvent::Completed { result_path, detected_green } => JobStatus {
                status: Status::Complete,
                progress: FULL_PROGRESS,
                result_path: Some(result_path.as_str().to_owned()),
                detected_green: copy_text(detected_green),
                error: self.error,
            },
            JobEvent::Failed { error } => {
                proof {
                    reveal_strlit("FFmpeg failed");
                }
                let text = if error.as_str().is_empty() {
                    "FFmpeg failed".to_owned()
                } else {
                    error.clone()
                };
                JobStatus {
                    status: Status::Failed,
                    progress: self.progress,
                    result_path: self.result_path,
                    detected_green: self.detected_green,
                    error: Some(text),
                }
            },
        }
    }
}

/// `progress` raised to the estimate `p`, held at `MAX_OPEN_PROGRESS`;
/// `progress` itself where that would be no rise.
fn raised(progress: u8, p: u8) -> (r: u8)
    ensures
        r == (JobView {
            status: Status::Processing,
            progress,
            result_path: None,
            detected_green: None,
            error: None,
        }).with_progress(p).progress,
{
    let held = if p > MAX_OPEN_PROGRESS { MAX_OPEN_PROGRESS } else { p };
    if held <= progress {
        progress
    } else {
        held
    }
}

/// Whether every event of `events` is sound.
pub open spec fn all_sound(events: Seq<EventView>) -> bool {
    forall|i: int| 0 <= i < events.len() ==> (#[trigger] events[i]).sound()
}

/// A status is read back from the word it is written as.
pub proof fn lemma_status_word_round_trip(s: Status)
    ensures
        Status::named(s.name()) == Some(s),
{
    reveal_strlit("processing");
    reveal_strlit("complete");
    reveal_strlit("failed");
    assert("complete"@.len() == 8);
    assert("failed"@.len() == 6);
}

/// A job is complete exactly when its record names an artifact, and
/// exactly when its progress is 100.
pub proof fn lemma_complete_iff_result_iff_full(r: JobView)
    requires
        r.valid(),
    ensures
        r.status == Status::Complete <==> r.result_path is Some,
        r.result_path is Some <==> r.progress == FULL_PROGRESS,
        r.status == Status::Complete <==> r.progress == FULL_PROGRESS,
{
}

/// A job has failed exactly when its record holds an error.
pub proof fn lemma_failed_iff_error(r: JobView)
    requires
        r.valid(),
    ensures
        r.status == Status::Failed <==> r.error is Some,
{
}

/// The record of a job that has just been accepted is valid, and the job
/// is processed.
pub proof fn lemma_created_is_valid()
    ensures
        JobView::created().valid(),
        JobView::created().status == Status::Processing,
        0 < JobView::created().progress < FULL_PROGRESS,
{
}

/// An event leaves a valid record valid.
pub proof fn lemma_after_keeps_valid(r: JobView, event: EventView)
    requires
        r.valid(),
        event.sound(),
    ensures
        r.after(event).valid(),
{
    reveal_strlit("FFmpeg failed");
}

/// An event never lowers the progress.
pub proof fn lemma_after_never_lowers(r: JobView, event: EventView)
    requires
        r.valid(),
    ensures
        r.after(event).progress >= r.progress,
{
}

/// A record that has ended stays as it is, whatever event comes.
pub proof fn lemma_ended_record_stays(r: JobView, event: EventView)
    requires
        r.status.terminal(),
    ensures
        r.after(event) == r,
{
}

/// A record that has ended stays as it is, whatever events come.
pub proof fn lemma_ended_record_stays_for_good(r: JobView, events: Seq<EventView>)
    requires
        r.status.terminal(),
    ensures
        r.after_all(events) == r,
    decreases events.len(),
{
    if events.len() > 0 {
        lemma_ended_record_stays_for_good(r, events.drop_last());
        lemma_ended_record_stays(r, events.last());
    }
}

/// A run of events leaves a valid record valid.
pub proof fn lemma_after_all_keeps_valid(r: JobView, events: Seq<EventView>)
    requires
        r.valid(),
        all_sound(events),
    ensures
        r.after_all(events).valid(),
    decreases events.len(),
{
    if events.len() > 0 {
        lemma_after_all_keeps_valid(r, events.drop_last());
        lemma_after_keeps_valid(r.after_all(events.drop_last()), events.last());
    }
}

/// The progress seen after more of a run of events is never below the
/// progress seen after less of it: queries that follow one another never
/// see the progress fall.
pub proof fn lemma_progress_never_falls(r: JobView, events: Seq<EventView>, i: int, j: int)
    requires
        r.valid(),
        all_sound(events),
        0 <= i <= j <= events.len(),
    ensures
        r.after_all(events.take(i)).progress <= r.after_all(events.take(j)).progress,
    decreases j - i,
{
    if i < j {
        lemma_progress_never_falls(r, events, i, j - 1);
        let before = events.take(j - 1);
        assert(events.take(j).drop_last() =~= before);
        lemma_after_all_keeps_valid(r, before);
        lemma_after_never_lowers(r.after_all(before), events[j - 1]);
    }
}

/// While a job is processed its progress is below 100, whatever events
/// came; it shows 100 only once a completion came.
pub proof fn lemma_open_progress_below_full(r: JobView, events: Seq<EventView>)
    requires
        r.valid(),
        all_sound(events),
    ensures
        r.after_all(events).status == Status::Processing ==> r.after_all(events).progress
            <= MAX_OPEN_PROGRESS,
{
    lemma_after_all_keeps_valid(r, events);
}

/// Whatever happened to a job since it was accepted, its record is valid:
/// it names an artifact exactly when the job is complete, shows 100 exactly
/// then, and holds an error exactly when the job has failed.
pub proof fn lemma_record_of_any_run(events: Seq<EventView>)
    requires
        all_sound(events),
    ensures
        ({
            let r = JobView::created().after_all(events);
            &&& r.valid()
            &&& (r.status == Status::Complete <==> r.result_path is Some)
            &&& (r.result_path is Some <==> r.progress == FULL_PROGRESS)
            &&& (r.status == Status::Failed <==> r.error is Some)
            &&& r.progress >= CREATED_PROGRESS
        }),
{
    lemma_after_all_keeps_valid(JobView::created(), events);
    assert(events.take(events.len() as int) =~= events);
    lemma_progress_never_falls(JobView::created(), events, 0, events.len() as int);
}

/// Whether every event of `events` is an estimate of progress, such as the
/// monitor writes.
pub open spec fn all_estimates(events: Seq<EventView>) -> bool {
    forall|i: int| 0 <= i < events.len() ==> (#[trigger] events[i]) is Progress
}

/// Estimates never end a job: a processed record stays processed under
/// them.
pub proof fn lemma_estimates_end_nothing(r: JobView, estimates: Seq<EventView>)
    requires
        r.status == Status::Processing,
        all_estimates(estimates),
    ensures
        r.after_all(estimates).status == Status::Processing,
        r.after_all(estimates).result_path == r.result_path,
        r.after_all(estimates).detected_green == r.detected_green,
        r.after_all(estimates).error == r.error,
    decreases estimates.len(),
{
    if estimates.len() > 0 {
        lemma_estimates_end_nothing(r, estimates.drop_last());
    }
}

/// The orchestrator's last write wins: an ending written into a processed
/// record ends the job, whatever estimates the monitor wrote before it, and
/// nothing that is written after it changes the record again.
pub proof fn lemma_ending_wins(
    r: JobView,
    estimates: Seq<EventView>,
    ending: EventView,
    late: Seq<EventView>,
)
    requires
        r.status == Status::Processing,
        all_estimates(estimates),
        ending is Completed || ending is Failed,
    ensures
        ({
            let ended = r.after_all(estimates).after(ending);
            &&& ended.status == (if ending is Completed {
                Status::Complete
            } else {
                Status::Failed
            })
            &&& ending matches EventView::Completed { result_path, detected_green }
                ==> ended.progress == FULL_PROGRESS && ended.result_path == Some(result_path)
                && ended.detected_green == detected_green
            &&& ending is Failed ==> ended.error is Some && ended.progress == r.after_all(
                estimates,
            ).progress
            &&& ended.after_all(late) == ended
        }),
{
    lemma_estimates_end_nothing(r, estimates);
    lemma_ended_record_stays_for_good(r.after_all(estimates).after(ending), late);
}

/// The record after a run of events and one more is the record after the
/// run, after the one more.
pub proof fn lemma_after_all_push(r: JobView, events: Seq<EventView>, event: EventView)
    ensures
        r.after_all(events.push(event)) == r.after_all(events).after(event),
{
    assert(events.push(event).drop_last() =~= events);
}

/// The record after two runs of events, one after the other.
pub proof fn lemma_after_all_concat(r: JobView, first: Seq<EventView>, second: Seq<EventView>)
    ensures
        r.after_all(first + second) == r.after_all(first).after_all(second),
    decreases second.len(),
{
    if second.len() == 0 {
        assert(first + second =~= first);
    } else {
        lemma_after_all_concat(r, first, second.drop_last());
        assert((first + second).drop_last() =~= first + second.drop_last());
    }
}

} // verus!
