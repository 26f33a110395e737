//! What is decided around the store of job records: which record to write
//! back after a change, and what to answer to a query for a job's status or
//! for its artifact. Loading and saving are the caller's; these functions
//! take what was loaded (`None` where the store holds no readable record)
//! and say what follows.

use crate::job::{text_of, JobEvent, JobStatus, JobView, Status};
use vstd::prelude::*;

verus! {

/// What a status query reports of a job.
#[derive(Clone, Debug, PartialEq, Eq)]
pub struct StatusResponse {
    pub status: Status,
    pub progress: u8,
    pub detected_green: Option<String>,
    pub error: Option<String>,
}

/// The answer to a status query.
#[derive(Clone, Debug, PartialEq, Eq)]
pub enum StatusReply {
    /// The store holds no such job.
    NotFound,
    /// The job as it stands.
    Found(StatusResponse),
}

/// The answer to a request for a job's artifact.
#[derive(Clone, Debug, PartialEq, Eq)]
pub enum DownloadReply {
    /// The store holds no such job.
    NotFound,
    /// The job is not complete: it is still processed, or it has failed.
    NotReady { status: Status, progress: u8 },
    /// The job is complete and its artifact is at `path`.
    Ready { path: String, detected_green: Option<String> },
}

/// Whether `reply` is the answer to a status query that loaded `loaded`.
pub open spec fn answers_status(reply: StatusReply, loaded: Option<JobView>) -> bool {
    match loaded {
        None => reply is NotFound,
        Some(job) => reply matches StatusReply::Found(response) && response.status == job.status
            && response.progress == job.progress && text_of(response.detected_green)
            == job.detected_green && text_of(response.error) == job.error,
    }
}

/// Whether `reply` is the answer to a request for the artifact that loaded
/// `loaded`.
pub open spec fn answers_download(reply: DownloadReply, loaded: Option<JobView>) -> bool {
    match loaded {
        None => reply is NotFound,
        Some(job) => if job.status == Status::Complete {
            reply matches DownloadReply::Ready { path, detected_green } && Some(path@)
                == job.result_path && text_of(detected_green) == job.detected_green
        } else {
            reply matches DownloadReply::NotReady { status, progress } && status == job.status
                && progress == job.progress
        },
    }
}

/// What a borrowed record holds, where there is one.
pub open spec fn view_of_ref(loaded: Option<&JobStatus>) -> Option<JobView> {
    match loaded {
        Some(job) => Some(job@),
        None => None,
    }
}

/// The record to save after `event`, for a job whose record was just
/// loaded as `loaded`. There is nothing to save where the store holds no
/// record of the job, or the job has ended: an ended record is not written
/// again.
pub fn store_update(loaded: Option<JobStatus>, event: &JobEvent) -> (r: Option<JobStatus>)
    ensures
        match loaded {
            Some(job) => if job@.status.terminal() {
                r is None
            } else {
                r matches Some(next) && next@ == job@.after(event@) && next@.valid()
            },
            None => r is None,
        },
{
    match loaded {
        Some(job) => {
            if job.status().is_terminal() {
                None
            } else {
                Some(job.apply(event))
            }
        },
        None => None,
    }
}

/// The record to save after an estimate of progress came in. The estimate
/// is held below 100 and never lowers what the record shows.
pub fn update_job_progress(loaded: Option<JobStatus>, progress: u8) -> (r: Option<JobStatus>)
    ensures
        match loaded {
            Some(job) => if job@.status.terminal() {
                r is None
            } else {
                r matches Some(next) && next@ == job@.with_progress(progress) && next@.valid()
            },
            None => r is None,
        },
{
    store_update(loaded, &JobEvent::Progress(progress))
}

/// Answers a status query. A job the store does not hold is not found;
/// that is an answer, not a fault.
pub fn check_status(loaded: Option<&JobStatus>) -> (reply: StatusReply)
    ensures
        answers_status(reply, view_of_ref(loaded)),
{
    match loaded {
        Some(job) => StatusReply::Found(
            StatusResponse {
                status: job.status(),
                progress: job.progress(),
                detected_green: job.detected_green(),
                error: job.error(),
            },
        ),
        None => StatusReply::NotFound,
    }
}

/// Answers a request for a job's artifact: the artifact's path where the
/// job is complete, else how the job stands.
pub fn download_result(loaded: Option<&JobStatus>) -> (reply: DownloadReply)
    ensures
        answers_download(reply, view_of_ref(loaded)),
{
    match loaded {
        Some(job) => {
            match job.result_path() {
                Some(path) => DownloadReply::Ready { path, detected_green: job.detected_green() },
                None => DownloadReply::NotReady { status: job.status(), progress: job.progress() },
            }
        },
        None => DownloadReply::NotFound,
    }
}

} // verus!
