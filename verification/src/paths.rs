//! Where a job's files live: its record, its input while it is processed,
//! and its finished artifact.

use vstd::prelude::*;
use vstd::string::StringExecFns;

verus! {

/// The directories that hold the records, the inputs and the results. They
/// are made when the service starts and stay for as long as it runs.
#[derive(Clone, Debug, PartialEq, Eq)]
pub struct Locations {
    pub records: String,
    pub inputs: String,
    pub results: String,
}

/// The path of a finished artifact. It is never empty.
#[derive(Debug, PartialEq, Eq)]
pub struct ArtifactPath {
    text: String,
}

impl View for ArtifactPath {
    type V = Seq<char>;

    closed spec fn view(&self) -> Seq<char> {
        self.text@
    }
}

impl ArtifactPath {
    /// What holds of every artifact path.
    #[verifier::type_invariant]
    pub open spec fn not_empty(&self) -> bool {
        self@.len() > 0
    }

    /// `text` as the path of an artifact; none where `text` is empty.
    pub fn new(text: String) -> (r: Option<ArtifactPath>)
        ensures
            r is Some <==> text@.len() > 0,
            r matches Some(p) ==> p@ == text@,
    {
        if text.as_str().is_empty() {
            None
        } else {
            Some(ArtifactPath { text })
        }
    }

    /// The path as text.
    pub fn as_str(&self) -> (s: &str)
        ensures
            s@ == self@,
            s@.len() > 0,
    {
        proof {
            use_type_invariant(self);
        }
        self.text.as_str()
    }
}

impl Clone for ArtifactPath {
    fn clone(&self) -> (p: ArtifactPath)
        ensures
            p@ == self@,
    {
        proof {
            use_type_invariant(self);
        }
        ArtifactPath { text: self.text.clone() }
    }
}

/// The path of the record of job `id` below `dir`.
pub open spec fn record_path_of(dir: Seq<char>, id: Seq<char>) -> Seq<char> {
    dir + "/"@ + id + ".json"@
}

/// The path of the input of job `id` below `dir`.
pub open spec fn input_path_of(dir: Seq<char>, id: Seq<char>) -> Seq<char> {
    dir + "/input_"@ + id + ".tmp"@
}

/// The path of the artifact of job `id` below `dir`.
pub open spec fn result_path_of(dir: Seq<char>, id: Seq<char>) -> Seq<char> {
    dir + "/"@ + id + ".webm"@
}

impl Locations {
    /// The directories the service uses where none are configured:
    /// `/tmp/jobs`, `/tmp/inputs` and `/tmp/results`.
    pub fn standard() -> (l: Locations)
        ensures
            l.records@ == "/tmp/jobs"@,
            l.inputs@ == "/tmp/inputs"@,
            l.results@ == "/tmp/results"@,
    {
        Locations {
            records: "/tmp/jobs".to_owned(),
            inputs: "/tmp/inputs".to_owned(),
            results: "/tmp/results".to_owned(),
        }
    }

    /// The path of the record of job `id`.
    pub fn record_path(&self, id: &str) -> (path: String)
        ensures
            path@ == record_path_of(self.records@, id@),
    {
        self.records.clone().concat("/").concat(id).concat(".json")
    }

    /// The path of the input of job `id` while the job is processed.
    pub fn input_path(&self, id: &str) -> (path: String)
        ensures
            path@ == input_path_of(self.inputs@, id@),
    {
        self.inputs.clone().concat("/input_").concat(id).concat(".tmp")
    }

    /// The path of the finished artifact of job `id`.
    pub fn result_path(&self, id: &str) -> (path: ArtifactPath)
        ensures
            path@ == result_path_of(self.results@, id@),
            path@.len() > 0,
    {
        proof {
            reveal_strlit(".webm");
        }
        let text = self.results.clone().concat("/").concat(id).concat(".webm");
        ArtifactPath { text }
    }
}

/// The path of the record of job `job_id` in the standard directory.
pub fn get_job_path(job_id: &str) -> (path: String)
    ensures
        path@ == "/tmp/jobs/"@ + job_id@ + ".json"@,
        path@ == record_path_of("/tmp/jobs"@, job_id@),
{
    proof {
        reveal_strlit("/tmp/jobs/");
        reveal_strlit("/tmp/jobs");
        reveal_strlit("/");
    }
    Locations::standard().record_path(job_id)
}

/// The files to remove once the artifact of job `id` has been handed out:
/// the artifact and the job's record. After that the job is unknown.
pub fn files_to_remove_after_download(locations: &Locations, id: &str, artifact: &str) -> (files:
    Vec<String>)
    ensures
        files.deep_view() == seq![artifact@, record_path_of(locations.records@, id@)],
{
    let mut files: Vec<String> = Vec::new();
    files.push(artifact.to_owned());
    files.push(locations.record_path(id));
    files
}

} // verus!
