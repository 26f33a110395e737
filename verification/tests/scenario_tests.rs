use std::collections::{HashMap, HashSet};
use webm_jobs::color::{begin_sampling, finish_sampling, SamplerStep};
use webm_jobs::duration::parse_seconds;
use webm_jobs::job::{JobEvent, JobStatus, Status};
use webm_jobs::options::{options_from_fields, ConversionOptions};
use webm_jobs::orchestrator::{accept_upload, Action, EncodeOutcome, Orchestrator, Signal};
use webm_jobs::paths::{files_to_remove_after_download, Locations};
use webm_jobs::progress::{SizeMonitor, POLL_INTERVAL_MS};
use webm_jobs::service::{
    check_status, download_result, store_update, update_job_progress, DownloadReply, StatusReply,
};

/// A stand-in for the service's surroundings: the store of records, the
/// files on disk, and tools that behave as each test tells them to.
struct World {
    locations: Locations,
    records: HashMap<String, JobStatus>,
    files: HashSet<String>,
    seen: Vec<u8>,
}

struct Tools {
    probe_output: &'static str,
    duration_output: &'static str,
    pixels: Option<Vec<u8>>,
    encode: EncodeOutcome,
    encode_takes_ms: u64,
}

impl World {
    fn new() -> World {
        World {
            locations: Locations::standard(),
            records: HashMap::new(),
            files: HashSet::new(),
            seen: Vec::new(),
        }
    }

    fn load(&self, id: &str) -> Option<JobStatus> {
        self.records.get(id).cloned()
    }

    fn write(&mut self, id: &str, event: &JobEvent) {
        if let Some(next) = store_update(self.load(id), event) {
            self.seen.push(next.progress());
            self.records.insert(id.to_string(), next);
        }
    }

    fn submit(
        &mut self,
        supplied: Option<&str>,
        fields: &[(&str, &str)],
    ) -> (String, Orchestrator, ConversionOptions) {
        let fields: Vec<(String, String)> =
            fields.iter().map(|(n, v)| (n.to_string(), v.to_string())).collect();
        let options = options_from_fields(&fields);
        let accepted = accept_upload(&self.locations, supplied.map(|s| s.to_string()), &options);
        self.files.insert(accepted.input_path.clone());
        self.seen.push(accepted.record.progress());
        self.records.insert(accepted.job_id.clone(), accepted.record);
        (accepted.job_id, accepted.orchestrator, options)
    }

    fn process(&mut self, id: &str, orchestrator: Orchestrator, tools: &Tools) {
        let mut orchestrator = orchestrator;
        let mut signal = Signal::Start;
        loop {
            let step = orchestrator.advance(signal);
            for event in &step.events {
                self.write(id, event);
            }
            orchestrator = step.orchestrator;
            signal = match step.action {
                Some(Action::SampleColor) => Signal::ColorSampled(self.sample(tools)),
                Some(Action::Encode) => Signal::EncodeEnded(self.encode(id, tools)),
                Some(Action::RemoveInput) => {
                    self.files.remove(&self.locations.input_path(id));
                    break;
                }
                None => break,
            };
        }
        assert!(orchestrator.is_done());
    }

    fn sample(&self, tools: &Tools) -> Option<String> {
        match begin_sampling(tools.probe_output) {
            SamplerStep::Finished(color) => Some(color),
            SamplerStep::Sample(plan) => {
                assert_eq!(plan.patches.len(), 4);
                assert_eq!(plan.offsets_ms.len(), 3);
                tools.pixels.as_ref().map(|p| finish_sampling(p))
            }
        }
    }

    fn encode(&mut self, id: &str, tools: &Tools) -> EncodeOutcome {
        let mut monitor = SizeMonitor::new(parse_seconds(tools.duration_output));
        let mut elapsed = 0;
        let mut size = 0;
        while elapsed + POLL_INTERVAL_MS <= tools.encode_takes_ms {
            elapsed += POLL_INTERVAL_MS;
            size += 100_000;
            let reading = monitor.observe(Some(size), elapsed);
            if let Some(p) = reading.report {
                if let Some(next) = update_job_progress(self.load(id), p) {
                    self.seen.push(next.progress());
                    self.records.insert(id.to_string(), next);
                }
            }
            monitor = reading.monitor;
            if !reading.keep_watching {
                break;
            }
        }
        if tools.encode == EncodeOutcome::Succeeded {
            self.files.insert(self.locations.result_path(id).as_str().to_string());
        }
        tools.encode.clone()
    }

    fn status(&self, id: &str) -> StatusReply {
        check_status(self.load(id).as_ref())
    }

    fn download(&mut self, id: &str) -> DownloadReply {
        let reply = download_result(self.load(id).as_ref());
        if let DownloadReply::Ready { path, .. } = &reply {
            assert!(self.files.contains(path));
            for file in files_to_remove_after_download(&self.locations, id, path) {
                self.files.remove(&file);
                if file == self.locations.record_path(id) {
                    self.records.remove(id);
                }
            }
        }
        reply
    }
}

fn green_clip() -> Tools {
    let mut pixels = Vec::new();
    for _ in 0..(4 * 3 * 20 * 20) {
        pixels.extend_from_slice(&[0, 177, 64]);
    }
    Tools {
        probe_output: "1920,1080,10.000000\n",
        duration_output: "10.000000\n",
        pixels: Some(pixels),
        encode: EncodeOutcome::Succeeded,
        encode_takes_ms: 6_500,
    }
}

fn corrupt_blob() -> Tools {
    Tools {
        probe_output: "",
        duration_output: "",
        pixels: None,
        encode: EncodeOutcome::ExitedWithError {
            stderr: "input: Invalid data found when processing input".to_string(),
        },
        encode_takes_ms: 0,
    }
}

#[test]
fn a_clip_with_background_detection_completes_with_its_colour() {
    let mut world = World::new();
    let (id, orchestrator, options) = world.submit(None, &[("detect_green", "true")]);
    assert!(options.detect_green());
    world.process(&id, orchestrator, &green_clip());

    let job = world.load(&id).unwrap();
    assert_eq!(job.status(), Status::Complete);
    assert_eq!(job.progress(), 100);
    assert_eq!(job.detected_green(), Some("0x00B140".to_string()));
    assert_eq!(job.result_path(), Some(format!("/tmp/results/{}.webm", id)));
    assert_eq!(job.error(), None);

    assert_eq!(world.seen, vec![5, 10, 20, 30, 47, 65, 82, 100]);
    let at = |p: u8| world.seen.iter().position(|&s| s >= p).unwrap();
    assert!(at(20) < at(30));
    assert!(at(30) < at(100));
    assert!(world.seen.windows(2).all(|w| w[0] <= w[1]));
    assert!(!world.files.contains(&format!("/tmp/inputs/input_{}.tmp", id)));
}

#[test]
fn a_clip_without_background_detection_completes_without_a_colour() {
    let mut world = World::new();
    let (id, orchestrator, _) = world.submit(Some("plain"), &[("crf", "40")]);
    world.process(&id, orchestrator, &green_clip());
    let job = world.load("plain").unwrap();
    assert_eq!(job.status(), Status::Complete);
    assert_eq!(job.detected_green(), None);
    assert_eq!(world.seen, vec![5, 10, 30, 47, 65, 82, 100]);
}

#[test]
fn a_job_queried_right_after_submission_is_processing() {
    let mut world = World::new();
    let (id, _, _) = world.submit(None, &[]);
    match world.status(&id) {
        StatusReply::Found(response) => {
            assert_eq!(response.status, Status::Processing);
            assert!(0 < response.progress && response.progress < 100);
            assert_eq!(response.progress, 5);
            assert_eq!(response.detected_green, None);
            assert_eq!(response.error, None);
        }
        StatusReply::NotFound => panic!("the job was just submitted"),
    }
    assert_eq!(
        world.download(&id),
        DownloadReply::NotReady { status: Status::Processing, progress: 5 }
    );
}

#[test]
fn a_corrupt_blob_fails_with_an_error_and_its_input_is_removed() {
    let mut world = World::new();
    let (id, orchestrator, _) = world.submit(None, &[("detect_green", "true")]);
    let input = format!("/tmp/inputs/input_{}.tmp", id);
    assert!(world.files.contains(&input));
    world.process(&id, orchestrator, &corrupt_blob());

    match world.status(&id) {
        StatusReply::Found(response) => {
            assert_eq!(response.status, Status::Failed);
            assert_eq!(
                response.error,
                Some("FFmpeg failed: input: Invalid data found when processing input".to_string())
            );
            assert!(!response.error.unwrap().is_empty());
            assert_eq!(response.progress, 30);
            assert_eq!(response.detected_green, Some("0x00FF00".to_string()));
        }
        StatusReply::NotFound => panic!("a failed job is still known"),
    }
    assert!(!world.files.contains(&input));
    assert_eq!(
        world.download(&id),
        DownloadReply::NotReady { status: Status::Failed, progress: 30 }
    );
}

#[test]
fn a_sampler_that_cannot_run_leaves_the_job_without_a_colour() {
    let mut world = World::new();
    let (id, orchestrator, _) = world.submit(None, &[("detect_green", "true")]);
    let mut tools = green_clip();
    tools.pixels = None;
    world.process(&id, orchestrator, &tools);
    let job = world.load(&id).unwrap();
    assert_eq!(job.status(), Status::Complete);
    assert_eq!(job.detected_green(), None);
}

#[test]
fn an_unknown_job_is_not_found() {
    let mut world = World::new();
    world.submit(Some("known"), &[]);
    assert_eq!(world.status("unknown"), StatusReply::NotFound);
    assert_eq!(world.download("unknown"), DownloadReply::NotFound);
}

#[test]
fn an_artifact_is_handed_out_once() {
    let mut world = World::new();
    let (id, orchestrator, _) = world.submit(Some("once"), &[("detect_green", "true")]);
    world.process(&id, orchestrator, &green_clip());
    assert_eq!(
        world.download("once"),
        DownloadReply::Ready {
            path: "/tmp/results/once.webm".to_string(),
            detected_green: Some("0x00B140".to_string()),
        }
    );
    assert_eq!(world.download("once"), DownloadReply::NotFound);
    assert_eq!(world.status("once"), StatusReply::NotFound);
    assert!(world.files.is_empty());
}

#[test]
fn handing_out_one_artifact_leaves_other_jobs_alone() {
    let mut world = World::new();
    let (a, orchestrator_a, _) = world.submit(Some("a"), &[]);
    let (b, orchestrator_b, _) = world.submit(Some("b"), &[]);
    world.process(&a, orchestrator_a, &green_clip());
    world.process(&b, orchestrator_b, &green_clip());
    assert!(matches!(world.download("a"), DownloadReply::Ready { .. }));
    assert!(matches!(world.status("b"), StatusReply::Found(_)));
    assert!(matches!(world.download("b"), DownloadReply::Ready { .. }));
}

#[test]
fn a_late_monitor_write_does_not_touch_an_ended_job() {
    let mut world = World::new();
    let (id, orchestrator, _) = world.submit(None, &[]);
    world.process(&id, orchestrator, &green_clip());
    let before = world.load(&id).unwrap();
    assert_eq!(update_job_progress(world.load(&id), 64), None);
    world.write(&id, &JobEvent::Progress(64));
    assert_eq!(world.load(&id).unwrap(), before);
}

#[test]
fn a_long_encode_is_watched_for_two_minutes_and_never_shows_100_early() {
    let mut world = World::new();
    let (id, orchestrator, _) = world.submit(None, &[]);
    let mut tools = green_clip();
    tools.duration_output = "3600.0";
    tools.encode_takes_ms = 600_000;
    world.process(&id, orchestrator, &tools);
    let before_end = &world.seen[..world.seen.len() - 1];
    assert!(before_end.iter().all(|&p| p < 100));
    assert!(world.seen.windows(2).all(|w| w[0] <= w[1]));
    assert_eq!(*world.seen.last().unwrap(), 100);
}
