use webm_jobs::paths::{files_to_remove_after_download, get_job_path, ArtifactPath, Locations};

fn custom() -> Locations {
    Locations {
        records: "/var/lib/conv/jobs".to_string(),
        inputs: "/var/lib/conv/in".to_string(),
        results: "/var/lib/conv/out".to_string(),
    }
}

#[test]
fn get_job_path_is_below_tmp_jobs() {
    assert_eq!(get_job_path("abc"), "/tmp/jobs/abc.json");
    assert_eq!(get_job_path(""), "/tmp/jobs/.json");
    assert_eq!(
        get_job_path("67e55044-10b1-426f-9247-bb680e5fe0c8"),
        "/tmp/jobs/67e55044-10b1-426f-9247-bb680e5fe0c8.json"
    );
}

#[test]
fn standard_locations() {
    let l = Locations::standard();
    assert_eq!(l.records, "/tmp/jobs");
    assert_eq!(l.inputs, "/tmp/inputs");
    assert_eq!(l.results, "/tmp/results");
}

#[test]
fn standard_paths() {
    let l = Locations::standard();
    assert_eq!(l.record_path("j1"), "/tmp/jobs/j1.json");
    assert_eq!(l.input_path("j1"), "/tmp/inputs/input_j1.tmp");
    assert_eq!(l.result_path("j1").as_str(), "/tmp/results/j1.webm");
    assert_eq!(l.record_path("j1"), get_job_path("j1"));
}

#[test]
fn configured_paths() {
    let l = custom();
    assert_eq!(l.record_path("j1"), "/var/lib/conv/jobs/j1.json");
    assert_eq!(l.input_path("j1"), "/var/lib/conv/in/input_j1.tmp");
    assert_eq!(l.result_path("j1").as_str(), "/var/lib/conv/out/j1.webm");
}

#[test]
fn paths_of_different_jobs_differ() {
    let l = Locations::standard();
    assert_ne!(l.record_path("a"), l.record_path("b"));
    assert_ne!(l.input_path("a"), l.input_path("b"));
    assert_ne!(l.result_path("a"), l.result_path("b"));
}

#[test]
fn an_artifact_path_is_never_empty() {
    assert_eq!(ArtifactPath::new(String::new()), None);
    let p = ArtifactPath::new("/r/a.webm".to_string()).unwrap();
    assert_eq!(p.as_str(), "/r/a.webm");
    assert_eq!(p.clone(), p);
    let l = Locations { records: String::new(), inputs: String::new(), results: String::new() };
    assert_eq!(l.result_path("").as_str(), "/.webm");
}

#[test]
fn after_a_download_the_artifact_and_the_record_go() {
    let l = Locations::standard();
    assert_eq!(
        files_to_remove_after_download(&l, "j1", "/tmp/results/j1.webm"),
        vec!["/tmp/results/j1.webm".to_string(), "/tmp/jobs/j1.json".to_string()]
    );
    assert_eq!(
        files_to_remove_after_download(&custom(), "j2", "/elsewhere/j2.webm"),
        vec!["/elsewhere/j2.webm".to_string(), "/var/lib/conv/jobs/j2.json".to_string()]
    );
}
