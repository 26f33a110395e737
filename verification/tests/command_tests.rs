use webm_jobs::color::Patch;
use webm_jobs::command::{
    crop_filter_string, duration_probe, encode, extraction, frame_probe, seconds_string,
    Invocation,
};
use webm_jobs::options::ConversionOptions;

fn strings(words: &[&str]) -> Vec<String> {
    words.iter().map(|w| w.to_string()).collect()
}

#[test]
fn seconds_string_writes_three_decimals() {
    assert_eq!(seconds_string(0), "0.000");
    assert_eq!(seconds_string(5), "0.005");
    assert_eq!(seconds_string(40), "0.040");
    assert_eq!(seconds_string(500), "0.500");
    assert_eq!(seconds_string(5_000), "5.000");
    assert_eq!(seconds_string(7_500), "7.500");
    assert_eq!(seconds_string(12_345), "12.345");
    assert_eq!(seconds_string(u64::MAX), "18446744073709551.615");
}

#[test]
fn seconds_string_agrees_with_std_formatting() {
    for ms in (0u64..5_000).step_by(7) {
        assert_eq!(seconds_string(ms), format!("{}.{:03}", ms / 1000, ms % 1000));
    }
}

#[test]
fn crop_filter_names_size_then_corner() {
    assert_eq!(
        crop_filter_string(&Patch { x: 1890, y: 10, width: 20, height: 20 }),
        "crop=20:20:1890:10"
    );
    assert_eq!(crop_filter_string(&Patch { x: 0, y: 0, width: 5, height: 3 }), "crop=5:3:0:0");
    assert_eq!(
        crop_filter_string(&Patch { x: u32::MAX, y: 1, width: 2, height: 3 }),
        "crop=2:3:4294967295:1"
    );
}

#[test]
fn frame_probe_asks_for_width_height_and_duration() {
    assert_eq!(
        frame_probe("/tmp/inputs/input_j1.tmp"),
        Invocation {
            program: "ffprobe".to_string(),
            args: strings(&[
                "-v",
                "error",
                "-select_streams",
                "v:0",
                "-show_entries",
                "stream=width,height,duration",
                "-of",
                "csv=p=0",
                "/tmp/inputs/input_j1.tmp",
            ]),
        }
    );
}

#[test]
fn duration_probe_asks_for_the_length_of_the_file() {
    assert_eq!(
        duration_probe("in.mov"),
        Invocation {
            program: "ffprobe".to_string(),
            args: strings(&[
                "-v",
                "error",
                "-show_entries",
                "format=duration",
                "-of",
                "default=noprint_wrappers=1:nokey=1",
                "in.mov",
            ]),
        }
    );
}

#[test]
fn extraction_cuts_one_patch_at_one_moment() {
    assert_eq!(
        extraction("in.mov", &Patch { x: 10, y: 1050, width: 20, height: 20 }, 7_500),
        Invocation {
            program: "ffmpeg".to_string(),
            args: strings(&[
                "-ss",
                "7.500",
                "-i",
                "in.mov",
                "-vf",
                "crop=20:20:10:1050",
                "-frames:v",
                "1",
                "-f",
                "rawvideo",
                "-pix_fmt",
                "rgb24",
                "-",
            ]),
        }
    );
}

#[test]
fn encode_hands_the_options_to_the_encoder() {
    let options = ConversionOptions::new(42, "96k".to_string(), false);
    assert_eq!(
        encode("in.tmp", "out.webm", &options),
        Invocation {
            program: "ffmpeg".to_string(),
            args: strings(&[
                "-i",
                "in.tmp",
                "-c:v",
                "libvpx-vp9",
                "-pix_fmt",
                "yuv420p",
                "-crf",
                "42",
                "-b:v",
                "1M",
                "-cpu-used",
                "5",
                "-deadline",
                "realtime",
                "-row-mt",
                "1",
                "-tile-columns",
                "2",
                "-threads",
                "4",
                "-lag-in-frames",
                "0",
                "-c:a",
                "libopus",
                "-b:a",
                "96k",
                "-f",
                "webm",
                "-y",
                "out.webm",
            ]),
        }
    );
}

#[test]
fn encode_never_hands_over_a_quality_out_of_range() {
    for asked in ["0", "63", "64", "255", "256", "100000", "-7"] {
        let options = ConversionOptions::default().with_field("crf", asked);
        let invocation = encode("in", "out", &options);
        let at = invocation.args.iter().position(|a| a == "-crf").unwrap();
        let handed: u32 = invocation.args[at + 1].parse().unwrap();
        assert!(handed <= 63, "asked {:?}, handed {}", asked, handed);
    }
}

#[test]
fn encode_with_default_options() {
    let invocation = encode("a", "b", &ConversionOptions::default());
    assert_eq!(invocation.args[7], "30");
    assert_eq!(invocation.args[25], "128k");
    assert_eq!(invocation.args.len(), 30);
}
