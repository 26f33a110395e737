//! The requests made to the outside tools: what to run and with which
//! arguments. Running them is the caller's.

use crate::color::Patch;
use crate::numeral::{
    all_digits, decimal_digits, decimal_string, decimal_value, digit_char, hex_digit_str,
    lemma_decimal_round_trip,
};
use crate::options::{ConversionOptions, MAX_CRF};
use vstd::prelude::*;
use vstd::string::StringExecFns;

verus! {

/// One run of an outside tool.
#[derive(Clone, Debug, PartialEq, Eq)]
pub struct Invocation {
    pub program: String,
    pub args: Vec<String>,
}

/// What an `Invocation` holds.
pub struct InvocationView {
    pub program: Seq<char>,
    pub args: Seq<Seq<char>>,
}

impl View for Invocation {
    type V = InvocationView;

    open spec fn view(&self) -> InvocationView {
        InvocationView { program: self.program@, args: self.args.deep_view() }
    }
}

/// A time in milliseconds written in seconds with three decimals.
pub open spec fn seconds_text(ms: u64) -> Seq<char> {
    let rest = (ms % 1000) as nat;
    decimal_digits(ms as nat / 1000) + seq![
        '.',
        digit_char(rest / 100),
        digit_char(rest / 10 % 10),
        digit_char(rest % 10),
    ]
}

/// The filter that cuts `p` out of a frame: `crop=` and then width,
/// height, left and top, with colons between.
pub open spec fn crop_filter(p: Patch) -> Seq<char> {
    "crop="@ + decimal_digits(p.width as nat) + ":"@ + decimal_digits(p.height as nat) + ":"@
        + decimal_digits(p.x as nat) + ":"@ + decimal_digits(p.y as nat)
}

/// The probe for the frame's size and the length of the first video
/// stream, printed on one line as `width,height,duration`.
pub open spec fn frame_probe_of(input: Seq<char>) -> InvocationView {
    InvocationView {
        program: "ffprobe"@,
        args: seq![
            "-v"@,
            "error"@,
            "-select_streams"@,
            "v:0"@,
            "-show_entries"@,
            "stream=width,height,duration"@,
            "-of"@,
            "csv=p=0"@,
            input,
        ],
    }
}

/// The probe for the length of the whole file, printed in seconds.
pub open spec fn duration_probe_of(input: Seq<char>) -> InvocationView {
    InvocationView {
        program: "ffprobe"@,
        args: seq![
            "-v"@,
            "error"@,
            "-show_entries"@,
            "format=duration"@,
            "-of"@,
            "default=noprint_wrappers=1:nokey=1"@,
            input,
        ],
    }
}

/// The extraction of one patch at one moment, as raw pixels of three bytes
/// (red, green, blue) on the standard output.
pub open spec fn extraction_of(input: Seq<char>, patch: Patch, offset_ms: u64) -> InvocationView {
    InvocationView {
        program: "ffmpeg"@,
        args: seq![
            "-ss"@,
            seconds_text(offset_ms),
            "-i"@,
            input,
            "-vf"@,
            crop_filter(patch),
            "-frames:v"@,
            "1"@,
            "-f"@,
            "rawvideo"@,
            "-pix_fmt"@,
            "rgb24"@,
            "-"@,
        ],
    }
}

/// The encode of `input` to WebM at `output`, with the quality `crf` and
/// the audio bitrate `audio_bitrate`.
pub open spec fn encode_of(
    input: Seq<char>,
    output: Seq<char>,
    crf: u8,
    audio_bitrate: Seq<char>,
) -> InvocationView {
    InvocationView {
        program: "ffmpeg"@,
        args: seq![
            "-i"@,
            input,
            "-c:v"@,
            "libvpx-vp9"@,
            "-pix_fmt"@,
            "yuv420p"@,
            "-crf"@,
            decimal_digits(crf as nat),
            "-b:v"@,
            "1M"@,
            "-cpu-used"@,
            "5"@,
            "-deadline"@,
            "realtime"@,
            "-row-mt"@,
            "1"@,
            "-tile-columns"@,
            "2"@,
            "-threads"@,
            "4"@,
            "-lag-in-frames"@,
            "0"@,
            "-c:a"@,
            "libopus"@,
            "-b:a"@,
            audio_bitrate,
            "-f"@,
            "webm"@,
            "-y"@,
            output,
        ],
    }
}

/// Writes a time in milliseconds in seconds with three decimals.
pub fn seconds_string(ms: u64) -> (s: String)
    ensures
        s@ == seconds_text(ms),
{
    proof {
        reveal_strlit(".");
    }
    let rest: u64 = ms % 1000;
    let s = decimal_string(ms / 1000).concat(".").concat(
        hex_digit_str((rest / 100) as u8),
    ).concat(hex_digit_str((rest / 10 % 10) as u8)).concat(hex_digit_str((rest % 10) as u8));
    s
}

/// Writes the filter that cuts `p` out of a frame.
pub fn crop_filter_string(p: &Patch) -> (s: String)
    ensures
        s@ == crop_filter(*p),
{
    let width = decimal_string(p.width as u64);
    let height = decimal_string(p.height as u64);
    let x = decimal_string(p.x as u64);
    let y = decimal_string(p.y as u64);
    "crop=".to_owned().concat(width.as_str()).concat(":").concat(height.as_str()).concat(
        ":",
    ).concat(x.as_str()).concat(":").concat(y.as_str())
}

/// The probe for the frame's size and the video's length.
pub fn frame_probe(input: &str) -> (r: Invocation)
    ensures
        r@ == frame_probe_of(input@),
{
    let mut args: Vec<String> = Vec::new();
    args.push("-v".to_owned());
    args.push("error".to_owned());
    args.push("-select_streams".to_owned());
    args.push("v:0".to_owned());
    args.push("-show_entries".to_owned());
    args.push("stream=width,height,duration".to_owned());
    args.push("-of".to_owned());
    args.push("csv=p=0".to_owned());
    args.push(input.to_owned());
    assert(args.deep_view() =~= frame_probe_of(input@).args);
    Invocation { program: "ffprobe".to_owned(), args }
}

/// The probe for the length of the whole file.
pub fn duration_probe(input: &str) -> (r: Invocation)
    ensures
        r@ == duration_probe_of(input@),
{
    let mut args: Vec<String> = Vec::new();
    args.push("-v".to_owned());
    args.push("error".to_owned());
    args.push("-show_entries".to_owned());
    args.push("format=duration".to_owned());
    args.push("-of".to_owned());
    args.push("default=noprint_wrappers=1:nokey=1".to_owned());
    args.push(input.to_owned());
    assert(args.deep_view() =~= duration_probe_of(input@).args);
    Invocation { program: "ffprobe".to_owned(), args }
}

/// The extraction of one patch at one moment.
pub fn extraction(input: &str, patch: &Patch, offset_ms: u64) -> (r: Invocation)
    ensures
        r@ == extraction_of(input@, *patch, offset_ms),
{
    let mut args: Vec<String> = Vec::new();
    args.push("-ss".to_owned());
    args.push(seconds_string(offset_ms));
    args.push("-i".to_owned());
    args.push(input.to_owned());
    args.push("-vf".to_owned());
    args.push(crop_filter_string(patch));
    args.push("-frames:v".to_owned());
    args.push("1".to_owned());
    args.push("-f".to_owned());
    args.push("rawvideo".to_owned());
    args.push("-pix_fmt".to_owned());
    args.push("rgb24".to_owned());
    args.push("-".to_owned());
    assert(args.deep_view() =~= extraction_of(input@, *patch, offset_ms).args);
    Invocation { program: "ffmpeg".to_owned(), args }
}

/// The encode of `input` to WebM at `output` with the job's options. The
/// quality handed to the encoder is the options' own, within
/// `0..=MAX_CRF`.
pub fn encode(input: &str, output: &str, options: &ConversionOptions) -> (r: Invocation)
    ensures
        r@ == encode_of(input@, output@, options@.crf, options@.audio_bitrate),
        options@.crf <= MAX_CRF,
{
    let mut args: Vec<String> = Vec::new();
    args.push("-i".to_owned());
    args.push(input.to_owned());
    args.push("-c:v".to_owned());
    args.push("libvpx-vp9".to_owned());
    args.push("-pix_fmt".to_owned());
    args.push("yuv420p".to_owned());
    args.push("-crf".to_owned());
    args.push(decimal_string(options.crf() as u64));
    args.push("-b:v".to_owned());
    args.push("1M".to_owned());
    args.push("-cpu-used".to_owned());
    args.push("5".to_owned());
    args.push("-deadline".to_owned());
    args.push("realtime".to_owned());
    args.push("-row-mt".to_owned());
    args.push("1".to_owned());
    args.push("-tile-columns".to_owned());
    args.push("2".to_owned());
    args.push("-threads".to_owned());
    args.push("4".to_owned());
    args.push("-lag-in-frames".to_owned());
    args.push("0".to_owned());
    args.push("-c:a".to_owned());
    args.push("libopus".to_owned());
    args.push("-b:a".to_owned());
    args.push(options.audio_bitrate().to_owned());
    args.push("-f".to_owned());
    args.push("webm".to_owned());
    args.push("-y".to_owned());
    args.push(output.to_owned());
    assert(args.deep_view() =~= encode_of(
        input@,
        output@,
        options@.crf,
        options@.audio_bitrate,
    ).args);
    Invocation { program: "ffmpeg".to_owned(), args }
}

/// The quality that the encoder is handed is the quality of the options:
/// the argument after `-crf` is a numeral, and its value is `crf`.
pub proof fn lemma_encode_hands_over_the_quality(
    input: Seq<char>,
    output: Seq<char>,
    crf: u8,
    audio_bitrate: Seq<char>,
)
    ensures
        ({
            let args = encode_of(input, output, crf, audio_bitrate).args;
            &&& args.len() == 30
            &&& args[6] == "-crf"@
            &&& all_digits(args[7])
            &&& decimal_value(args[7]) == crf
            &&& args[24] == "-b:a"@
            &&& args[25] == audio_bitrate
        }),
{
    lemma_decimal_round_trip(crf as nat);
}

} // verus!
