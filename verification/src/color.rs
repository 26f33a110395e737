//! The colour sampler: it estimates the backdrop colour of a video from
//! small patches of pixels near the four corners of the frame, taken at a
//! few moments of the timeline.
//!
//! The sampler works in two steps around the outside tool. `begin_sampling`
//! reads what the prober printed and plans the patches and moments;
//! `finish_sampling` reduces the pixels that were extracted to one colour.

use crate::duration::{duration_or_default, scan_seconds, DEFAULT_DURATION_MS};
use crate::numeral::{hex_byte, hex_byte_string, integer_value, scan_integer};
use crate::text::{split, split_ranges, to_chars, trim_bounds, trimmed};
use vstd::prelude::*;
use vstd::string::StringExecFns;

verus! {

/// Side of a square patch, in pixels.
pub const PATCH_SIZE: u32 = 20;

/// Distance of a patch from the nearest edges of the frame, in pixels.
pub const MARGIN: u32 = 10;

/// Frame width assumed where the prober's width cannot be read.
pub const DEFAULT_WIDTH: i32 = 1920;

/// Frame height assumed where the prober's height cannot be read.
pub const DEFAULT_HEIGHT: i32 = 1080;

/// The first moment sampled, whatever the video's length.
pub const FIRST_OFFSET_MS: u64 = 500;

/// A colour of eight bits per channel.
#[derive(Clone, Copy, Debug, PartialEq, Eq, Structural)]
pub struct Rgb {
    pub r: u8,
    pub g: u8,
    pub b: u8,
}

/// What the prober reports of a video: the frame's size in pixels and the
/// length in milliseconds.
#[derive(Clone, Copy, Debug, PartialEq, Eq, Structural)]
pub struct Frame {
    pub width: u32,
    pub height: u32,
    pub duration_ms: u64,
}

/// A rectangle of pixels: its top left corner and its size.
#[derive(Clone, Copy, Debug, PartialEq, Eq, Structural)]
pub struct Patch {
    pub x: u32,
    pub y: u32,
    pub width: u32,
    pub height: u32,
}

/// Where and when to sample.
#[derive(Clone, Debug, PartialEq, Eq)]
pub struct SamplePlan {
    pub patches: Vec<Patch>,
    pub offsets_ms: Vec<u64>,
}

/// What the sampler's first step decides.
#[derive(Clone, Debug, PartialEq, Eq)]
pub enum SamplerStep {
    /// Extract these patches at these moments, then call `finish_sampling`.
    Sample(SamplePlan),
    /// Nothing to extract: this is the colour.
    Finished(String),
}

/// The colour reported where nothing could be sampled: pure green.
pub open spec fn default_rgb() -> Rgb {
    Rgb { r: 0, g: 255, b: 0 }
}

/// A colour as text: `0x`, then red, green and blue as two upper-case
/// hexadecimal digits each.
pub open spec fn hex_color_text(c: Rgb) -> Seq<char> {
    seq!['0', 'x'] + hex_byte(c.r) + hex_byte(c.g) + hex_byte(c.b)
}

/// The number in one field of the prober's line, as a 32-bit integer, or
/// `fallback` where the field is no such number.
pub open spec fn dimension(field: Seq<char>, fallback: i32) -> i32 {
    match integer_value(field) {
        Some(v) => if i32::MIN <= v <= i32::MAX {
            v as i32
        } else {
            fallback
        },
        None => fallback,
    }
}

/// Reads the prober's line `width,height,duration`. There is no frame where
/// the line has fewer than three fields or a side is below one pixel; a
/// field that cannot be read stands for its default.
pub open spec fn probed_frame(text: Seq<char>) -> Option<Frame> {
    let fields = split(trimmed(text), ',');
    if fields.len() < 3 {
        None
    } else {
        let width = dimension(fields[0], DEFAULT_WIDTH);
        let height = dimension(fields[1], DEFAULT_HEIGHT);
        if width < 1 || height < 1 {
            None
        } else {
            Some(
                Frame {
                    width: width as u32,
                    height: height as u32,
                    duration_ms: duration_or_default(fields[2]),
                },
            )
        }
    }
}

/// How long a patch is along a side of `length` pixels.
pub open spec fn patch_extent(length: u32) -> u32 {
    if length < PATCH_SIZE {
        length
    } else {
        PATCH_SIZE
    }
}

/// Where the patch near the low edge begins along a side of `length`
/// pixels: at the margin, or nearer where the side is too short.
pub open spec fn near_origin(length: u32) -> u32 {
    let room = (length - patch_extent(length)) as u32;
    if room < MARGIN {
        room
    } else {
        MARGIN
    }
}

/// Where the patch near the high edge begins along a side of `length`
/// pixels: the margin away from that edge, or at 0 where the side is too
/// short.
pub open spec fn far_origin(length: u32) -> u32 {
    let room = (length - patch_extent(length)) as u32;
    if room < MARGIN {
        0
    } else {
        (room - MARGIN) as u32
    }
}

/// The four corner patches of a frame: top left, top right, bottom left,
/// bottom right.
pub open spec fn corner_patches_of(width: u32, height: u32) -> Seq<Patch> {
    let w = patch_extent(width);
    let h = patch_extent(height);
    seq![
        Patch { x: near_origin(width), y: near_origin(height), width: w, height: h },
        Patch { x: far_origin(width), y: near_origin(height), width: w, height: h },
        Patch { x: near_origin(width), y: far_origin(height), width: w, height: h },
        Patch { x: far_origin(width), y: far_origin(height), width: w, height: h },
    ]
}

/// Whether `p` lies within a frame of the given size.
pub open spec fn within_frame(p: Patch, width: u32, height: u32) -> bool {
    p.x + p.width <= width && p.y + p.height <= height
}

/// The moments to sample in a video of the given length: half a second in,
/// the middle, and three quarters of the way.
pub open spec fn sample_offsets_of(duration_ms: u64) -> Seq<u64> {
    seq![FIRST_OFFSET_MS, duration_ms / 2, (3 * duration_ms / 4) as u64]
}

/// The sum of one channel (0 red, 1 green, 2 blue) over the first `n`
/// pixels of `data`, three bytes to the pixel.
pub open spec fn channel_sum(data: Seq<u8>, channel: int, n: nat) -> nat
    decreases n,
{
    if n == 0 {
        0
    } else {
        channel_sum(data, channel, (n - 1) as nat) + data[3 * (n - 1) + channel] as nat
    }
}

/// The mean colour of the whole pixels in `data`, each channel cut off to
/// an integer; `None` where `data` holds no whole pixel. Bytes after the
/// last whole pixel do not count.
pub open spec fn mean_color(data: Seq<u8>) -> Option<Rgb> {
    let n = data.len() / 3;
    if n == 0 {
        None
    } else {
        Some(
            Rgb {
                r: (channel_sum(data, 0, n) / n) as u8,
                g: (channel_sum(data, 1, n) / n) as u8,
                b: (channel_sum(data, 2, n) / n) as u8,
            },
        )
    }
}

/// The sampler's answer for the pixels `data`: their mean colour, or the
/// default where there is none.
pub open spec fn sampled_color_text(data: Seq<u8>) -> Seq<char> {
    match mean_color(data) {
        Some(c) => hex_color_text(c),
        None => hex_color_text(default_rgb()),
    }
}

/// Whether every whole pixel of `data` has the colour `c`.
pub open spec fn uniform(data: Seq<u8>, c: Rgb) -> bool {
    forall|i: int|
        0 <= i < data.len() / 3 ==> #[trigger] data[3 * i] == c.r && data[3 * i + 1] == c.g
            && data[3 * i + 2] == c.b
}

/// The colour reported where nothing could be sampled.
pub fn default_color() -> (c: Rgb)
    ensures
        c == default_rgb(),
{
    Rgb { r: 0, g: 255, b: 0 }
}

/// Writes a colour as `0xRRGGBB`.
pub fn hex_color(c: Rgb) -> (s: String)
    ensures
        s@ == hex_color_text(c),
{
    proof {
        reveal_strlit("0x");
    }
    let r = hex_byte_string(c.r);
    let g = hex_byte_string(c.g);
    let b = hex_byte_string(c.b);
    let s = "0x".to_owned().concat(r.as_str()).concat(g.as_str()).concat(b.as_str());
    s
}

/// Reads `chars[from..to]` as a 32-bit integer, `fallback` where it is
/// none.
fn read_dimension(chars: &Vec<char>, from: usize, to: usize, fallback: i32) -> (r: i32)
    requires
        from <= to <= chars.len(),
    ensures
        r == dimension(chars@.subrange(from as int, to as int), fallback),
{
    match scan_integer(chars, from, to, 0x8000_0001) {
        Some((negative, magnitude)) => {
            if negative {
                if magnitude <= 0x8000_0000 {
                    (0 - magnitude as i64) as i32
                } else {
                    fallback
                }
            } else {
                if magnitude <= 0x7fff_ffff {
                    magnitude as i32
                } else {
                    fallback
                }
            }
        },
        None => fallback,
    }
}

/// Reads the prober's line `width,height,duration`.
pub fn read_probe(text: &str) -> (r: Option<Frame>)
    ensures
        r == probed_frame(text@),
{
    let chars = to_chars(text);
    let (from, to) = trim_bounds(&chars);
    let fields = split_ranges(&chars, from, to, ',');
    if fields.len() < 3 {
        return None;
    }
    let width = read_dimension(&chars, fields[0].0, fields[0].1, DEFAULT_WIDTH);
    let height = read_dimension(&chars, fields[1].0, fields[1].1, DEFAULT_HEIGHT);
    if width < 1 || height < 1 {
        return None;
    }
    let duration_ms = match scan_seconds(&chars, fields[2].0, fields[2].1) {
        Some(ms) => ms,
        None => DEFAULT_DURATION_MS,
    };
    Some(Frame { width: width as u32, height: height as u32, duration_ms })
}

/// The four corner patches of a frame: top left, top right, bottom left,
/// bottom right. Each lies within the frame.
pub fn corner_patches(width: u32, height: u32) -> (r: Vec<Patch>)
    ensures
        r@ == corner_patches_of(width, height),
        forall|k: int| 0 <= k < r.len() ==> within_frame(#[trigger] r[k], width, height),
{
    let w: u32 = if width < PATCH_SIZE { width } else { PATCH_SIZE };
    let h: u32 = if height < PATCH_SIZE { height } else { PATCH_SIZE };
    let left: u32 = if width - w < MARGIN { width - w } else { MARGIN };
    let right: u32 = if width - w < MARGIN { 0 } else { width - w - MARGIN };
    let top: u32 = if height - h < MARGIN { height - h } else { MARGIN };
    let bottom: u32 = if height - h < MARGIN { 0 } else { height - h - MARGIN };
    let mut r: Vec<Patch> = Vec::new();
    r.push(Patch { x: left, y: top, width: w, height: h });
    r.push(Patch { x: right, y: top, width: w, height: h });
    r.push(Patch { x: left, y: bottom, width: w, height: h });
    r.push(Patch { x: right, y: bottom, width: w, height: h });
    r
}

/// The moments to sample, in milliseconds from the start.
pub fn sample_offsets(duration_ms: u64) -> (r: Vec<u64>)
    ensures
        r@ == sample_offsets_of(duration_ms),
{
    let quarter: u64 = duration_ms / 4;
    let rest: u64 = duration_ms % 4;
    let mut r: Vec<u64> = Vec::new();
    r.push(FIRST_OFFSET_MS);
    r.push(duration_ms / 2);
    r.push(quarter * 3 + rest * 3 / 4);
    r
}

/// The mean colour of the whole pixels in `pixels`, three bytes to the
/// pixel in the order red, green, blue.
pub fn average_color(pixels: &[u8]) -> (r: Option<Rgb>)
    ensures
        r == mean_color(pixels@),
{
    let n: usize = pixels.len() / 3;
    if n == 0 {
        return None;
    }
    let mut red: u128 = 0;
    let mut green: u128 = 0;
    let mut blue: u128 = 0;
    let mut i: usize = 0;
    while i < n
        invariant
            i <= n,
            n == pixels.len() / 3,
            red == channel_sum(pixels@, 0, i as nat),
            green == channel_sum(pixels@, 1, i as nat),
            blue == channel_sum(pixels@, 2, i as nat),
            red <= 255 * i,
            green <= 255 * i,
            blue <= 255 * i,
        decreases n - i,
    {
        red = red + pixels[3 * i] as u128;
        green = green + pixels[3 * i + 1] as u128;
        blue = blue + pixels[3 * i + 2] as u128;
        i = i + 1;
    }
    let count: u128 = n as u128;
    assert(red / count <= 255 && green / count <= 255 && blue / count <= 255)
        by (nonlinear_arith)
        requires
            count > 0,
            red <= 255 * count,
            green <= 255 * count,
            blue <= 255 * count,
    ;
    Some(Rgb { r: (red / count) as u8, g: (green / count) as u8, b: (blue / count) as u8 })
}

/// The whole pixels at the start of `data`: all of it but the one or two
/// bytes that may follow the last whole pixel.
pub open spec fn whole_pixels(data: Seq<u8>) -> Seq<u8> {
    data.subrange(0, data.len() - data.len() % 3)
}

/// Adds the whole pixels of `chunk`, the output of one extraction, to the
/// pixels gathered so far. Bytes after the last whole pixel of the chunk are
/// left out, so that the pixels of the next chunk stay in step.
pub fn append_whole_pixels(samples: &mut Vec<u8>, chunk: &[u8])
    ensures
        final(samples)@ == old(samples)@ + whole_pixels(chunk@),
{
    let whole: usize = chunk.len() - chunk.len() % 3;
    let mut i: usize = 0;
    while i < whole
        invariant
            i <= whole <= chunk.len(),
            samples@ == old(samples)@ + chunk@.subrange(0, i as int),
        decreases whole - i,
    {
        samples.push(chunk[i]);
        i = i + 1;
    }
}

/// The sampler's first step: reads what the prober printed and plans what
/// to extract. Where the prober gave no usable frame, the answer is the
/// default colour at once.
pub fn begin_sampling(probe_output: &str) -> (r: SamplerStep)
    ensures
        match probed_frame(probe_output@) {
            Some(frame) => r matches SamplerStep::Sample(plan) && plan.patches@
                == corner_patches_of(frame.width, frame.height) && plan.offsets_ms@
                == sample_offsets_of(frame.duration_ms),
            None => r matches SamplerStep::Finished(text) && text@ == hex_color_text(
                default_rgb(),
            ),
        },
{
    match read_probe(probe_output) {
        Some(frame) => SamplerStep::Sample(
            SamplePlan {
                patches: corner_patches(frame.width, frame.height),
                offsets_ms: sample_offsets(frame.duration_ms),
            },
        ),
        None => SamplerStep::Finished(hex_color(default_color())),
    }
}

/// The sampler's second step: reduces the extracted pixels (three bytes
/// each, of all patches and moments together) to one colour, written as
/// `0xRRGGBB`. Where no whole pixel came, the answer is the default colour.
pub fn finish_sampling(pixels: &[u8]) -> (text: String)
    ensures
        text@ == sampled_color_text(pixels@),
{
    match average_color(pixels) {
        Some(c) => hex_color(c),
        None => hex_color(default_color()),
    }
}

/// The default colour is written `0x00FF00`.
pub proof fn lemma_default_color_text()
    ensures
        hex_color_text(default_rgb()) == "0x00FF00"@,
{
    reveal_strlit("0x00FF00");
    reveal_strlit("0123456789ABCDEF");
}

/// Every corner patch lies within its frame, whatever the frame's size.
pub proof fn lemma_patches_within_frame(width: u32, height: u32)
    ensures
        corner_patches_of(width, height).len() == 4,
        forall|k: int|
            0 <= k < 4 ==> within_frame(
                #[trigger] corner_patches_of(width, height)[k],
                width,
                height,
            ),
{
}

/// In a frame with room for the margins the patches stand the margin away
/// from the edges and have the full size.
pub proof fn lemma_patches_in_roomy_frame(width: u32, height: u32)
    requires
        width >= PATCH_SIZE + 2 * MARGIN,
        height >= PATCH_SIZE + 2 * MARGIN,
    ensures
        corner_patches_of(width, height) == seq![
            Patch { x: MARGIN, y: MARGIN, width: PATCH_SIZE, height: PATCH_SIZE },
            Patch {
                x: (width - PATCH_SIZE - MARGIN) as u32,
                y: MARGIN,
                width: PATCH_SIZE,
                height: PATCH_SIZE,
            },
            Patch {
                x: MARGIN,
                y: (height - PATCH_SIZE - MARGIN) as u32,
                width: PATCH_SIZE,
                height: PATCH_SIZE,
            },
            Patch {
                x: (width - PATCH_SIZE - MARGIN) as u32,
                y: (height - PATCH_SIZE - MARGIN) as u32,
                width: PATCH_SIZE,
                height: PATCH_SIZE,
            },
        ],
{
}

/// Over pixels that all have one colour, each channel sums to that
/// channel's value times the number of pixels.
proof fn lemma_uniform_channel_sum(data: Seq<u8>, c: Rgb, n: nat)
    requires
        uniform(data, c),
        n <= data.len() / 3,
    ensures
        channel_sum(data, 0, n) == n * c.r,
        channel_sum(data, 1, n) == n * c.g,
        channel_sum(data, 2, n) == n * c.b,
    decreases n,
{
    if n > 0 {
        lemma_uniform_channel_sum(data, c, (n - 1) as nat);
        assert(n * c.r == (n - 1) * c.r + c.r) by (nonlinear_arith);
        assert(n * c.g == (n - 1) * c.g + c.g) by (nonlinear_arith);
        assert(n * c.b == (n - 1) * c.b + c.b) by (nonlinear_arith);
    }
}

/// Sampling pixels that all have the colour `c` gives exactly `c`, however
/// many pixels there are and wherever they were taken.
pub proof fn lemma_uniform_sample(data: Seq<u8>, c: Rgb)
    requires
        data.len() >= 3,
        uniform(data, c),
    ensures
        mean_color(data) == Some(c),
        sampled_color_text(data) == hex_color_text(c),
{
    let n = data.len() / 3;
    lemma_uniform_channel_sum(data, c, n);
    let red = channel_sum(data, 0, n);
    let green = channel_sum(data, 1, n);
    let blue = channel_sum(data, 2, n);
    assert(red / n == c.r && green / n == c.g && blue / n == c.b) by (nonlinear_arith)
        requires
            n > 0,
            red == n * c.r,
            green == n * c.g,
            blue == n * c.b,
    ;
}

/// Where no whole pixel was extracted, the sampler answers with the
/// default colour.
pub proof fn lemma_default_when_nothing_sampled(data: Seq<u8>)
    requires
        data.len() < 3,
    ensures
        sampled_color_text(data) == hex_color_text(default_rgb()),
{
}

/// The channel sums of two runs of bytes agree where the runs agree on the
/// pixels summed.
proof fn lemma_channel_sum_agrees(a: Seq<u8>, b: Seq<u8>, channel: int, n: nat)
    requires
        0 <= channel < 3,
        3 * n <= a.len(),
        3 * n <= b.len(),
        forall|i: int| 0 <= i < 3 * n ==> a[i] == b[i],
    ensures
        channel_sum(a, channel, n) == channel_sum(b, channel, n),
    decreases n,
{
    if n > 0 {
        lemma_channel_sum_agrees(a, b, channel, (n - 1) as nat);
    }
}

/// The bytes after the last whole pixel do not change the mean colour.
pub proof fn lemma_mean_of_whole_pixels(data: Seq<u8>)
    ensures
        mean_color(whole_pixels(data)) == mean_color(data),
{
    let whole = whole_pixels(data);
    let n = data.len() / 3;
    lemma_channel_sum_agrees(whole, data, 0, n);
    lemma_channel_sum_agrees(whole, data, 1, n);
    lemma_channel_sum_agrees(whole, data, 2, n);
}

/// Pixels of one colour gathered from several extractions are pixels of
/// that colour: adding a chunk of the colour `c` to samples of the colour
/// `c` gives samples of the colour `c`.
pub proof fn lemma_uniform_chunks(samples: Seq<u8>, chunk: Seq<u8>, c: Rgb)
    requires
        samples.len() % 3 == 0,
        uniform(samples, c),
        uniform(chunk, c),
    ensures
        (samples + whole_pixels(chunk)).len() % 3 == 0,
        uniform(samples + whole_pixels(chunk), c),
{
    let all = samples + whole_pixels(chunk);
    let before = samples.len() / 3;
    assert forall|i: int| 0 <= i < all.len() / 3 implies #[trigger] all[3 * i] == c.r && all[3 * i
        + 1] == c.g && all[3 * i + 2] == c.b by {
        if i < before {
            assert(samples[3 * i] == c.r);
        } else {
            let k = i - before;
            assert(chunk[3 * k] == c.r);
            assert(all[3 * i] == chunk[3 * k]);
            assert(all[3 * i + 1] == chunk[3 * k + 1]);
            assert(all[3 * i + 2] == chunk[3 * k + 2]);
        }
    }
}

} // verus!
