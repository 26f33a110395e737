//! The options a conversion job is submitted with, and how the fields of a
//! submission fill them in.

use crate::numeral::{integer_value, scan_integer};
use crate::text::{same_text, to_chars, trim_bounds, trimmed};
use vstd::prelude::*;

verus! {

/// The highest quality parameter the encoder takes; the lowest is 0.
pub const MAX_CRF: u8 = 63;

/// The quality parameter of a job that names none.
pub fn default_crf() -> (crf: u8)
    ensures
        crf == 30,
        crf <= MAX_CRF,
{
    30
}

/// The audio bitrate of a job that names none.
pub fn default_audio_bitrate() -> (bitrate: String)
    ensures
        bitrate@ == "128k"@,
{
    "128k".to_owned()
}

/// The options of one job. The quality parameter is always within
/// `0..=MAX_CRF`.
#[derive(Debug, PartialEq, Eq)]
pub struct ConversionOptions {
    crf: u8,
    audio_bitrate: String,
    detect_green: bool,
}

/// What a `ConversionOptions` holds.
pub struct OptionsView {
    pub crf: u8,
    pub audio_bitrate: Seq<char>,
    pub detect_green: bool,
}

/// What a field of a submission is for, by its name.
#[derive(Clone, Copy, Debug, PartialEq, Eq, Structural)]
pub enum FieldKind {
    /// The media itself.
    File,
    /// The quality parameter.
    Crf,
    /// The audio bitrate.
    AudioBitrate,
    /// Whether to detect the backdrop colour.
    DetectGreen,
    /// A field this service does not know; it is passed over.
    Other,
}

/// The kind of the field called `name`.
pub open spec fn field_kind(name: Seq<char>) -> FieldKind {
    if name == "file"@ {
        FieldKind::File
    } else if name == "crf"@ {
        FieldKind::Crf
    } else if name == "audio_bitrate"@ {
        FieldKind::AudioBitrate
    } else if name == "detect_green"@ {
        FieldKind::DetectGreen
    } else {
        FieldKind::Other
    }
}

/// `v` brought into `0..=MAX_CRF`: what is below becomes 0, what is above
/// becomes `MAX_CRF`.
pub open spec fn clamped_quality(v: int) -> u8 {
    if v < 0 {
        0
    } else if v > MAX_CRF {
        MAX_CRF
    } else {
        v as u8
    }
}

/// The quality parameter that `text` asks for: where `text` is an integer
/// (an optional sign, then digits), that integer brought into range; else
/// none.
pub open spec fn quality_of(text: Seq<char>) -> Option<u8> {
    match integer_value(text) {
        Some(v) => Some(clamped_quality(v)),
        None => None,
    }
}

/// Whether `text` switches a flag on: it does where it reads `true`, white
/// space around it aside.
pub open spec fn flag_of(text: Seq<char>) -> bool {
    trimmed(text) == "true"@
}

/// The options after the field `name` with the content `value` came in.
/// A quality that is no integer leaves the quality as it was; the media
/// field and unknown fields leave the options as they were.
pub open spec fn with_field_of(o: OptionsView, name: Seq<char>, value: Seq<char>) -> OptionsView {
    match field_kind(name) {
        FieldKind::Crf => match quality_of(value) {
            Some(crf) => OptionsView { crf, ..o },
            None => o,
        },
        FieldKind::AudioBitrate => OptionsView { audio_bitrate: value, ..o },
        FieldKind::DetectGreen => OptionsView { detect_green: flag_of(value), ..o },
        FieldKind::File => o,
        FieldKind::Other => o,
    }
}

/// What a field of a submission is for, by its name.
pub fn classify_field(name: &str) -> (kind: FieldKind)
    ensures
        kind == field_kind(name@),
{
    if same_text(name, "file") {
        FieldKind::File
    } else if same_text(name, "crf") {
        FieldKind::Crf
    } else if same_text(name, "audio_bitrate") {
        FieldKind::AudioBitrate
    } else if same_text(name, "detect_green") {
        FieldKind::DetectGreen
    } else {
        FieldKind::Other
    }
}

/// Brings a quality parameter into range.
pub fn clamp_crf(crf: u8) -> (r: u8)
    ensures
        r == clamped_quality(crf as int),
        r <= MAX_CRF,
{
    if crf > MAX_CRF {
        MAX_CRF
    } else {
        crf
    }
}

/// Reads a quality parameter: an integer of any size is brought into
/// range, anything else is no quality.
pub fn parse_quality(text: &str) -> (r: Option<u8>)
    ensures
        r == quality_of(text@),
        r matches Some(crf) ==> crf <= MAX_CRF,
{
    let chars = to_chars(text);
    assert(chars@.subrange(0, chars.len() as int) =~= text@);
    match scan_integer(&chars, 0, chars.len(), 64) {
        Some((negative, magnitude)) => {
            if negative {
                Some(0)
            } else if magnitude > 63 {
                Some(MAX_CRF)
            } else {
                Some(magnitude as u8)
            }
        },
        None => None,
    }
}

/// Reads a flag: `true`, with or without white space around it, switches
/// it on; anything else switches it off.
pub fn parse_flag(text: &str) -> (r: bool)
    ensures
        r == flag_of(text@),
{
    let chars = to_chars(text);
    let (from, to) = trim_bounds(&chars);
    proof {
        reveal_strlit("true");
        assert("true"@.len() == 4);
    }
    if to - from == 4 {
        let r = chars[from] == 't' && chars[from + 1] == 'r' && chars[from + 2] == 'u' && chars[from
            + 3] == 'e';
        proof {
            let t = chars@.subrange(from as int, to as int);
            assert(t[0] == chars@[from as int]);
            assert(t[1] == chars@[from + 1]);
            assert(t[2] == chars@[from + 2]);
            assert(t[3] == chars@[from + 3]);
            if r {
                assert(t =~= "true"@);
            }
        }
        r
    } else {
        false
    }
}

impl View for ConversionOptions {
    type V = OptionsView;

    closed spec fn view(&self) -> OptionsView {
        OptionsView {
            crf: self.crf,
            audio_bitrate: self.audio_bitrate@,
            detect_green: self.detect_green,
        }
    }
}

impl ConversionOptions {
    #[verifier::type_invariant]
    spec fn in_range(&self) -> bool {
        self.crf <= MAX_CRF
    }

    /// Options with the given values; the quality is brought into range.
    pub fn new(crf: u8, audio_bitrate: String, detect_green: bool) -> (o: ConversionOptions)
        ensures
            o@ == (OptionsView {
                crf: clamped_quality(crf as int),
                audio_bitrate: audio_bitrate@,
                detect_green,
            }),
    {
        ConversionOptions { crf: clamp_crf(crf), audio_bitrate, detect_green }
    }

    /// The quality parameter, within `0..=MAX_CRF`.
    pub fn crf(&self) -> (crf: u8)
        ensures
            crf == self@.crf,
            crf <= MAX_CRF,
    {
        proof {
            use_type_invariant(self);
        }
        self.crf
    }

    /// The audio bitrate, as it is handed to the encoder.
    pub fn audio_bitrate(&self) -> (bitrate: &str)
        ensures
            bitrate@ == self@.audio_bitrate,
    {
        self.audio_bitrate.as_str()
    }

    /// Whether the backdrop colour is to be detected.
    pub fn detect_green(&self) -> (on: bool)
        ensures
            on == self@.detect_green,
    {
        self.detect_green
    }

    /// The options after the field `name` with the content `value` came
    /// in.
    pub fn with_field(self, name: &str, value: &str) -> (o: ConversionOptions)
        ensures
            o@ == with_field_of(self@, name@, value@),
            o@.crf <= MAX_CRF,
    {
        proof {
            use_type_invariant(&self);
        }
        match classify_field(name) {
            FieldKind::Crf => match parse_quality(value) {
                Some(crf) => ConversionOptions {
                    crf,
                    audio_bitrate: self.audio_bitrate,
                    detect_green: self.detect_green,
                },
                None => self,
            },
            FieldKind::AudioBitrate => ConversionOptions {
                crf: self.crf,
                audio_bitrate: value.to_owned(),
                detect_green: self.detect_green,
            },
            FieldKind::DetectGreen => ConversionOptions {
                crf: self.crf,
                audio_bitrate: self.audio_bitrate,
                detect_green: parse_flag(value),
            },
            FieldKind::File => self,
            FieldKind::Other => self,
        }
    }
}

impl Clone for ConversionOptions {
    fn clone(&self) -> (o: ConversionOptions)
        ensures
            o@ == self@,
    {
        proof {
            use_type_invariant(self);
        }
        ConversionOptions {
            crf: self.crf,
            audio_bitrate: self.audio_bitrate.clone(),
            detect_green: self.detect_green,
        }
    }
}

impl Default for ConversionOptions {
    /// The options of a job that names none: the default quality, the
    /// default audio bitrate, no colour detection.
    fn default() -> (o: ConversionOptions)
        ensures
            o@ == (OptionsView { crf: 30, audio_bitrate: "128k"@, detect_green: false }),
    {
        ConversionOptions {
            crf: default_crf(),
            audio_bitrate: default_audio_bitrate(),
            detect_green: false,
        }
    }
}

/// The options after a run of fields came in, in order.
pub open spec fn with_fields_of(o: OptionsView, fields: Seq<(Seq<char>, Seq<char>)>) -> OptionsView
    decreases fields.len(),
{
    if fields.len() == 0 {
        o
    } else {
        let before = with_fields_of(o, fields.drop_last());
        with_field_of(before, fields.last().0, fields.last().1)
    }
}

/// What a run of fields holds, name and content of each.
pub open spec fn fields_view(fields: Seq<(String, String)>) -> Seq<(Seq<char>, Seq<char>)> {
    Seq::new(fields.len(), |i: int| (fields[i].0@, fields[i].1@))
}

/// The options that a submission with the given fields asks for: the
/// defaults, changed by each field in turn.
pub fn options_from_fields(fields: &Vec<(String, String)>) -> (o: ConversionOptions)
    ensures
        o@ == with_fields_of(
            OptionsView { crf: 30, audio_bitrate: "128k"@, detect_green: false },
            fields_view(fields@),
        ),
        o@.crf <= MAX_CRF,
{
    let ghost all = fields_view(fields@);
    let ghost start = OptionsView { crf: 30, audio_bitrate: "128k"@, detect_green: false };
    let mut o = ConversionOptions::default();
    let mut i: usize = 0;
    while i < fields.len()
        invariant
            i <= fields.len(),
            all == fields_view(fields@),
            o@ == with_fields_of(start, all.take(i as int)),
            o@.crf <= MAX_CRF,
        decreases fields.len() - i,
    {
        proof {
            assert(all.take(i + 1).drop_last() =~= all.take(i as int));
        }
        o = o.with_field(fields[i].0.as_str(), fields[i].1.as_str());
        i = i + 1;
    }
    assert(all.take(fields.len() as int) =~= all);
    o
}

/// A quality that starts in range stays in range, whatever fields come in
/// and whatever they hold.
pub proof fn lemma_quality_stays_in_range(o: OptionsView, fields: Seq<(Seq<char>, Seq<char>)>)
    requires
        o.crf <= MAX_CRF,
    ensures
        with_fields_of(o, fields).crf <= MAX_CRF,
    decreases fields.len(),
{
    if fields.len() > 0 {
        lemma_quality_stays_in_range(o, fields.drop_last());
    }
}

} // verus!
