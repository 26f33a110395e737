//! The progress monitor: it turns what can be seen of a running encode into
//! an estimate of how far the job is.
//!
//! The encode phase owns the estimates from `ENCODE_FLOOR` to
//! `ENCODE_CEILING`; what lies below belongs to the earlier phases, and 100
//! is reported by nobody but the orchestrator, once the encoder has ended
//! well. Two ways of watching are offered. `SizeMonitor` watches the output
//! file grow and measures the time gone by against the time the encode is
//! expected to take. `stream_report` reads the lines of the encoder's own
//! progress channel.

use crate::duration::DEFAULT_DURATION_MS;
use crate::job::{ENCODING_PROGRESS, MAX_OPEN_PROGRESS};
use crate::numeral::{all_digits, capped, decimal_value, scan_digits, MAX_CAP};
use crate::text::{first_index, lemma_first_index, range_is, to_chars, trim_bounds, trimmed};
use vstd::arithmetic::div_mod::lemma_div_is_ordered;
use vstd::prelude::*;

verus! {

/// The estimate at which the encode phase begins.
pub const ENCODE_FLOOR: u8 = ENCODING_PROGRESS;

/// The highest estimate given while the encoder runs.
pub const ENCODE_CEILING: u8 = MAX_OPEN_PROGRESS;

/// The points that a whole encode adds to the floor, before the estimate is
/// held at the ceiling.
pub const ENCODE_POINTS: u8 = 70;

/// The time between two looks at the output file, in milliseconds.
pub const POLL_INTERVAL_MS: u64 = 2000;

/// After more than this many whole seconds the size monitor stops
/// watching, whatever it has seen.
pub const WATCH_LIMIT_SECS: u64 = 120;

/// The estimate for an encode that has done `done` of `total`, in any one
/// unit: the floor, plus `ENCODE_POINTS` for the whole, cut off to an
/// integer and held at the ceiling. An encode whose total is 0 is at the
/// ceiling.
pub open spec fn phase_progress(done: nat, total: nat) -> u8 {
    let points = (ENCODE_POINTS as nat * done) / total;
    if total == 0 || points >= ENCODE_CEILING - ENCODE_FLOOR {
        ENCODE_CEILING
    } else {
        (ENCODE_FLOOR + points) as u8
    }
}

/// The estimate of the size monitor after `elapsed_ms` of an encode whose
/// source is `duration_ms` long. The encode is expected to take eight
/// tenths of the source's length.
pub open spec fn size_growth_progress_of(elapsed_ms: u64, duration_ms: u64) -> u8 {
    phase_progress(10 * elapsed_ms as nat, 8 * duration_ms as nat)
}

/// The estimate for an encoder that reports `out_time_us` microseconds of
/// output written, for a source of `duration_ms`.
pub open spec fn stream_progress_of(out_time_us: u64, duration_ms: u64) -> u8 {
    phase_progress(out_time_us as nat, 1000 * duration_ms as nat)
}

/// The estimate for `done` of `total`.
fn estimate(done: u128, total: u128) -> (r: u8)
    requires
        done <= 0xffff_ffff_ffff_ffff_ffff,
    ensures
        r == phase_progress(done as nat, total as nat),
        ENCODE_FLOOR <= r <= ENCODE_CEILING,
{
    if total == 0 {
        return ENCODE_CEILING;
    }
    let scale: u128 = ENCODE_POINTS as u128;
    assert(scale == 70);
    let points: u128 = (scale * done) / total;
    if points >= (ENCODE_CEILING - ENCODE_FLOOR) as u128 {
        ENCODE_CEILING
    } else {
        ENCODE_FLOOR + points as u8
    }
}

/// The size monitor's estimate after `elapsed_ms` of an encode whose source
/// is `duration_ms` long.
pub fn size_growth_progress(elapsed_ms: u64, duration_ms: u64) -> (r: u8)
    ensures
        r == size_growth_progress_of(elapsed_ms, duration_ms),
        ENCODE_FLOOR <= r <= ENCODE_CEILING,
{
    estimate(10 * elapsed_ms as u128, 8 * duration_ms as u128)
}

/// The estimate for an encoder that reports `out_time_us` microseconds of
/// output written, for a source of `duration_ms`.
pub fn stream_progress(out_time_us: u64, duration_ms: u64) -> (r: u8)
    ensures
        r == stream_progress_of(out_time_us, duration_ms),
        ENCODE_FLOOR <= r <= ENCODE_CEILING,
{
    estimate(out_time_us as u128, 1000 * duration_ms as u128)
}

/// The size monitor between two looks: the size it saw last and the length
/// of the source.
#[derive(Clone, Copy, Debug, PartialEq, Eq, Structural)]
pub struct SizeMonitor {
    pub last_size: u64,
    pub duration_ms: u64,
}

/// What one look of the size monitor gives.
#[derive(Clone, Copy, Debug, PartialEq, Eq)]
pub struct Reading {
    /// The monitor for the next look.
    pub monitor: SizeMonitor,
    /// The estimate to write into the job's record, if there is one.
    pub report: Option<u8>,
    /// Whether to look again after `POLL_INTERVAL_MS`.
    pub keep_watching: bool,
}

/// Whether a look that finds `size` is a growth for `m`: the file is there
/// and larger than at the last look.
pub open spec fn grew(m: SizeMonitor, size: Option<u64>) -> bool {
    size matches Some(s) && s > m.last_size
}

/// What a look gives that finds the output file at `size` (`None` where it
/// could not be measured) `elapsed_ms` after the encode began.
pub open spec fn observe_of(m: SizeMonitor, size: Option<u64>, elapsed_ms: u64) -> Reading {
    Reading {
        monitor: if grew(m, size) {
            SizeMonitor { last_size: size.unwrap(), ..m }
        } else {
            m
        },
        report: if grew(m, size) {
            Some(size_growth_progress_of(elapsed_ms, m.duration_ms))
        } else {
            None
        },
        keep_watching: elapsed_ms / 1000 <= WATCH_LIMIT_SECS,
    }
}

impl SizeMonitor {
    /// A monitor for an encode that begins now. `duration_ms` is the length
    /// of the source; where it is not known, the default stands in.
    pub fn new(duration_ms: Option<u64>) -> (m: SizeMonitor)
        ensures
            m.last_size == 0,
            m.duration_ms == match duration_ms {
                Some(ms) => ms,
                None => DEFAULT_DURATION_MS,
            },
    {
        SizeMonitor {
            last_size: 0,
            duration_ms: match duration_ms {
                Some(ms) => ms,
                None => DEFAULT_DURATION_MS,
            },
        }
    }

    /// One look at the output file: `size` is its size in bytes, `None`
    /// where it could not be measured; `elapsed_ms` is the time since the
    /// encode began. A look that finds the file grown gives an estimate; one
    /// that does not gives none and changes nothing.
    pub fn observe(self, size: Option<u64>, elapsed_ms: u64) -> (r: Reading)
        ensures
            r == observe_of(self, size, elapsed_ms),
            r.report matches Some(p) ==> ENCODE_FLOOR <= p <= ENCODE_CEILING,
    {
        let keep_watching = elapsed_ms / 1000 <= WATCH_LIMIT_SECS;
        match size {
            Some(s) => {
                if s > self.last_size {
                    Reading {
                        monitor: SizeMonitor { last_size: s, duration_ms: self.duration_ms },
                        report: Some(size_growth_progress(elapsed_ms, self.duration_ms)),
                        keep_watching,
                    }
                } else {
                    Reading { monitor: self, report: None, keep_watching }
                }
            },
            None => Reading { monitor: self, report: None, keep_watching },
        }
    }
}

/// The time that a line of the encoder's progress channel reports, in
/// microseconds: the line reads `out_time_us=` and then digits, white space
/// around it aside. Times from `MAX_CAP` on are held at `MAX_CAP`. Any other
/// line reports none.
pub open spec fn line_time(line: Seq<char>) -> Option<u64> {
    let t = trimmed(line);
    let eq = first_index(t, '=') as int;
    if eq < t.len() && t.subrange(0, eq) == "out_time_us"@ {
        let digits = t.subrange(eq + 1, t.len() as int);
        if digits.len() > 0 && all_digits(digits) {
            Some(capped(decimal_value(digits), MAX_CAP as nat) as u64)
        } else {
            None
        }
    } else {
        None
    }
}

/// The estimate that a line of the encoder's progress channel gives, for a
/// source of `duration_ms`; none for a line that reports no time.
pub open spec fn stream_report_of(line: Seq<char>, duration_ms: u64) -> Option<u8> {
    match line_time(line) {
        Some(t) => Some(stream_progress_of(t, duration_ms)),
        None => None,
    }
}

/// Reads the time that a line of the encoder's progress channel reports.
pub fn read_line_time(line: &str) -> (r: Option<u64>)
    ensures
        r == line_time(line@),
{
    let chars = to_chars(line);
    let (from, to) = trim_bounds(&chars);
    let ghost t = chars@.subrange(from as int, to as int);
    let mut eq: usize = from;
    while eq < to && chars[eq] != '='
        invariant
            from <= eq <= to <= chars.len(),
            forall|j: int| from <= j < eq ==> #[trigger] chars@[j] != '=',
        decreases to - eq,
    {
        eq = eq + 1;
    }
    proof {
        assert(forall|j: int| 0 <= j < eq - from ==> #[trigger] t[j] != '=');
        lemma_first_index(t, '=', eq - from);
        assert(t.subrange(0, eq - from) =~= chars@.subrange(from as int, eq as int));
    }
    if eq == to {
        return None;
    }
    assert(t.subrange(eq - from + 1, t.len() as int) =~= chars@.subrange(eq + 1, to as int));
    if !range_is(&chars, from, eq, "out_time_us") {
        return None;
    }
    if eq + 1 == to {
        return None;
    }
    scan_digits(&chars, eq + 1, to, MAX_CAP)
}

/// The estimate that a line of the encoder's progress channel gives, for a
/// source of `duration_ms`. A line that reports no time gives none: the
/// sample is passed over.
pub fn stream_report(line: &str, duration_ms: u64) -> (r: Option<u8>)
    ensures
        r == stream_report_of(line@, duration_ms),
        r matches Some(p) ==> ENCODE_FLOOR <= p <= ENCODE_CEILING,
{
    match read_line_time(line) {
        Some(t) => Some(stream_progress(t, duration_ms)),
        None => None,
    }
}

/// An estimate of the encode phase lies between the floor and the ceiling:
/// never 100.
pub proof fn lemma_phase_progress_bounds(done: nat, total: nat)
    ensures
        ENCODE_FLOOR <= phase_progress(done, total) <= ENCODE_CEILING,
{
    if total > 0 {
        assert(0 <= (ENCODE_POINTS as nat * done) / total) by (nonlinear_arith)
            requires
                total > 0,
        ;
    }
}

/// The further the encode, the higher the estimate, or the same.
pub proof fn lemma_phase_progress_monotonic(done: nat, later: nat, total: nat)
    requires
        done <= later,
    ensures
        phase_progress(done, total) <= phase_progress(later, total),
{
    if total > 0 {
        lemma_div_is_ordered(
            (ENCODE_POINTS * done) as int,
            (ENCODE_POINTS * later) as int,
            total as int,
        );
        lemma_phase_progress_bounds(done, total);
    }
}

/// The size monitor's estimates never fall as time goes by.
pub proof fn lemma_size_growth_monotonic(elapsed_ms: u64, later_ms: u64, duration_ms: u64)
    requires
        elapsed_ms <= later_ms,
    ensures
        size_growth_progress_of(elapsed_ms, duration_ms) <= size_growth_progress_of(
            later_ms,
            duration_ms,
        ),
{
    lemma_phase_progress_monotonic(
        10 * elapsed_ms as nat,
        10 * later_ms as nat,
        8 * duration_ms as nat,
    );
}

} // verus!
