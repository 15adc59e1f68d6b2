//! The peak heap size of a heap-profiler report.
//!
//! A report is a sequence of lines. A heap-sample line gives the heap size of
//! one snapshot in bytes; a peak-marker line says that the snapshot it belongs
//! to is the peak. The peak heap size is the sample that was read last before
//! the first peak marker.

use crate::text::{
    chars_of, decimal_u64, is_space, lemma_trim_end_keeps_first, parse_u64, starts_with, trim,
    trim_start, trimmed_equals,
};
use vstd::prelude::*;
use vstd::slice::*;

verus! {

/// Why a report gave no peak heap size.
#[derive(Debug, Clone, Copy, PartialEq, Eq, Structural)]
pub enum ParseError {
    /// A heap-sample line holds something other than an unsigned number.
    MalformedValue,
    /// A peak marker came before any heap sample.
    PeakNotPreceded,
    /// The report ended without a peak marker.
    PeakMarkerMissing,
}

/// What a heap-sample line begins with.
pub open spec fn sample_prefix() -> Seq<char> {
    "mem_heap_B="@
}

/// The text of a peak-marker line.
pub open spec fn peak_marker() -> Seq<char> {
    "heap_tree=peak"@
}

/// Whether `line` is a heap-sample line.
pub open spec fn is_sample_line(line: Seq<char>) -> bool {
    sample_prefix().is_prefix_of(line)
}

/// The number that a heap-sample line carries, if what follows its prefix is
/// one.
pub open spec fn sample_value(line: Seq<char>) -> Option<u64> {
    decimal_u64(line.skip(sample_prefix().len() as int))
}

/// Whether `line` is a heap-sample line that carries no number.
pub open spec fn is_malformed_line(line: Seq<char>) -> bool {
    is_sample_line(line) && sample_value(line) is None
}

/// Whether `line` is a peak-marker line: no heap-sample line, and the marker
/// text once the white space round it is taken off.
pub open spec fn is_peak_line(line: Seq<char>) -> bool {
    !is_sample_line(line) && trim(line) == peak_marker()
}

/// The outcome of reading `lines` from line `from` on, with `slot` the last
/// heap sample read before it.
pub open spec fn scan_from(lines: Seq<Seq<char>>, from: int, slot: Option<u64>) -> Result<
    u64,
    ParseError,
>
    decreases lines.len() - from,
{
    if from < 0 || from >= lines.len() {
        Err(ParseError::PeakMarkerMissing)
    } else if is_sample_line(lines[from]) {
        match sample_value(lines[from]) {
            Some(v) => scan_from(lines, from + 1, Some(v)),
            None => Err(ParseError::MalformedValue),
        }
    } else if is_peak_line(lines[from]) {
        match slot {
            Some(v) => Ok(v),
            None => Err(ParseError::PeakNotPreceded),
        }
    } else {
        scan_from(lines, from + 1, slot)
    }
}

/// The peak heap size that the report `lines` gives, or why it gives none.
pub open spec fn peak_heap_bytes(lines: Seq<Seq<char>>) -> Result<u64, ParseError> {
    scan_from(lines, 0, None)
}

/// The lines of a report as sequences of characters.
pub open spec fn report_lines(report: Seq<String>) -> Seq<Seq<char>> {
    Seq::new(report.len(), |i: int| report[i]@)
}

/// The heap sample read last among the first `upto` lines, if there is one.
pub open spec fn slot_at(lines: Seq<Seq<char>>, upto: int) -> Option<u64>
    decreases upto,
{
    if upto <= 0 || upto > lines.len() {
        None
    } else if is_sample_line(lines[upto - 1]) {
        sample_value(lines[upto - 1])
    } else {
        slot_at(lines, upto - 1)
    }
}

/// While no line is a peak marker or a heap sample without a number, reading
/// goes on, and carries the heap sample read last.
pub proof fn lemma_scan_reaches(lines: Seq<Seq<char>>, to: int)
    requires
        0 <= to <= lines.len(),
        forall|k: int|
            0 <= k < to ==> !is_peak_line(#[trigger] lines[k]) && !is_malformed_line(lines[k]),
    ensures
        peak_heap_bytes(lines) == scan_from(lines, to, slot_at(lines, to)),
    decreases to,
{
    if to > 0 {
        lemma_scan_reaches(lines, to - 1);
        assert(!is_peak_line(lines[to - 1]) && !is_malformed_line(lines[to - 1]));
    }
}

/// With line `j` a heap sample and none after it before line `upto`, the
/// sample read last among the first `upto` lines is that of line `j`.
pub proof fn lemma_slot_at_last_sample(lines: Seq<Seq<char>>, j: int, upto: int)
    requires
        0 <= j < upto <= lines.len(),
        is_sample_line(lines[j]),
        forall|k: int| j < k < upto ==> !is_sample_line(#[trigger] lines[k]),
    ensures
        slot_at(lines, upto) == sample_value(lines[j]),
    decreases upto - j,
{
    if upto - 1 > j {
        assert(!is_sample_line(lines[upto - 1]));
        lemma_slot_at_last_sample(lines, j, upto - 1);
    }
}

/// With no heap sample among the first `upto` lines, none has been read.
pub proof fn lemma_slot_at_none(lines: Seq<Seq<char>>, upto: int)
    requires
        0 <= upto <= lines.len(),
        forall|k: int| 0 <= k < upto ==> !is_sample_line(#[trigger] lines[k]),
    ensures
        slot_at(lines, upto) is None,
    decreases upto,
{
    if upto > 0 {
        assert(!is_sample_line(lines[upto - 1]));
        lemma_slot_at_none(lines, upto - 1);
    }
}

/// The first line from line `from` on at which reading stops: a peak marker,
/// or a heap sample without a number. The number of lines where there is none.
pub open spec fn first_stop(lines: Seq<Seq<char>>, from: int) -> int
    decreases lines.len() - from,
{
    if from < 0 || from >= lines.len() {
        lines.len() as int
    } else if is_peak_line(lines[from]) || is_malformed_line(lines[from]) {
        from
    } else {
        first_stop(lines, from + 1)
    }
}

/// No line between `from` and the first stop is a peak marker or a heap
/// sample without a number, and the line at the first stop is one.
pub proof fn lemma_first_stop(lines: Seq<Seq<char>>, from: int)
    requires
        0 <= from <= lines.len(),
    ensures
        from <= first_stop(lines, from) <= lines.len(),
        forall|k: int|
            from <= k < first_stop(lines, from) ==> !is_peak_line(#[trigger] lines[k])
                && !is_malformed_line(lines[k]),
        first_stop(lines, from) < lines.len() ==> is_peak_line(lines[first_stop(lines, from)])
            || is_malformed_line(lines[first_stop(lines, from)]),
    decreases lines.len() - from,
{
    if from < lines.len() && !(is_peak_line(lines[from]) || is_malformed_line(lines[from])) {
        lemma_first_stop(lines, from + 1);
    }
}

/// What a report gives, in one statement. Reading stops at the first line that
/// is a peak marker or a heap sample without a number. Where there is no such
/// line, the peak marker is missing. A heap sample without a number is
/// malformed. A peak marker gives the heap sample read last before it, and is
/// not preceded where there is none.
pub proof fn lemma_peak_heap_bytes_cases(lines: Seq<Seq<char>>)
    ensures
        peak_heap_bytes(lines) == ({
            let stop = first_stop(lines, 0);
            if stop == lines.len() {
                Err::<u64, ParseError>(ParseError::PeakMarkerMissing)
            } else if is_malformed_line(lines[stop]) {
                Err(ParseError::MalformedValue)
            } else {
                match slot_at(lines, stop) {
                    Some(v) => Ok(v),
                    None => Err(ParseError::PeakNotPreceded),
                }
            }
        }),
{
    lemma_first_stop(lines, 0);
    lemma_scan_reaches(lines, first_stop(lines, 0));
}

/// A heap-sample line is no peak marker, whatever follows its prefix: to be a
/// peak marker is to be the marker text once the white space round it is
/// taken off.
pub proof fn lemma_peak_line_is_trimmed_marker(line: Seq<char>)
    ensures
        is_peak_line(line) <==> trim(line) == peak_marker(),
{
    if is_sample_line(line) {
        reveal_strlit("mem_heap_B=");
        reveal_strlit("heap_tree=peak");
        assert(line[0] == sample_prefix()[0]);
        assert(line[0] == 'm');
        assert(!is_space(line[0]));
        assert(trim_start(line) == line);
        lemma_trim_end_keeps_first(line);
        assert(trim(line)[0] == 'm');
        assert(peak_marker()[0] == 'h');
    }
}

/// A report whose heap samples all carry a number, up to its first peak marker
/// at line `p`, gives the number of the heap sample that comes last before that
/// marker, line `j`. The samples before line `j` and the lines after the marker
/// do not matter.
pub proof fn lemma_last_sample_before_peak(lines: Seq<Seq<char>>, j: int, p: int)
    requires
        0 <= j < p < lines.len(),
        is_peak_line(lines[p]),
        forall|k: int| 0 <= k < p ==> !is_peak_line(#[trigger] lines[k]),
        forall|k: int| 0 <= k < p ==> !is_malformed_line(#[trigger] lines[k]),
        is_sample_line(lines[j]),
        forall|k: int| j < k < p ==> !is_sample_line(#[trigger] lines[k]),
    ensures
        sample_value(lines[j]) is Some,
        peak_heap_bytes(lines) == Ok::<u64, ParseError>(sample_value(lines[j])->0),
{
    assert(!is_malformed_line(lines[j]));
    lemma_scan_reaches(lines, p);
    lemma_slot_at_last_sample(lines, j, p);
}

/// A report whose first peak marker, at line `p`, has no heap sample before it
/// gives `PeakNotPreceded`.
pub proof fn lemma_peak_without_sample(lines: Seq<Seq<char>>, p: int)
    requires
        0 <= p < lines.len(),
        is_peak_line(lines[p]),
        forall|k: int| 0 <= k < p ==> !is_peak_line(#[trigger] lines[k]),
        forall|k: int| 0 <= k < p ==> !is_sample_line(#[trigger] lines[k]),
    ensures
        peak_heap_bytes(lines) == Err::<u64, ParseError>(ParseError::PeakNotPreceded),
{
    lemma_scan_reaches(lines, p);
    lemma_slot_at_none(lines, p);
}

/// A report without a peak marker, whose heap samples all carry a number,
/// gives `PeakMarkerMissing`.
pub proof fn lemma_no_peak_marker(lines: Seq<Seq<char>>)
    requires
        forall|k: int| 0 <= k < lines.len() ==> !is_peak_line(#[trigger] lines[k]),
        forall|k: int| 0 <= k < lines.len() ==> !is_malformed_line(#[trigger] lines[k]),
    ensures
        peak_heap_bytes(lines) == Err::<u64, ParseError>(ParseError::PeakMarkerMissing),
{
    lemma_scan_reaches(lines, lines.len() as int);
}

/// A report with a heap sample that carries no number, at line `m`, and no
/// peak marker before it gives `MalformedValue`.
pub proof fn lemma_malformed_sample(lines: Seq<Seq<char>>, m: int)
    requires
        0 <= m < lines.len(),
        is_malformed_line(lines[m]),
        forall|k: int| 0 <= k < m ==> !is_peak_line(#[trigger] lines[k]),
    ensures
        peak_heap_bytes(lines) == Err::<u64, ParseError>(ParseError::MalformedValue),
    decreases m,
{
    if exists|k: int| 0 <= k < m && is_malformed_line(#[trigger] lines[k]) {
        let k = choose|k: int| 0 <= k < m && is_malformed_line(#[trigger] lines[k]);
        lemma_malformed_sample(lines, k);
    } else {
        lemma_scan_reaches(lines, m);
    }
}

/// Reads the report line by line and returns the heap sample read last before
/// the first peak marker.
pub fn extract_peak_heap_bytes(report: &Vec<String>) -> (r: Result<u64, ParseError>)
    ensures
        r == peak_heap_bytes(report_lines(report@)),
{
    let prefix = chars_of("mem_heap_B=");
    let marker = chars_of("heap_tree=peak");
    let ghost lines = report_lines(report@);
    let mut slot: Option<u64> = None;
    let mut i: usize = 0;
    while i < report.len()
        invariant
            i <= report.len(),
            lines == report_lines(report@),
            prefix@ == sample_prefix(),
            marker@ == peak_marker(),
            scan_from(lines, i as int, slot) == peak_heap_bytes(lines),
        decreases report.len() - i,
    {
        let line = chars_of(report[i].as_str());
        assert(line@ == lines[i as int]);
        if starts_with(line.as_slice(), prefix.as_slice()) {
            let payload = slice_subrange(line.as_slice(), prefix.len(), line.len());
            assert(payload@ =~= line@.skip(prefix@.len() as int));
            match parse_u64(payload) {
                Some(v) => {
                    slot = Some(v);
                },
                None => {
                    return Err(ParseError::MalformedValue);
                },
            }
        } else if trimmed_equals(line.as_slice(), marker.as_slice()) {
            return match slot {
                Some(v) => Ok(v),
                None => Err(ParseError::PeakNotPreceded),
            };
        }
        i += 1;
    }
    Err(ParseError::PeakMarkerMissing)
}

} // verus!
