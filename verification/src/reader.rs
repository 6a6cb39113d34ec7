//! Reading the text that the hardware query prints.
//!
//! The query prints one line per GPU: its name, its current MIG mode and its
//! pending MIG mode, separated by a comma and a space. A line that does not
//! have exactly three fields is no reading and is passed over.

use crate::error::{result_view, Error, ErrorView};
use crate::executor::{command, command_result, HardwareCommand, ProcessOutcome, ProcessOutcomeView};
use crate::format::{
    ends_its_lines,
    fields_from,
    has_no_newline,
    lemma_fields_nonempty,
    lemma_lines_of_concat,
    lemma_next_separator_bounds,
    lemma_terminated_line,
    lemma_unterminated_line,
    lines,
    lines_from,
    next_newline,
    next_separator,
    split_fields,
    strip_cr,
};
use crate::state::{GpuModeRecord, GpuModeRecordView, MigState};
use vstd::prelude::*;

verus! {

/// The mode that a field names. Only the exact words count.
pub open spec fn state_of_field(field: Seq<char>) -> MigState {
    if field == "Enabled"@ {
        MigState::Enabled
    } else if field == "Disabled"@ {
        MigState::Disabled
    } else {
        MigState::Unknown
    }
}

/// The reading that a line holds, if it has exactly three fields.
pub open spec fn record_of_line(line: Seq<char>) -> Option<GpuModeRecordView> {
    let fields = split_fields(line);
    if fields.len() == 3 {
        Some(
            GpuModeRecordView {
                name: fields[0],
                current: state_of_field(fields[1]),
                pending: state_of_field(fields[2]),
            },
        )
    } else {
        None
    }
}

/// The readings that the lines hold, in order.
pub open spec fn records_of_lines(lines: Seq<Seq<char>>) -> Seq<GpuModeRecordView>
    decreases lines.len(),
{
    if lines.len() == 0 {
        Seq::empty()
    } else {
        let rest = records_of_lines(lines.drop_first());
        match record_of_line(lines[0]) {
            Some(record) => seq![record] + rest,
            None => rest,
        }
    }
}

/// The snapshot that the query output holds.
pub open spec fn parse_text(text: Seq<char>) -> Seq<GpuModeRecordView> {
    records_of_lines(lines(text))
}

/// What the outcome of the hardware query amounts to: the snapshot that its
/// output holds, or the error of a query that did not start or failed.
pub open spec fn query_result(outcome: ProcessOutcomeView) -> Result<
    Seq<GpuModeRecordView>,
    ErrorView,
> {
    match command_result(HardwareCommand::QueryModes.program(), outcome) {
        Ok(text) => Ok(parse_text(text)),
        Err(error) => Err(error),
    }
}

/// Every reading that lines hold is raw: neither of its modes is `Transition`.
pub proof fn lemma_readings_are_raw(lines: Seq<Seq<char>>)
    ensures
        forall|i: int|
            0 <= i < records_of_lines(lines).len() ==> (#[trigger] records_of_lines(
                lines,
            )[i]).is_raw(),
    decreases lines.len(),
{
    if lines.len() > 0 {
        let rest = records_of_lines(lines.drop_first());
        lemma_readings_are_raw(lines.drop_first());
        if record_of_line(lines[0]) is Some {
            assert forall|i: int| 0 <= i < records_of_lines(lines).len() implies (
            #[trigger] records_of_lines(lines)[i]).is_raw() by {
                if i > 0 {
                    assert(records_of_lines(lines)[i] == rest[i - 1]);
                }
            }
        }
    }
}

/// The readings of two runs of lines, one after the other, are the readings
/// of the first followed by the readings of the second.
pub proof fn lemma_records_of_concat(a: Seq<Seq<char>>, b: Seq<Seq<char>>)
    ensures
        records_of_lines(a + b) == records_of_lines(a) + records_of_lines(b),
    decreases a.len(),
{
    if a.len() > 0 {
        let rest = a.drop_first();
        assert((a + b).drop_first() =~= rest + b);
        lemma_records_of_concat(rest, b);
    }
}

/// A line that does not have exactly three fields is skipped: with it or
/// without it among them, the lines hold the same readings.
pub proof fn lemma_malformed_line_is_skipped(
    before: Seq<Seq<char>>,
    line: Seq<char>,
    after: Seq<Seq<char>>,
)
    requires
        split_fields(line).len() != 3,
    ensures
        records_of_lines(before + seq![line] + after) == records_of_lines(before + after),
{
    let single = seq![line];
    assert(records_of_lines(single.drop_first()) =~= Seq::<GpuModeRecordView>::empty());
    lemma_records_of_concat(before, single);
    lemma_records_of_concat(before + single, after);
    lemma_records_of_concat(before, after);
}

/// A line of the query output that does not have exactly three fields is
/// skipped: the snapshot is the one that the output holds without that line.
pub proof fn lemma_malformed_output_line_is_skipped(
    before: Seq<char>,
    line: Seq<char>,
    after: Seq<char>,
)
    requires
        ends_its_lines(before),
        has_no_newline(line),
        split_fields(strip_cr(line)).len() != 3,
    ensures
        parse_text(before + line + seq!['\n'] + after) == parse_text(before + after),
{
    let terminated = line + seq!['\n'];
    assert(before + line + seq!['\n'] + after =~= before + (terminated + after));
    lemma_lines_of_concat(before, terminated + after);
    lemma_lines_of_concat(terminated, after);
    lemma_terminated_line(line);
    lemma_lines_of_concat(before, after);
    assert(lines(before) + (seq![strip_cr(line)] + lines(after)) =~= lines(before)
        + seq![strip_cr(line)] + lines(after));
    lemma_malformed_line_is_skipped(lines(before), strip_cr(line), lines(after));
}

/// A last line without a line feed that does not have exactly three fields
/// is skipped too.
pub proof fn lemma_malformed_last_line_is_skipped(before: Seq<char>, line: Seq<char>)
    requires
        ends_its_lines(before),
        has_no_newline(line),
        split_fields(line).len() != 3,
    ensures
        parse_text(before + line) == parse_text(before),
{
    lemma_lines_of_concat(before, line);
    lemma_unterminated_line(line);
    if line.len() > 0 {
        lemma_malformed_line_is_skipped(lines(before), line, Seq::empty());
    }
}

/// The characters of a string, one by one.
pub fn to_chars(text: &str) -> (chars: Vec<char>)
    ensures
        chars@ == text@,
{
    let mut chars: Vec<char> = Vec::new();
    for c in it: text.chars()
        invariant
            chars@ == it.seq().take(it.index() as int),
            it.seq() == text@,
    {
        chars.push(c);
    }
    chars
}

/// Finds the first line feed at or after `from`.
fn find_newline(chars: &Vec<char>, from: usize) -> (at: usize)
    requires
        from <= chars.len(),
    ensures
        from <= at <= chars.len(),
        at == next_newline(chars@, from as int),
{
    let mut at: usize = from;
    while at < chars.len() && chars[at] != '\n'
        invariant
            from <= at <= chars.len(),
            next_newline(chars@, from as int) == next_newline(chars@, at as int),
        decreases chars.len() - at,
    {
        at += 1;
    }
    at
}

/// Finds the first separator at or after `from` in the line that spans
/// `start..end` of `chars`. Without one the result is `end`.
fn find_separator(chars: &Vec<char>, start: usize, from: usize, end: usize) -> (at: usize)
    requires
        start <= from <= end <= chars.len(),
    ensures
        from <= at <= end,
        at < end ==> at + 2 <= end,
        at - start == next_separator(chars@.subrange(start as int, end as int), from - start),
{
    let ghost line = chars@.subrange(start as int, end as int);
    let mut at: usize = from;
    while end - at >= 2 && !(chars[at] == ',' && chars[at + 1] == ' ')
        invariant
            start <= from <= at <= end <= chars.len(),
            line == chars@.subrange(start as int, end as int),
            next_separator(line, from - start) == next_separator(line, at - start),
        decreases end - at,
    {
        at += 1;
    }
    if end - at >= 2 {
        at
    } else {
        end
    }
}

/// Reads the mode that the field `from..to` of `chars` names.
fn parse_state(chars: &Vec<char>, from: usize, to: usize) -> (state: MigState)
    requires
        from <= to <= chars.len(),
    ensures
        state == state_of_field(chars@.subrange(from as int, to as int)),
        state != MigState::Transition,
{
    let ghost field = chars@.subrange(from as int, to as int);
    proof {
        reveal_strlit("Enabled");
        reveal_strlit("Disabled");
    }
    let len = to - from;
    if len == 7 && chars[from] == 'E' && chars[from + 1] == 'n' && chars[from + 2] == 'a'
        && chars[from + 3] == 'b' && chars[from + 4] == 'l' && chars[from + 5] == 'e'
        && chars[from + 6] == 'd' {
        assert(field =~= "Enabled"@);
        MigState::Enabled
    } else if len == 8 && chars[from] == 'D' && chars[from + 1] == 'i' && chars[from + 2] == 's'
        && chars[from + 3] == 'a' && chars[from + 4] == 'b' && chars[from + 5] == 'l'
        && chars[from + 6] == 'e' && chars[from + 7] == 'd' {
        assert(field =~= "Disabled"@);
        MigState::Disabled
    } else {
        proof {
            // Were the field one of the two words, a branch above had been taken.
            if field == "Enabled"@ {
                assert(field.len() == 7);
                assert(field[0] == 'E' && field[1] == 'n' && field[2] == 'a' && field[3] == 'b'
                    && field[4] == 'l' && field[5] == 'e' && field[6] == 'd');
            }
            if field == "Disabled"@ {
                assert(field.len() == 8);
                assert(field[0] == 'D' && field[1] == 'i' && field[2] == 's' && field[3] == 'a'
                    && field[4] == 'b' && field[5] == 'l' && field[6] == 'e' && field[7]
                    == 'd');
            }
        }
        MigState::Unknown
    }
}

/// Reads the line that spans `start..end` of the text.
fn parse_line(text: &str, chars: &Vec<char>, start: usize, end: usize) -> (record: Option<
    GpuModeRecord,
>)
    requires
        chars@ == text@,
        start <= end <= chars.len(),
    ensures
        record.deep_view() == record_of_line(chars@.subrange(start as int, end as int)),
        record matches Some(r) ==> r.is_raw(),
{
    let ghost line = chars@.subrange(start as int, end as int);
    let first = find_separator(chars, start, start, end);
    proof {
        reveal_with_fuel(fields_from, 4);
        lemma_next_separator_bounds(line, 0);
    }
    if first >= end {
        return None;
    }
    let second = find_separator(chars, start, first + 2, end);
    proof {
        lemma_next_separator_bounds(line, first + 2 - start);
    }
    if second >= end {
        return None;
    }
    let third = find_separator(chars, start, second + 2, end);
    proof {
        lemma_next_separator_bounds(line, second + 2 - start);
    }
    if third < end {
        proof {
            lemma_fields_nonempty(line, third + 2 - start);
        }
        return None;
    }
    let current = parse_state(chars, first + 2, second);
    let pending = parse_state(chars, second + 2, end);
    let name = text.substring_char(start, first).to_owned();
    proof {
        let fields = split_fields(line);
        assert(fields[0] =~= chars@.subrange(start as int, first as int));
        assert(fields[1] =~= chars@.subrange(first + 2, second as int));
        assert(fields[2] =~= chars@.subrange(second + 2, end as int));
    }
    Some(GpuModeRecord { name, current, pending })
}

/// Parses the output of the hardware query into a snapshot.
///
/// Each line with exactly three fields gives one reading, in the order of
/// the lines; every other line is passed over.
pub fn parse_query_output(output: &str) -> (records: Vec<GpuModeRecord>)
    ensures
        records.deep_view() == parse_text(output@),
        forall|i: int| 0 <= i < records.len() ==> (#[trigger] records[i]).is_raw(),
{
    let chars = to_chars(output);
    let mut records: Vec<GpuModeRecord> = Vec::new();
    let mut start: usize = 0;
    while start < chars.len()
        invariant
            chars@ == output@,
            start <= chars.len(),
            records.deep_view() + records_of_lines(lines_from(chars@, start as int))
                == parse_text(chars@),
            forall|i: int| 0 <= i < records.len() ==> (#[trigger] records[i]).is_raw(),
        decreases chars.len() - start,
    {
        let newline = find_newline(&chars, start);
        let terminated = newline < chars.len();
        let end = if terminated && newline > start && chars[newline - 1] == '\r' {
            newline - 1
        } else {
            newline
        };
        let next = if terminated {
            newline + 1
        } else {
            newline
        };
        proof {
            // The line is the first of those that are left, and the others
            // begin at `next`.
            let line = chars@.subrange(start as int, end as int);
            if terminated {
                assert(line =~= strip_cr(chars@.subrange(start as int, newline as int)));
            }
            assert(lines_from(chars@, start as int).drop_first() =~= lines_from(
                chars@,
                next as int,
            ));
        }
        if let Some(record) = parse_line(output, &chars, start, end) {
            records.push(record);
        }
        start = next;
    }
    records
}

/// Judges the outcome of the hardware query and parses its output.
pub fn run_gpu_query(outcome: ProcessOutcome) -> (result: Result<Vec<GpuModeRecord>, Error>)
    ensures
        result_view(result) == query_result(outcome@),
        result matches Ok(records) ==> forall|i: int|
            0 <= i < records.len() ==> (#[trigger] records[i]).is_raw(),
{
    match command(HardwareCommand::QueryModes.bin_path(), outcome) {
        Ok(output) => Ok(parse_query_output(output.as_str())),
        Err(error) => Err(error),
    }
}

} // verus!
