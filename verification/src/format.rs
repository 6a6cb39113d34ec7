//! The format of the text that the hardware query prints.
//!
//! The text is a run of lines, and each line a run of fields that a comma
//! and a space separate. This module says what the lines of a text and the
//! fields of a line are, and proves what the reader relies on.

use vstd::prelude::*;

verus! {

/// The position of the first line feed at or after `from`, or the length of
/// the text if there is none.
pub open spec fn next_newline(text: Seq<char>, from: int) -> int
    decreases text.len() - from,
{
    if from >= text.len() {
        text.len() as int
    } else if text[from] == '\n' {
        from
    } else {
        next_newline(text, from + 1)
    }
}

/// A line without the carriage return that may end it.
pub open spec fn strip_cr(line: Seq<char>) -> Seq<char> {
    if line.len() > 0 && line.last() == '\r' {
        line.drop_last()
    } else {
        line
    }
}

/// The lines of the text from position `from` on.
///
/// A line ends at a line feed, or at a carriage return directly followed by
/// a line feed; neither belongs to the line. The last line needs no line
/// feed, and keeps a carriage return that no line feed follows. After the
/// last line feed no empty line follows.
pub open spec fn lines_from(text: Seq<char>, from: int) -> Seq<Seq<char>>
    decreases text.len() - from,
{
    if from >= text.len() {
        Seq::empty()
    } else {
        let at = next_newline(text, from);
        if from <= at < text.len() {
            seq![strip_cr(text.subrange(from, at))] + lines_from(text, at + 1)
        } else {
            seq![text.subrange(from, text.len() as int)]
        }
    }
}

/// The lines of the text.
pub open spec fn lines(text: Seq<char>) -> Seq<Seq<char>> {
    lines_from(text, 0)
}

/// A comma followed by a space stands at `at`.
pub open spec fn separator_at(line: Seq<char>, at: int) -> bool {
    0 <= at && at + 1 < line.len() && line[at] == ',' && line[at + 1] == ' '
}

/// The position of the first separator at or after `from`, or the length of
/// the line if there is none.
pub open spec fn next_separator(line: Seq<char>, from: int) -> int
    decreases line.len() - from,
{
    if from + 1 >= line.len() {
        line.len() as int
    } else if separator_at(line, from) {
        from
    } else {
        next_separator(line, from + 1)
    }
}

/// The fields of the line from position `from` on.
pub open spec fn fields_from(line: Seq<char>, from: int) -> Seq<Seq<char>>
    decreases line.len() - from,
{
    let at = next_separator(line, from);
    if from <= at && at + 2 <= line.len() {
        seq![line.subrange(from, at)] + fields_from(line, at + 2)
    } else {
        seq![line.subrange(from, line.len() as int)]
    }
}

/// The fields of a line: what stands between its separators, from left to
/// right. A line without a separator is one field.
pub open spec fn split_fields(line: Seq<char>) -> Seq<Seq<char>> {
    fields_from(line, 0)
}

/// The fields, put together again with a separator between each two.
pub open spec fn join_fields(fields: Seq<Seq<char>>) -> Seq<char>
    decreases fields.len(),
{
    if fields.len() == 0 {
        Seq::empty()
    } else if fields.len() == 1 {
        fields[0]
    } else {
        fields[0] + seq![',', ' '] + join_fields(fields.drop_first())
    }
}

/// The text holds no line feed.
pub open spec fn has_no_newline(text: Seq<char>) -> bool {
    forall|i: int| 0 <= i < text.len() ==> text[i] != '\n'
}

/// The text holds no separator.
pub open spec fn has_no_separator(text: Seq<char>) -> bool {
    forall|i: int| !separator_at(text, i)
}

/// The text is empty or ends in a line feed: what follows it starts a new line.
pub open spec fn ends_its_lines(text: Seq<char>) -> bool {
    text.len() == 0 || text.last() == '\n'
}

/// `next_newline` stays between `from` and the end of the text. Where it is
/// not the end, a line feed stands there, and none stands before it.
pub proof fn lemma_next_newline_bounds(text: Seq<char>, from: int)
    requires
        0 <= from <= text.len(),
    ensures
        from <= next_newline(text, from) <= text.len(),
        next_newline(text, from) < text.len() ==> text[next_newline(text, from)] == '\n',
        forall|i: int| from <= i < next_newline(text, from) ==> text[i] != '\n',
    decreases text.len() - from,
{
    if from < text.len() && text[from] != '\n' {
        lemma_next_newline_bounds(text, from + 1);
    }
}

/// `next_separator` stays between `from` and the end of the line. Where it
/// is not the end, a separator stands there, and none stands before it.
pub proof fn lemma_next_separator_bounds(line: Seq<char>, from: int)
    requires
        0 <= from <= line.len(),
    ensures
        from <= next_separator(line, from) <= line.len(),
        next_separator(line, from) < line.len() ==> separator_at(
            line,
            next_separator(line, from),
        ),
        forall|i: int| from <= i < next_separator(line, from) ==> !separator_at(line, i),
    decreases line.len() - from,
{
    if from + 1 < line.len() && !separator_at(line, from) {
        lemma_next_separator_bounds(line, from + 1);
    }
}

/// A line has at least one field.
pub proof fn lemma_fields_nonempty(line: Seq<char>, from: int)
    requires
        0 <= from <= line.len(),
    ensures
        fields_from(line, from).len() >= 1,
    decreases line.len() - from,
{
    lemma_next_separator_bounds(line, from);
}

/// No line holds a line feed.
pub proof fn lemma_lines_hold_no_newline(text: Seq<char>, from: int)
    requires
        0 <= from <= text.len(),
    ensures
        forall|i: int|
            0 <= i < lines_from(text, from).len() ==> has_no_newline(
                #[trigger] lines_from(text, from)[i],
            ),
    decreases text.len() - from,
{
    if from < text.len() {
        let at = next_newline(text, from);
        lemma_next_newline_bounds(text, from);
        if at < text.len() {
            lemma_lines_hold_no_newline(text, at + 1);
            let first = strip_cr(text.subrange(from, at));
            let rest = lines_from(text, at + 1);
            assert(has_no_newline(text.subrange(from, at)));
            assert(has_no_newline(first));
            assert forall|i: int| 0 <= i < lines_from(text, from).len() implies has_no_newline(
                #[trigger] lines_from(text, from)[i],
            ) by {
                if i > 0 {
                    assert(lines_from(text, from)[i] == rest[i - 1]);
                }
            }
        } else {
            assert(has_no_newline(text.subrange(from, text.len() as int)));
        }
    }
}

/// No field holds a separator.
pub proof fn lemma_fields_hold_no_separator(line: Seq<char>, from: int)
    requires
        0 <= from <= line.len(),
    ensures
        forall|i: int|
            0 <= i < fields_from(line, from).len() ==> has_no_separator(
                #[trigger] fields_from(line, from)[i],
            ),
    decreases line.len() - from,
{
    let at = next_separator(line, from);
    lemma_next_separator_bounds(line, from);
    if at < line.len() {
        lemma_fields_hold_no_separator(line, at + 2);
        let first = line.subrange(from, at);
        let rest = fields_from(line, at + 2);
        assert forall|k: int| !separator_at(first, k) by {
            if separator_at(first, k) {
                assert(separator_at(line, from + k));
            }
        }
        assert forall|i: int| 0 <= i < fields_from(line, from).len() implies has_no_separator(
            #[trigger] fields_from(line, from)[i],
        ) by {
            if i > 0 {
                assert(fields_from(line, from)[i] == rest[i - 1]);
            }
        }
    } else {
        let last = line.subrange(from, line.len() as int);
        assert forall|k: int| !separator_at(last, k) by {
            if separator_at(last, k) {
                assert(separator_at(line, from + k));
            }
        }
    }
}

/// The fields of a line, put together again with a separator between each
/// two, are the line.
pub proof fn lemma_fields_join(line: Seq<char>, from: int)
    requires
        0 <= from <= line.len(),
    ensures
        join_fields(fields_from(line, from)) == line.subrange(from, line.len() as int),
    decreases line.len() - from,
{
    let at = next_separator(line, from);
    lemma_next_separator_bounds(line, from);
    if at < line.len() {
        lemma_fields_join(line, at + 2);
        lemma_fields_nonempty(line, at + 2);
        let fields = fields_from(line, from);
        assert(fields.drop_first() =~= fields_from(line, at + 2));
        assert(line.subrange(from, at) + seq![',', ' '] + line.subrange(
            at + 2,
            line.len() as int,
        ) =~= line.subrange(from, line.len() as int));
    }
}

/// Behind a text `a`, the text `b` is searched for line feeds as it is alone.
proof fn lemma_next_newline_shift(a: Seq<char>, b: Seq<char>, from: int)
    requires
        0 <= from <= b.len(),
    ensures
        next_newline(a + b, a.len() + from) == a.len() + next_newline(b, from),
    decreases b.len() - from,
{
    if from < b.len() && b[from] != '\n' {
        lemma_next_newline_shift(a, b, from + 1);
    }
}

/// Behind a text `a`, the text `b` has the lines that it has alone.
proof fn lemma_lines_shift(a: Seq<char>, b: Seq<char>, from: int)
    requires
        0 <= from <= b.len(),
    ensures
        lines_from(a + b, a.len() + from) == lines_from(b, from),
    decreases b.len() - from,
{
    if from < b.len() {
        let at = next_newline(b, from);
        lemma_next_newline_bounds(b, from);
        lemma_next_newline_shift(a, b, from);
        if at < b.len() {
            assert((a + b).subrange(a.len() + from, a.len() + at) =~= b.subrange(from, at));
            lemma_lines_shift(a, b, at + 1);
        } else {
            assert((a + b).subrange(a.len() + from, (a + b).len() as int) =~= b.subrange(
                from,
                b.len() as int,
            ));
        }
    }
}

/// A line feed that is found in `a` is found there too when `b` follows.
proof fn lemma_next_newline_prefix(a: Seq<char>, b: Seq<char>, from: int)
    requires
        0 <= from <= a.len(),
        next_newline(a, from) < a.len(),
    ensures
        next_newline(a + b, from) == next_newline(a, from),
    decreases a.len() - from,
{
    if from < a.len() && a[from] != '\n' {
        lemma_next_newline_prefix(a, b, from + 1);
    }
}

/// The lines from `from` on of a text that ends its lines, followed by
/// another text, are its own lines from there on and then those of the other.
proof fn lemma_lines_prefix(a: Seq<char>, b: Seq<char>, from: int)
    requires
        0 <= from <= a.len(),
        ends_its_lines(a),
    ensures
        lines_from(a + b, from) == lines_from(a, from) + lines_from(b, 0),
    decreases a.len() - from,
{
    if from < a.len() {
        let at = next_newline(a, from);
        lemma_next_newline_bounds(a, from);
        assert(at < a.len());
        lemma_next_newline_prefix(a, b, from);
        assert((a + b).subrange(from, at) =~= a.subrange(from, at));
        lemma_lines_prefix(a, b, at + 1);
    } else {
        lemma_lines_shift(a, b, 0);
    }
}

/// After a text that is empty or ends in a line feed, another text adds its
/// own lines and changes none.
pub proof fn lemma_lines_of_concat(a: Seq<char>, b: Seq<char>)
    requires
        ends_its_lines(a),
    ensures
        lines(a + b) == lines(a) + lines(b),
{
    lemma_lines_prefix(a, b, 0);
}

/// A text without a line feed, followed by one, is one line: the text
/// without the carriage return that may end it.
pub proof fn lemma_terminated_line(line: Seq<char>)
    requires
        has_no_newline(line),
    ensures
        lines(line + seq!['\n']) == seq![strip_cr(line)],
{
    let text = line + seq!['\n'];
    lemma_next_newline_bounds(text, 0);
    let at = next_newline(text, 0);
    assert(text[line.len() as int] == '\n');
    assert(at == line.len());
    assert(text.subrange(0, at) =~= line);
    assert(lines_from(text, at + 1) =~= Seq::<Seq<char>>::empty());
}

/// A text without a line feed is, if it is not empty, one line: itself.
pub proof fn lemma_unterminated_line(line: Seq<char>)
    requires
        has_no_newline(line),
    ensures
        lines(line) == if line.len() == 0 {
            Seq::<Seq<char>>::empty()
        } else {
            seq![line]
        },
{
    if line.len() > 0 {
        lemma_next_newline_bounds(line, 0);
        assert(line.subrange(0, line.len() as int) =~= line);
    }
}

} // verus!
