use vstd::prelude::*;

verus! {

/// Text that can stand as one field of a record: no tab, no line break.
pub open spec fn is_field_text(s: Seq<char>) -> bool {
    forall|i: int| 0 <= i < s.len() ==> s[i] != '\t' && s[i] != '\n'
}

/// Exactly one line: it ends with a line feed and holds no other.
pub open spec fn is_single_line(s: Seq<char>) -> bool {
    &&& s.len() > 0
    &&& s.last() == '\n'
    &&& forall|i: int| 0 <= i < s.len() - 1 ==> s[i] != '\n'
}

/// The record of starting `task` at `timestamp`.
pub open spec fn start_line(timestamp: Seq<char>, task: Seq<char>) -> Seq<char> {
    timestamp + "\tstart\t"@ + task + "\n"@
}

/// The record of stopping at `timestamp`; its task field is empty.
pub open spec fn stop_line(timestamp: Seq<char>) -> Seq<char> {
    timestamp + "\tstop\t\n"@
}

pub open spec fn is_digit(c: char) -> bool {
    '0' <= c && c <= '9'
}

/// A character that can appear in a timestamp.
pub open spec fn is_timestamp_char(c: char) -> bool {
    is_digit(c) || c == '-' || c == '+' || c == 'T' || c == ':'
}

/// The year part of a timestamp: four digits, or a sign and at least four
/// digits for a year outside 0 to 9999.
pub open spec fn is_year_text(y: Seq<char>) -> bool {
    let digits_from = if y.len() > 0 && (y[0] == '+' || y[0] == '-') {
        1int
    } else {
        0int
    };
    &&& digits_from == 0 ==> y.len() == 4
    &&& y.len() - digits_from >= 4
    &&& forall|i: int| digits_from <= i < y.len() ==> is_digit(#[trigger] y[i])
}

/// RFC 3339 local time with whole seconds and a numeric offset:
/// `<year>-MM-DDTHH:MM:SS±HH:MM`, such as `2024-01-15T10:30:00+09:00`.
/// The fields are placed from the end, since only the year varies in width.
pub open spec fn is_rfc3339_seconds(ts: Seq<char>) -> bool {
    let n = ts.len() as int;
    &&& n >= 25
    &&& is_year_text(ts.subrange(0, n - 21))
    &&& ts[n - 21] == '-'
    &&& ts[n - 18] == '-'
    &&& ts[n - 15] == 'T'
    &&& ts[n - 12] == ':'
    &&& ts[n - 9] == ':'
    &&& (ts[n - 6] == '+' || ts[n - 6] == '-')
    &&& ts[n - 3] == ':'
    &&& is_digit(ts[n - 20]) && is_digit(ts[n - 19])
    &&& is_digit(ts[n - 17]) && is_digit(ts[n - 16])
    &&& is_digit(ts[n - 14]) && is_digit(ts[n - 13])
    &&& is_digit(ts[n - 11]) && is_digit(ts[n - 10])
    &&& is_digit(ts[n - 8]) && is_digit(ts[n - 7])
    &&& is_digit(ts[n - 5]) && is_digit(ts[n - 4])
    &&& is_digit(ts[n - 2]) && is_digit(ts[n - 1])
}

/// A timestamp is a plain field: every character is a digit or one of
/// `-`, `+`, `T`, `:`.
pub proof fn lemma_timestamp_is_field(ts: Seq<char>)
    requires
        is_rfc3339_seconds(ts),
    ensures
        is_field_text(ts),
{
    let n = ts.len() as int;
    let y = ts.subrange(0, n - 21);
    assert forall|i: int| 0 <= i < n implies ts[i] != '\t' && ts[i] != '\n' by {
        if i < n - 21 {
            assert(ts[i] == y[i]);
        }
    }
}

/// Relies on chrono's `From<SystemTime> for DateTime<Local>` and
/// `DateTime::to_rfc3339_opts` (with `SecondsFormat::Secs`, no `Z`): the
/// time `SystemTime::now()` in the local zone, as RFC 3339 with whole
/// seconds and a numeric offset. The conversion accepts times before 1970;
/// chrono still stops on a clock outside the years it can represent (about
/// 262,000 years either side of year 0) or on time zone data with no entry
/// for the instant, neither of which an argument could rule out.
/// The value depends on the clock; its form is that of every output of
/// chrono's `write_rfc3339` with these options.
#[verifier::external_body]
pub(crate) fn current_timestamp() -> (r: String)
    ensures
        is_rfc3339_seconds(r@),
{
    let now: chrono::DateTime<chrono::Local> = std::time::SystemTime::now().into();
    now.to_rfc3339_opts(chrono::SecondsFormat::Secs, false)
}

/// Formats the line that records the start of `task` at `timestamp`.
pub fn start_record(timestamp: &String, task: &String) -> (r: String)
    ensures
        r@ == start_line(timestamp@, task@),
{
    let mut line = timestamp.clone();
    line.append("\tstart\t");
    line.append(task.as_str());
    line.append("\n");
    line
}

/// Formats the line that records a stop at `timestamp`.
pub fn stop_record(timestamp: &String) -> (r: String)
    ensures
        r@ == stop_line(timestamp@),
{
    let mut line = timestamp.clone();
    line.append("\tstop\t\n");
    line
}

/// A start record whose timestamp and task name are plain fields is one
/// line of the log.
pub proof fn lemma_start_line_is_single(timestamp: Seq<char>, task: Seq<char>)
    requires
        is_field_text(timestamp),
        is_field_text(task),
    ensures
        is_single_line(start_line(timestamp, task)),
{
    reveal_strlit("\tstart\t");
    reveal_strlit("\n");
    let s = start_line(timestamp, task);
    assert forall|i: int| 0 <= i < s.len() - 1 implies s[i] != '\n' by {
        if i < timestamp.len() {
            assert(s[i] == timestamp[i]);
        } else if i < timestamp.len() + 7 {
            assert(s[i] == "\tstart\t"@[i - timestamp.len()]);
        } else {
            assert(s[i] == task[i - timestamp.len() - 7]);
        }
    }
}

/// A stop record whose timestamp is a plain field is one line of the log.
pub proof fn lemma_stop_line_is_single(timestamp: Seq<char>)
    requires
        is_field_text(timestamp),
    ensures
        is_single_line(stop_line(timestamp)),
{
    reveal_strlit("\tstop\t\n");
    let s = stop_line(timestamp);
    assert forall|i: int| 0 <= i < s.len() - 1 implies s[i] != '\n' by {
        if i < timestamp.len() {
            assert(s[i] == timestamp[i]);
        } else {
            assert(s[i] == "\tstop\t\n"@[i - timestamp.len()]);
        }
    }
}

/// The usage text, one entry per line.
pub open spec fn help_lines() -> Seq<Seq<char>> {
    seq![
        "Usage:"@,
        "  start <task_name> [-f|--file <file>]    Start tracking time for a task."@,
        "  stop [-f|--file <file>]                 Stop tracking time."@,
        "  help                                    Display this help message."@,
    ]
}

/// The usage text listing the subcommands and the file option.
pub fn help_text() -> (r: Vec<String>)
    ensures
        r.deep_view() == help_lines(),
{
    let mut lines: Vec<String> = Vec::new();
    lines.push(String::from_str("Usage:"));
    lines.push(
        String::from_str(
            "  start <task_name> [-f|--file <file>]    Start tracking time for a task.",
        ),
    );
    lines.push(String::from_str("  stop [-f|--file <file>]                 Stop tracking time."));
    lines.push(
        String::from_str("  help                                    Display this help message."),
    );
    assert(lines.deep_view() =~= help_lines());
    lines
}

} // verus!
