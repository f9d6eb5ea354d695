use vstd::prelude::*;

use crate::args::{is_file_flag, scan_from, scanned};
use crate::command::{start_outcome, stop_outcome, AppendRequest};
use crate::record::is_field_text;
use crate::paths::resolved_path;
use crate::record::is_single_line;

verus! {

/// Scanning a longer list first scans the shorter one it begins with: when
/// the scan of `a` from `i` succeeds, the scan of `a + s` from `i` goes on
/// from the end of `a` with what that scan collected.
pub proof fn lemma_scan_extends(
    a: Seq<Seq<char>>,
    s: Seq<Seq<char>>,
    i: int,
    file: Option<Seq<char>>,
    positional: Seq<Seq<char>>,
)
    requires
        0 <= i <= a.len(),
        scan_from(a, i, file, positional) is Some,
    ensures
        scan_from(a + s, i, file, positional) == scan_from(
            a + s,
            a.len() as int,
            scan_from(a, i, file, positional)->Some_0.0,
            scan_from(a, i, file, positional)->Some_0.1,
        ),
    decreases a.len() - i,
{
    if i < a.len() {
        assert((a + s)[i] == a[i]);
        if is_file_flag(a[i]) {
            assert((a + s)[i + 1] == a[i + 1]);
            lemma_scan_extends(a, s, i + 2, Some(a[i + 1]), positional);
        } else {
            lemma_scan_extends(a, s, i + 1, file, positional.push(a[i]));
        }
    }
}

/// Scanning arguments none of which is a file flag only collects them.
pub proof fn lemma_scan_without_flags(
    args: Seq<Seq<char>>,
    i: int,
    file: Option<Seq<char>>,
    positional: Seq<Seq<char>>,
)
    requires
        0 <= i <= args.len(),
        forall|j: int| i <= j < args.len() ==> !is_file_flag(#[trigger] args[j]),
    ensures
        scan_from(args, i, file, positional) == Some((file, positional + args.subrange(i, args.len() as int))),
    decreases args.len() - i,
{
    if i < args.len() {
        lemma_scan_without_flags(args, i + 1, file, positional.push(args[i]));
        assert(positional.push(args[i]) + args.subrange(i + 1, args.len() as int) =~= positional
            + args.subrange(i, args.len() as int));
    } else {
        assert(positional + args.subrange(i, args.len() as int) =~= positional);
    }
}

/// The last file flag wins, wherever it stands: for any argument list that
/// splits as `a`, a file flag with its value `v`, then `c` holding no file
/// flag, where `a` scans without error, `v` is the chosen log path whatever
/// values earlier flags gave, and the positional arguments are those of `a`
/// followed by `c`. No flag value is taken as positional.
pub proof fn law_last_flag_value_wins(
    a: Seq<Seq<char>>,
    flag: Seq<char>,
    v: Seq<char>,
    c: Seq<Seq<char>>,
    env_value: Option<Seq<char>>,
    home: Option<Seq<char>>,
)
    requires
        a.len() >= 2,
        is_file_flag(flag),
        scanned(a) is Some,
        forall|j: int| 0 <= j < c.len() ==> !is_file_flag(#[trigger] c[j]),
    ensures
        scanned(a + seq![flag, v] + c) == Some((Some(v), scanned(a)->Some_0.1 + c)),
        resolved_path(scanned(a + seq![flag, v] + c)->Some_0.0, env_value, home) == Some(v),
{
    let s = seq![flag, v] + c;
    let all = a + s;
    assert(a + seq![flag, v] + c =~= all);
    let first = scanned(a)->Some_0;
    lemma_scan_extends(a, s, 2, None, Seq::empty());
    let n = a.len() as int;
    assert(all[n] == flag);
    assert(all[n + 1] == v);
    assert(scan_from(all, n, first.0, first.1) == scan_from(all, n + 2, Some(v), first.1));
    assert forall|j: int| n + 2 <= j < all.len() implies !is_file_flag(#[trigger] all[j]) by {
        assert(all[j] == c[j - n - 2]);
    }
    lemma_scan_without_flags(all, n + 2, Some(v), first.1);
    assert(all.subrange(n + 2, all.len() as int) =~= c);
}

/// Number of line feeds in a text.
pub open spec fn line_breaks(s: Seq<char>) -> nat
    decreases s.len(),
{
    if s.len() == 0 {
        0
    } else {
        line_breaks(s.drop_last()) + if s.last() == '\n' {
            1nat
        } else {
            0nat
        }
    }
}

/// The log text after appending `lines` in order, starting from `log`.
pub open spec fn appended(log: Seq<char>, lines: Seq<Seq<char>>) -> Seq<char>
    decreases lines.len(),
{
    if lines.len() == 0 {
        log
    } else {
        appended(log, lines.drop_last()) + lines.last()
    }
}

/// Line feeds of a concatenation add up.
pub proof fn lemma_line_breaks_add(a: Seq<char>, b: Seq<char>)
    ensures
        line_breaks(a + b) == line_breaks(a) + line_breaks(b),
    decreases b.len(),
{
    if b.len() > 0 {
        assert((a + b).drop_last() =~= a + b.drop_last());
        lemma_line_breaks_add(a, b.drop_last());
    }
}

/// A text without line feeds counts none.
pub proof fn lemma_no_line_breaks(s: Seq<char>)
    requires
        forall|i: int| 0 <= i < s.len() ==> s[i] != '\n',
    ensures
        line_breaks(s) == 0,
    decreases s.len(),
{
    if s.len() > 0 {
        lemma_no_line_breaks(s.drop_last());
    }
}

/// A single line holds exactly one line feed.
pub proof fn lemma_single_line_breaks(s: Seq<char>)
    requires
        is_single_line(s),
    ensures
        line_breaks(s) == 1,
{
    lemma_no_line_breaks(s.drop_last());
}

/// Appending records accumulates: the log keeps what it held as its
/// beginning, and appending `n` single-line records in order adds exactly
/// `n` lines, the records themselves in call order.
pub proof fn law_appends_accumulate(log: Seq<char>, lines: Seq<Seq<char>>)
    requires
        forall|k: int| 0 <= k < lines.len() ==> is_single_line(#[trigger] lines[k]),
    ensures
        appended(log, lines).len() >= log.len(),
        appended(log, lines).subrange(0, log.len() as int) == log,
        line_breaks(appended(log, lines)) == line_breaks(log) + lines.len(),
        lines.len() > 0 ==> appended(log, lines) == appended(log, lines.drop_last())
            + lines.last(),
    decreases lines.len(),
{
    if lines.len() > 0 {
        let rest = lines.drop_last();
        assert forall|k: int| 0 <= k < rest.len() implies is_single_line(#[trigger] rest[k]) by {
            assert(rest[k] == lines[k]);
        }
        law_appends_accumulate(log, rest);
        let before = appended(log, rest);
        lemma_line_breaks_add(before, lines.last());
        lemma_single_line_breaks(lines[lines.len() - 1]);
        assert((before + lines.last()).subrange(0, log.len() as int) =~= before.subrange(
            0,
            log.len() as int,
        ));
    }
}

/// One successful handler call: a start with a task name that is a plain
/// field, or a stop, which gave `request`.
pub open spec fn recorded_by_call(
    args: Seq<Seq<char>>,
    env_value: Option<Seq<char>>,
    request: AppendRequest,
) -> bool {
    ||| start_outcome(args, env_value, Ok(request)) && is_field_text(scanned(args)->Some_0.1[0])
    ||| stop_outcome(args, env_value, Ok(request))
}

/// The lines of a sequence of requests, in order.
pub open spec fn request_lines(requests: Seq<AppendRequest>) -> Seq<Seq<char>> {
    requests.map_values(|q: AppendRequest| q.line@)
}

/// Successful `start` and `stop` calls accumulate in the log: appending the
/// lines of `n` such calls, in call order, keeps the earlier text as the
/// beginning of the log and adds exactly `n` lines, the last call's line
/// last.
pub proof fn law_handler_records_accumulate(
    log: Seq<char>,
    args: Seq<Seq<Seq<char>>>,
    env_values: Seq<Option<Seq<char>>>,
    requests: Seq<AppendRequest>,
)
    requires
        args.len() == requests.len(),
        env_values.len() == requests.len(),
        forall|k: int|
            0 <= k < requests.len() ==> recorded_by_call(args[k], env_values[k], #[trigger] requests[k]),
    ensures
        appended(log, request_lines(requests)).subrange(0, log.len() as int) == log,
        line_breaks(appended(log, request_lines(requests))) == line_breaks(log) + requests.len(),
        requests.len() > 0 ==> appended(log, request_lines(requests)) == appended(
            log,
            request_lines(requests.drop_last()),
        ) + requests.last().line@,
{
    let lines = request_lines(requests);
    assert forall|k: int| 0 <= k < lines.len() implies is_single_line(#[trigger] lines[k]) by {
        assert(recorded_by_call(args[k], env_values[k], requests[k]));
        assert(lines[k] == requests[k].line@);
    }
    law_appends_accumulate(log, lines);
    if requests.len() > 0 {
        assert(lines.drop_last() =~= request_lines(requests.drop_last()));
    }
}

} // verus!
