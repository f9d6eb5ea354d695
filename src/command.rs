use vstd::prelude::*;

use crate::args::scanned;
use crate::error::TrackError;
use crate::paths::{acceptable_path, home_needed, parse_arguments};
use crate::record::{
    current_timestamp, is_field_text, is_rfc3339_seconds, is_single_line, lemma_timestamp_is_field, lemma_start_line_is_single,
    lemma_stop_line_is_single, start_line, start_record, stop_line, stop_record,
};

verus! {

/// A line to append to the log file at `path`.
#[derive(Debug, PartialEq, Eq)]
pub struct AppendRequest {
    pub path: String,
    pub line: String,
}

/// What an invocation asks the caller to do.
#[derive(Debug, PartialEq, Eq)]
pub enum Action {
    /// Print the usage text; no file is touched.
    Help,
    /// Append one record to the log file.
    Append(AppendRequest),
}

/// What `start` gives for a full argument list and environment override.
pub open spec fn start_outcome(
    args: Seq<Seq<char>>,
    env_value: Option<Seq<char>>,
    r: Result<AppendRequest, TrackError>,
) -> bool {
    match scanned(args) {
        None => r == Err::<AppendRequest, TrackError>(TrackError::FilenameNotProvided),
        Some((file, positional)) => {
            &&& !home_needed(file, env_value) && positional.len() > 0 ==> r is Ok
            &&& !home_needed(file, env_value) && positional.len() == 0 ==> r == Err::<
                AppendRequest,
                TrackError,
            >(TrackError::TaskNameMissing)
            &&& r is Ok ==> {
                let q = r->Ok_0;
                &&& positional.len() > 0
                &&& acceptable_path(q.path@, file, env_value)
                &&& is_field_text(positional[0]) ==> is_single_line(q.line@)
                &&& exists|ts: Seq<char>|
                    is_rfc3339_seconds(ts) && q.line@ == #[trigger] start_line(ts, positional[0])
            }
            &&& r is Err ==> {
                ||| home_needed(file, env_value) && r == Err::<AppendRequest, TrackError>(
                    TrackError::HomeDirectoryUnresolvable,
                )
                ||| positional.len() == 0 && r == Err::<AppendRequest, TrackError>(
                    TrackError::TaskNameMissing,
                )
            }
        },
    }
}

/// What `stop` gives for a full argument list and environment override.
pub open spec fn stop_outcome(
    args: Seq<Seq<char>>,
    env_value: Option<Seq<char>>,
    r: Result<AppendRequest, TrackError>,
) -> bool {
    match scanned(args) {
        None => r == Err::<AppendRequest, TrackError>(TrackError::FilenameNotProvided),
        Some((file, positional)) => {
            &&& !home_needed(file, env_value) ==> r is Ok
            &&& r is Ok ==> {
                let q = r->Ok_0;
                &&& acceptable_path(q.path@, file, env_value)
                &&& is_single_line(q.line@)
                &&& exists|ts: Seq<char>|
                    is_rfc3339_seconds(ts) && q.line@ == #[trigger] stop_line(ts)
            }
            &&& r is Err ==> home_needed(file, env_value) && r == Err::<AppendRequest, TrackError>(
                TrackError::HomeDirectoryUnresolvable,
            )
        },
    }
}

/// Records the start of the task named by the first positional argument.
/// Further positional arguments are ignored. The clock is read only once
/// the path and the task name are known.
pub fn handle_start_command(args: &Vec<String>, env_value: Option<String>) -> (r: Result<
    AppendRequest,
    TrackError,
>)
    ensures
        start_outcome(args.deep_view(), env_value.deep_view(), r),
{
    let (path, positional) = match parse_arguments(args, env_value) {
        Ok(parsed) => parsed,
        Err(e) => return Err(e),
    };
    if positional.len() == 0 {
        return Err(TrackError::TaskNameMissing);
    }
    let timestamp = current_timestamp();
    let line = start_record(&timestamp, &positional[0]);
    proof {
        assert(positional.deep_view()[0] == positional@[0]@);
        lemma_timestamp_is_field(timestamp@);
        if is_field_text(positional@[0]@) {
            lemma_start_line_is_single(timestamp@, positional@[0]@);
        }
    }
    Ok(AppendRequest { path, line })
}

/// Records a stop. Positional arguments are accepted and ignored.
pub fn handle_stop_command(args: &Vec<String>, env_value: Option<String>) -> (r: Result<
    AppendRequest,
    TrackError,
>)
    ensures
        stop_outcome(args.deep_view(), env_value.deep_view(), r),
{
    let (path, _positional) = match parse_arguments(args, env_value) {
        Ok(parsed) => parsed,
        Err(e) => return Err(e),
    };
    let timestamp = current_timestamp();
    let line = stop_record(&timestamp);
    proof {
        lemma_timestamp_is_field(timestamp@);
        lemma_stop_line_is_single(timestamp@);
    }
    Ok(AppendRequest { path, line })
}

/// The same outcome with the request carried as an `Append` action.
pub open spec fn as_action(r: Result<AppendRequest, TrackError>) -> Result<Action, TrackError> {
    match r {
        Ok(q) => Ok(Action::Append(q)),
        Err(e) => Err(e),
    }
}

/// Dispatches on the subcommand at position 1 of the full argument list.
pub fn execute(args: &Vec<String>, env_value: Option<String>) -> (r: Result<Action, TrackError>)
    ensures
        args.len() < 2 ==> r == Err::<Action, TrackError>(TrackError::MissingSubcommand),
        args.len() >= 2 ==> {
            let sub = args@[1]@;
            &&& sub == "help"@ ==> r == Ok::<Action, TrackError>(Action::Help)
            &&& sub == "start"@ ==> exists|q: Result<AppendRequest, TrackError>|
                start_outcome(args.deep_view(), env_value.deep_view(), q) && r == #[trigger] as_action(q)
            &&& sub == "stop"@ ==> exists|q: Result<AppendRequest, TrackError>|
                stop_outcome(args.deep_view(), env_value.deep_view(), q) && r == #[trigger] as_action(q)
            &&& sub != "help"@ && sub != "start"@ && sub != "stop"@ ==> r == Err::<Action, TrackError>(
                TrackError::UnknownSubcommand(args@[1]),
            )
        },
{
    if args.len() < 2 {
        return Err(TrackError::MissingSubcommand);
    }
    let sub = &args[1];
    proof {
        reveal_strlit("help");
        reveal_strlit("start");
        reveal_strlit("stop");
        assert("help"@[0] != "start"@[0] && "help"@[0] != "stop"@[0]);
        assert("start"@.len() != "stop"@.len());
    }
    if *sub == String::from_str("help") {
        Ok(Action::Help)
    } else if *sub == String::from_str("start") {
        let q = handle_start_command(args, env_value);
        let r = match q {
            Ok(req) => Ok(Action::Append(req)),
            Err(e) => Err(e),
        };
        assert(r == as_action(q));
        r
    } else if *sub == String::from_str("stop") {
        let q = handle_stop_command(args, env_value);
        let r = match q {
            Ok(req) => Ok(Action::Append(req)),
            Err(e) => Err(e),
        };
        assert(r == as_action(q));
        r
    } else {
        Err(TrackError::UnknownSubcommand(sub.clone()))
    }
}

} // verus!
