use vstd::prelude::*;

use crate::args::{scan_arguments, scanned};
use crate::error::TrackError;

verus! {

/// File name of the log inside the home directory.
pub open spec fn default_file_name() -> Seq<char> {
    "working_time_record.txt"@
}

/// The default log path: the fixed file name joined onto the home
/// directory, with a separating `/` unless the directory already ends in one.
pub open spec fn default_path_of(home: Seq<char>) -> Seq<char> {
    if home.len() > 0 && home.last() == '/' {
        home + default_file_name()
    } else {
        home + "/"@ + default_file_name()
    }
}

/// Whether an environment override is usable: set and not empty.
pub open spec fn usable_override(env_value: Option<Seq<char>>) -> bool {
    env_value is Some && env_value->Some_0.len() > 0
}

/// The log path chosen by precedence: an explicit flag, then a usable
/// environment override, then the default under the home directory.
/// `None` when only the home directory could decide and it is unknown.
pub open spec fn resolved_path(
    flag: Option<Seq<char>>,
    env_value: Option<Seq<char>>,
    home: Option<Seq<char>>,
) -> Option<Seq<char>> {
    if flag is Some {
        flag
    } else if usable_override(env_value) {
        env_value
    } else if home is Some {
        Some(default_path_of(home->Some_0))
    } else {
        None
    }
}

/// Only the home directory can decide the path: no flag, no usable override.
pub open spec fn home_needed(flag: Option<Seq<char>>, env_value: Option<Seq<char>>) -> bool {
    flag is None && !usable_override(env_value)
}

/// `path` is a path that the precedence rules can give for this flag and
/// override, whatever the home directory turns out to be.
pub open spec fn acceptable_path(
    path: Seq<char>,
    flag: Option<Seq<char>>,
    env_value: Option<Seq<char>>,
) -> bool {
    if flag is Some {
        path == flag->Some_0
    } else if usable_override(env_value) {
        path == env_value->Some_0
    } else {
        exists|home: Seq<char>| path == #[trigger] default_path_of(home)
    }
}

/// Relies on dirs::home_dir for the current user's home directory. It is
/// read from the process environment or the user database, so nothing is
/// promised of it; a directory whose path is not UTF-8 counts as unknown.
#[verifier::external_body]
fn home_directory() -> (r: Option<String>) {
    dirs::home_dir().and_then(|p| p.to_str().map(|s| s.to_string()))
}

/// Builds the default log path under `home`.
pub fn default_log_path(home: &String) -> (r: String)
    ensures
        r@ == default_path_of(home@),
{
    let n = home.as_str().unicode_len();
    let mut path = home.clone();
    if n == 0 || home.as_str().get_char(n - 1) != '/' {
        path.append("/");
    }
    path.append("working_time_record.txt");
    path
}

/// Picks the log path from an explicit flag value, the environment
/// override and the home directory, in that order of precedence.
pub fn resolve_file_path(
    flag: Option<String>,
    env_value: Option<String>,
    home: Option<String>,
) -> (r: Result<String, TrackError>)
    ensures
        match resolved_path(flag.deep_view(), env_value.deep_view(), home.deep_view()) {
            Some(p) => r is Ok && r->Ok_0@ == p,
            None => r == Err::<String, TrackError>(TrackError::HomeDirectoryUnresolvable),
        },
{
    match flag {
        Some(f) => Ok(f),
        None => match env_value {
            Some(e) if e.as_str().unicode_len() > 0 => Ok(e),
            _ => match home {
                Some(h) => Ok(default_log_path(&h)),
                None => Err(TrackError::HomeDirectoryUnresolvable),
            },
        },
    }
}

/// Resolves the log path and collects the positional arguments of a full
/// argument list. `env_value` is the value of the `WORKING_TIME_RECORD`
/// environment variable, if set. The home directory is looked up only when
/// neither a flag nor a usable override decides the path.
pub fn parse_arguments(args: &Vec<String>, env_value: Option<String>) -> (r: Result<
    (String, Vec<String>),
    TrackError,
>)
    ensures
        match scanned(args.deep_view()) {
            None => r == Err::<(String, Vec<String>), TrackError>(TrackError::FilenameNotProvided),
            Some((file, positional)) => {
                &&& !home_needed(file, env_value.deep_view()) ==> r is Ok
                &&& r is Ok ==> acceptable_path(r->Ok_0.0@, file, env_value.deep_view())
                    && r->Ok_0.1.deep_view() == positional
                &&& r is Err ==> home_needed(file, env_value.deep_view()) && r == Err::<
                    (String, Vec<String>),
                    TrackError,
                >(TrackError::HomeDirectoryUnresolvable)
            },
        },
{
    match scan_arguments(args) {
        Err(e) => Err(e),
        Ok((file, positional)) => {
            let needs_home = match (&file, &env_value) {
                (None, None) => true,
                (None, Some(e)) => e.as_str().unicode_len() == 0,
                _ => false,
            };
            let home = if needs_home {
                home_directory()
            } else {
                None
            };
            match resolve_file_path(file, env_value, home) {
                Ok(path) => Ok((path, positional)),
                Err(e) => Err(e),
            }
        },
    }
}

} // verus!
