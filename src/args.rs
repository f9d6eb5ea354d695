use vstd::prelude::*;

use crate::error::TrackError;

verus! {

/// The first two arguments (program name and subcommand) are not scanned.
pub const FIRST_OPTION_INDEX: usize = 2;

/// `-f` and `--file` introduce the log file path.
pub open spec fn is_file_flag(a: Seq<char>) -> bool {
    a == "-f"@ || a == "--file"@
}

/// Scans `args` from position `i` on, given the file override and the
/// positional arguments collected before `i`. A file flag takes the argument
/// after it as the path, replacing any earlier one; every other argument is
/// positional. `None` means a file flag had nothing after it.
pub open spec fn scan_from(
    args: Seq<Seq<char>>,
    i: int,
    file: Option<Seq<char>>,
    positional: Seq<Seq<char>>,
) -> Option<(Option<Seq<char>>, Seq<Seq<char>>)>
    decreases args.len() - i,
{
    if i >= args.len() {
        Some((file, positional))
    } else if is_file_flag(args[i]) {
        if i + 1 < args.len() {
            scan_from(args, i + 2, Some(args[i + 1]), positional)
        } else {
            None
        }
    } else {
        scan_from(args, i + 1, file, positional.push(args[i]))
    }
}

/// The file override and the positional arguments of a full argument list.
pub open spec fn scanned(args: Seq<Seq<char>>) -> Option<(Option<Seq<char>>, Seq<Seq<char>>)> {
    scan_from(args, FIRST_OPTION_INDEX as int, None, Seq::empty())
}

fn is_file_flag_arg(a: &String) -> (r: bool)
    ensures
        r == is_file_flag(a@),
{
    let short = String::from_str("-f");
    let long = String::from_str("--file");
    *a == short || *a == long
}

/// Splits the arguments after the subcommand into the last `-f` / `--file`
/// value, if any, and the other arguments in their order.
pub fn scan_arguments(args: &Vec<String>) -> (r: Result<(Option<String>, Vec<String>), TrackError>)
    ensures
        match scanned(args.deep_view()) {
            Some((file, positional)) => r is Ok && r->Ok_0.0.deep_view() == file
                && r->Ok_0.1.deep_view() == positional,
            None => r == Err::<(Option<String>, Vec<String>), TrackError>(
                TrackError::FilenameNotProvided,
            ),
        },
{
    let ghost all = args.deep_view();
    let mut file: Option<String> = None;
    let mut positional: Vec<String> = Vec::new();
    let mut i: usize = FIRST_OPTION_INDEX;
    assert(positional.deep_view() =~= Seq::<Seq<char>>::empty());
    while i < args.len()
        invariant
            all == args.deep_view(),
            scan_from(all, i as int, file.deep_view(), positional.deep_view()) == scanned(all),
        decreases args.len() - i,
    {
        if is_file_flag_arg(&args[i]) {
            if i + 1 < args.len() {
                file = Some(args[i + 1].clone());
                i = i + 2;
            } else {
                return Err(TrackError::FilenameNotProvided);
            }
        } else {
            let ghost before = positional.deep_view();
            positional.push(args[i].clone());
            assert(positional.deep_view() =~= before.push(all[i as int]));
            i = i + 1;
        }
    }
    Ok((file, positional))
}

} // verus!
