use vstd::prelude::*;

verus! {

/// The closed set of ways an invocation can fail.
#[derive(Debug, PartialEq, Eq)]
pub enum TrackError {
    /// No subcommand was given.
    MissingSubcommand,
    /// The subcommand is not one of `help`, `start`, `stop`.
    UnknownSubcommand(String),
    /// `start` was given without a task name.
    TaskNameMissing,
    /// `-f` / `--file` was the last argument, with no path after it.
    FilenameNotProvided,
    /// The default log path was needed but the home directory is unknown.
    HomeDirectoryUnresolvable,
    /// Opening or writing the log file failed; holds the system's message.
    IoFailure(String),
}

pub open spec fn missing_subcommand_text() -> Seq<char> {
    "No subcommand provided."@
}

pub open spec fn unknown_subcommand_text(name: Seq<char>) -> Seq<char> {
    "Invalid subcommand '"@ + name + "'."@
}

pub open spec fn task_name_missing_text() -> Seq<char> {
    "タスク名が提供されていません。"@
}

pub open spec fn filename_missing_text() -> Seq<char> {
    "ファイル名が指定されていません"@
}

pub open spec fn home_missing_text() -> Seq<char> {
    "ホームディレクトリが見つかりません"@
}

impl TrackError {
    /// The text shown to the user for this error.
    pub open spec fn spec_message(&self) -> Seq<char> {
        match self {
            TrackError::MissingSubcommand => missing_subcommand_text(),
            TrackError::UnknownSubcommand(name) => unknown_subcommand_text(name@),
            TrackError::TaskNameMissing => task_name_missing_text(),
            TrackError::FilenameNotProvided => filename_missing_text(),
            TrackError::HomeDirectoryUnresolvable => home_missing_text(),
            TrackError::IoFailure(msg) => msg@,
        }
    }

    /// Renders the error as the message shown to the user.
    pub fn message(&self) -> (r: String)
        ensures
            r@ == self.spec_message(),
    {
        match self {
            TrackError::MissingSubcommand => String::from_str("No subcommand provided."),
            TrackError::UnknownSubcommand(name) => {
                let mut text = String::from_str("Invalid subcommand '");
                text.append(name.as_str());
                text.append("'.");
                text
            },
            TrackError::TaskNameMissing => String::from_str("タスク名が提供されていません。"),
            TrackError::FilenameNotProvided => String::from_str("ファイル名が指定されていません"),
            TrackError::HomeDirectoryUnresolvable => String::from_str(
                "ホームディレクトリが見つかりません",
            ),
            TrackError::IoFailure(msg) => msg.clone(),
        }
    }
}

} // verus!
