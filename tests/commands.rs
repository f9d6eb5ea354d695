use worktime::{
    default_log_path, execute, handle_start_command, handle_stop_command, help_text,
    parse_arguments, resolve_file_path, scan_arguments, start_record, stop_record, Action,
    TrackError,
};

fn strings(items: &[&str]) -> Vec<String> {
    items.iter().map(|s| s.to_string()).collect()
}

#[test]
fn test_execute_empty_args() {
    let args = vec!["program_name".to_string()];
    let result = execute(&args, None);
    assert!(result.is_err());
    assert_eq!(result.unwrap_err().message(), "No subcommand provided.");
}

#[test]
fn test_execute_help() {
    let args = vec!["program_name".to_string(), "help".to_string()];
    assert!(execute(&args, None).is_ok());
}

#[test]
fn test_execute_invalid_command() {
    let args = vec!["program_name".to_string(), "invalid".to_string()];
    let result = execute(&args, None);
    assert!(result.is_err());
    assert_eq!(result.unwrap_err().message(), "Invalid subcommand 'invalid'.");
}

#[test]
fn test_handle_start_command() {
    let test_file = "test_working_time_record.txt".to_string();
    let args = vec![
        "program_name".to_string(),
        "start".to_string(),
        "test_task".to_string(),
        "-f".to_string(),
        test_file.clone(),
    ];
    let result = handle_start_command(&args, None);
    assert!(result.is_ok());
    let request = result.unwrap();
    assert_eq!(request.path, test_file);
    assert!(request.line.contains("start\ttest_task"));
}

#[test]
fn test_handle_start_command_missing_task_name() {
    let args = vec![
        "program_name".to_string(),
        "start".to_string(),
        "-f".to_string(),
        "test_working_time_record.txt".to_string(),
    ];
    let result = handle_start_command(&args, None);
    assert!(result.is_err());
    assert_eq!(result.unwrap_err().message(), "タスク名が提供されていません。");
}

#[test]
fn test_handle_stop_command() {
    let test_file = "test_working_time_record.txt".to_string();
    let args = vec![
        "program_name".to_string(),
        "stop".to_string(),
        "-f".to_string(),
        test_file.clone(),
    ];
    let result = handle_stop_command(&args, None);
    assert!(result.is_ok());
    let request = result.unwrap();
    assert_eq!(request.path, test_file);
    assert!(request.line.contains("stop"));
}

#[test]
fn test_parse_arguments_default_file_path() {
    let args = vec![
        "program_name".to_string(),
        "start".to_string(),
        "test_task".to_string(),
    ];
    let (file_path, remaining_args) = parse_arguments(&args, None).unwrap();
    assert!(file_path.contains("working_time_record.txt"));
    assert_eq!(remaining_args, vec!["test_task".to_string()]);
}

#[test]
fn test_parse_arguments_custom_file_path() {
    let args = vec![
        "program_name".to_string(),
        "start".to_string(),
        "test_task".to_string(),
        "-f".to_string(),
        "custom_file.txt".to_string(),
    ];
    let (file_path, remaining_args) = parse_arguments(&args, None).unwrap();
    assert_eq!(file_path, "custom_file.txt");
    assert_eq!(remaining_args, vec!["test_task".to_string()]);
}

#[test]
fn test_parse_arguments_missing_file_argument() {
    let args = vec![
        "program_name".to_string(),
        "start".to_string(),
        "-f".to_string(),
    ];
    let result = parse_arguments(&args, None);
    assert!(result.is_err());
    assert_eq!(result.unwrap_err().message(), "ファイル名が指定されていません");
}

#[test]
fn no_arguments_at_all_is_missing_subcommand() {
    assert_eq!(execute(&Vec::new(), None), Err(TrackError::MissingSubcommand));
}

#[test]
fn unknown_subcommand_names_the_value() {
    let result = execute(&strings(&["p", "bogus"]), None);
    let err = result.unwrap_err();
    assert_eq!(err, TrackError::UnknownSubcommand("bogus".to_string()));
    assert_eq!(err.message(), "Invalid subcommand 'bogus'.");
}

#[test]
fn subcommand_is_case_sensitive() {
    let result = execute(&strings(&["p", "START", "taskA", "-f", "F"]), None);
    assert_eq!(result, Err(TrackError::UnknownSubcommand("START".to_string())));
}

#[test]
fn help_asks_for_no_write() {
    let result = execute(&strings(&["p", "help", "-f", "F"]), None);
    assert_eq!(result, Ok(Action::Help));
}

#[test]
fn help_text_lists_commands_and_option() {
    let lines = help_text();
    assert_eq!(lines.len(), 4);
    assert_eq!(lines[0], "Usage:");
    assert!(lines[1].contains("start <task_name>"));
    assert!(lines[1].contains("--file"));
    assert!(lines[2].contains("stop"));
    assert!(lines[3].contains("help"));
}

#[test]
fn start_then_stop_lines_accumulate_in_order() {
    let start = execute(&strings(&["p", "start", "taskA", "-f", "F"]), None).unwrap();
    let stop = execute(&strings(&["p", "stop", "-f", "F"]), None).unwrap();
    let mut log = String::new();
    for action in [start, stop] {
        match action {
            Action::Append(request) => {
                assert_eq!(request.path, "F");
                log.push_str(&request.line);
            }
            Action::Help => panic!("expected a record"),
        }
    }
    let lines: Vec<&str> = log.split_terminator('\n').collect();
    assert_eq!(lines.len(), 2);
    let first: Vec<&str> = lines[0].split('\t').collect();
    assert_eq!(first.len(), 3);
    assert_eq!(first[1], "start");
    assert_eq!(first[2], "taskA");
    let second: Vec<&str> = lines[1].split('\t').collect();
    assert_eq!(second.len(), 3);
    assert_eq!(second[1], "stop");
    assert_eq!(second[2], "");
    assert!(log.ends_with("\tstop\t\n"));
}

#[test]
fn timestamp_has_seconds_and_offset() {
    let request = handle_start_command(&strings(&["p", "start", "t", "-f", "F"]), None).unwrap();
    let ts = request.line.split('\t').next().unwrap().to_string();
    assert_eq!(ts.len(), 25);
    assert_eq!(&ts[4..5], "-");
    assert_eq!(&ts[10..11], "T");
    assert_eq!(&ts[13..14], ":");
    let sign = &ts[19..20];
    assert!(sign == "+" || sign == "-");
    assert_eq!(&ts[22..23], ":");
}

#[test]
fn start_without_task_name_fails() {
    let result = handle_start_command(&strings(&["p", "start", "-f", "F"]), None);
    assert_eq!(result, Err(TrackError::TaskNameMissing));
}

#[test]
fn file_flag_without_value_fails() {
    let result = execute(&strings(&["p", "start", "taskA", "-f"]), None);
    assert_eq!(result, Err(TrackError::FilenameNotProvided));
    let result = execute(&strings(&["p", "stop", "--file"]), None);
    assert_eq!(result, Err(TrackError::FilenameNotProvided));
    assert_eq!(
        TrackError::FilenameNotProvided.message(),
        "ファイル名が指定されていません"
    );
}

#[test]
fn default_path_under_home() {
    let path = resolve_file_path(None, None, Some("/home/u".to_string())).unwrap();
    assert_eq!(path, "/home/u/working_time_record.txt");
    let path = resolve_file_path(None, None, Some("/home/u/".to_string())).unwrap();
    assert_eq!(path, "/home/u/working_time_record.txt");
    assert_eq!(default_log_path(&"/root".to_string()), "/root/working_time_record.txt");
}

#[test]
fn default_path_from_real_home_directory() {
    let (path, rest) = parse_arguments(&strings(&["p", "start", "taskA"]), None).unwrap();
    assert!(path.ends_with("/working_time_record.txt"));
    assert!(path.len() > "/working_time_record.txt".len());
    assert_eq!(rest, strings(&["taskA"]));
}

#[test]
fn environment_override_is_used_verbatim() {
    let (path, _) =
        parse_arguments(&strings(&["p", "start", "taskA"]), Some("custom.txt".to_string()))
            .unwrap();
    assert_eq!(path, "custom.txt");
}

#[test]
fn empty_environment_override_is_ignored() {
    let path = resolve_file_path(None, Some(String::new()), Some("/h".to_string())).unwrap();
    assert_eq!(path, "/h/working_time_record.txt");
}

#[test]
fn flag_beats_environment_override() {
    let path = resolve_file_path(
        Some("A".to_string()),
        Some("custom.txt".to_string()),
        None,
    )
    .unwrap();
    assert_eq!(path, "A");
}

#[test]
fn unknown_home_directory_fails() {
    let result = resolve_file_path(None, None, None);
    assert_eq!(result, Err(TrackError::HomeDirectoryUnresolvable));
    assert_eq!(
        TrackError::HomeDirectoryUnresolvable.message(),
        "ホームディレクトリが見つかりません"
    );
}

#[test]
fn last_file_flag_wins() {
    let (path, rest) =
        parse_arguments(&strings(&["p", "start", "-f", "A", "taskA", "--file", "B"]), None)
            .unwrap();
    assert_eq!(path, "B");
    assert_eq!(rest, strings(&["taskA"]));
}

#[test]
fn flag_value_may_look_like_a_flag() {
    let (file, rest) = scan_arguments(&strings(&["p", "start", "-f", "-f", "x"])).unwrap();
    assert_eq!(file, Some("-f".to_string()));
    assert_eq!(rest, strings(&["x"]));
}

#[test]
fn extra_positional_arguments_are_ignored() {
    let request =
        handle_start_command(&strings(&["p", "start", "taskA", "extra", "-f", "F"]), None)
            .unwrap();
    assert!(request.line.ends_with("\tstart\ttaskA\n"));
    assert!(!request.line.contains("extra"));
}

#[test]
fn stop_ignores_positional_arguments() {
    let request = handle_stop_command(&strings(&["p", "stop", "x", "-f", "F"]), None).unwrap();
    assert_eq!(request.path, "F");
    assert!(request.line.ends_with("\tstop\t\n"));
}

#[test]
fn record_lines_have_exact_format() {
    let ts = "2024-01-15T10:30:00+09:00".to_string();
    assert_eq!(
        start_record(&ts, &"taskA".to_string()),
        "2024-01-15T10:30:00+09:00\tstart\ttaskA\n"
    );
    assert_eq!(stop_record(&ts), "2024-01-15T10:30:00+09:00\tstop\t\n");
}

#[test]
fn io_failure_message_is_passed_through() {
    let err = TrackError::IoFailure("Permission denied (os error 13)".to_string());
    assert_eq!(err.message(), "Permission denied (os error 13)");
    assert_eq!(TrackError::TaskNameMissing.message(), "タスク名が提供されていません。");
}

#[test]
fn last_file_flag_wins_before_trailing_positionals() {
    let (path, rest) = parse_arguments(
        &strings(&["p", "start", "--file", "A", "-f", "B", "taskA", "extra"]),
        Some("custom.txt".to_string()),
    )
    .unwrap();
    assert_eq!(path, "B");
    assert_eq!(rest, strings(&["taskA", "extra"]));
}

#[test]
fn stop_timestamp_has_same_form() {
    let request = handle_stop_command(&strings(&["p", "stop", "-f", "F"]), None).unwrap();
    let ts = request.line.strip_suffix("\tstop\t\n").unwrap().to_string();
    assert_eq!(ts.len(), 25);
    assert_eq!(&ts[10..11], "T");
    assert!(ts
        .chars()
        .all(|c| c.is_ascii_digit() || c == '-' || c == '+' || c == 'T' || c == ':'));
}
