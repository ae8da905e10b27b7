use mdrcp::cli::{parse_summary_format, summary_allowed};
use mdrcp::{
    help_text, parse_args, parse_error_lines, version_banner, version_metadata, BuildProfile,
    Command, ParseError, ProjectType, SummaryFormat,
};

#[test]
fn test_version_metadata_matches_env() {
    let meta = version_metadata();
    assert_eq!(meta.name, "mdrcp");
    assert_eq!(meta.version, "0.1.0");
    assert_eq!(meta.build_timestamp, "2025-01-01 00:00:00 UTC");
}

#[test]
fn test_version_banner_contains_fields() {
    let banner = version_banner();
    assert!(banner.contains("0.1.0"));
    assert!(banner.contains("2025-01-01 00:00:00 UTC"));
}

#[test]
fn test_help_text_includes_options() {
    let help = help_text();
    assert!(help.contains("mdrcp [OPTIONS]"));
    assert!(help.contains("--help"));
    assert!(help.contains("--version"));
    assert!(help.contains("--target"));
    assert!(help.contains("Relative paths"));
    assert!(help.contains("--quiet"));
    assert!(help.contains("--summary"));
    assert!(help.contains("--debug"));
    assert!(help.contains("--release"));
}

#[test]
fn test_parse_args_default_deploy() {
    let cmd = parse_args(&[]).unwrap();
    match cmd {
        Command::Deploy(opts) => {
            assert!(opts.target_override.is_none());
            assert!(!opts.quiet);
            assert_eq!(opts.summary, SummaryFormat::Text);
            assert_eq!(opts.profile, BuildProfile::Release);
        }
        other => panic!("unexpected command: {:?}", other),
    }
}

#[test]
fn test_parse_args_target_flag() {
    let cmd = parse_args(&["--target".to_string(), "out/bin".to_string()]).unwrap();
    match cmd {
        Command::Deploy(opts) => {
            assert_eq!(opts.target_override, Some(String::from("out/bin")));
            assert!(!opts.quiet);
            assert_eq!(opts.summary, SummaryFormat::Text);
            assert_eq!(opts.profile, BuildProfile::Release);
        }
        other => panic!("unexpected command: {:?}", other),
    }
}

#[test]
fn test_parse_args_target_equals_syntax() {
    let cmd = parse_args(&["--target=out/bin".to_string()]).unwrap();
    match cmd {
        Command::Deploy(opts) => {
            assert_eq!(opts.target_override, Some(String::from("out/bin")));
            assert!(!opts.quiet);
            assert_eq!(opts.summary, SummaryFormat::Text);
            assert_eq!(opts.profile, BuildProfile::Release);
        }
        other => panic!("unexpected command: {:?}", other),
    }
}

#[test]
fn test_parse_args_quiet_flag() {
    let cmd = parse_args(&["--quiet".to_string()]).unwrap();
    match cmd {
        Command::Deploy(opts) => {
            assert!(opts.quiet);
            assert!(opts.target_override.is_none());
            assert_eq!(opts.summary, SummaryFormat::Text);
            assert_eq!(opts.profile, BuildProfile::Release);
        }
        other => panic!("unexpected command: {:?}", other),
    }
}

#[test]
fn test_parse_args_quiet_short_flag() {
    let cmd = parse_args(&[
        "-q".to_string(),
        "--target".to_string(),
        "out/bin".to_string(),
    ])
    .unwrap();
    match cmd {
        Command::Deploy(opts) => {
            assert!(opts.quiet);
            assert_eq!(opts.target_override, Some(String::from("out/bin")));
            assert_eq!(opts.summary, SummaryFormat::Text);
            assert_eq!(opts.profile, BuildProfile::Release);
        }
        other => panic!("unexpected command: {:?}", other),
    }
}

#[test]
fn test_parse_args_summary_json() {
    let cmd = parse_args(&["--summary".to_string(), "json".to_string()]).unwrap();
    match cmd {
        Command::Deploy(opts) => {
            assert_eq!(opts.summary, SummaryFormat::Json);
            assert!(!opts.quiet);
            assert_eq!(opts.profile, BuildProfile::Release);
        }
        other => panic!("unexpected command: {:?}", other),
    }
}

#[test]
fn test_parse_args_summary_equals_syntax() {
    let cmd = parse_args(&["--summary=json".to_string(), "-q".to_string()]).unwrap();
    match cmd {
        Command::Deploy(opts) => {
            assert_eq!(opts.summary, SummaryFormat::Json);
            assert!(opts.quiet);
            assert_eq!(opts.profile, BuildProfile::Release);
        }
        other => panic!("unexpected command: {:?}", other),
    }
}

#[test]
fn test_parse_args_summary_invalid_value() {
    let err = parse_args(&["--summary".to_string(), "xml".to_string()]).unwrap_err();
    assert_eq!(
        err,
        ParseError::InvalidValue {
            flag: "--summary".to_string(),
            value: "xml".to_string(),
            expected: &["text", "json", "json-pretty"],
        }
    );
}

#[test]
fn test_parse_args_debug_flag() {
    let cmd = parse_args(&["--debug".to_string()]).unwrap();
    match cmd {
        Command::Deploy(opts) => {
            assert_eq!(opts.profile, BuildProfile::Debug);
        }
        other => panic!("unexpected command: {:?}", other),
    }
}

#[test]
fn test_parse_args_release_flag() {
    let cmd = parse_args(&["--debug".to_string(), "--release".to_string()]).unwrap();
    match cmd {
        Command::Deploy(opts) => {
            assert_eq!(opts.profile, BuildProfile::Release);
        }
        other => panic!("unexpected command: {:?}", other),
    }
}

#[test]
fn test_parse_args_missing_value_errors() {
    let err = parse_args(&["--target".to_string()]).unwrap_err();
    assert_eq!(
        err,
        ParseError::MissingValue {
            flag: "--target".to_string()
        }
    );

    let err_summary = parse_args(&["--summary".to_string()]).unwrap_err();
    assert_eq!(
        err_summary,
        ParseError::MissingValue {
            flag: "--summary".to_string()
        }
    );
}

#[test]
fn test_parse_args_unknown() {
    let err = parse_args(&["--unknown".to_string()]).unwrap_err();
    assert_eq!(err, ParseError::UnknownArgs(vec!["--unknown".to_string()]));
}

fn args(items: &[&str]) -> Vec<String> {
    items.iter().map(|item| item.to_string()).collect()
}

#[test]
fn parse_args_help_and_version_only_when_alone() {
    assert_eq!(parse_args(&args(&["-h"])), Ok(Command::ShowHelp));
    assert_eq!(parse_args(&args(&["--help"])), Ok(Command::ShowHelp));
    assert_eq!(parse_args(&args(&["-V"])), Ok(Command::ShowVersion));
    assert_eq!(parse_args(&args(&["--version"])), Ok(Command::ShowVersion));
    assert_eq!(
        parse_args(&args(&["--help", "-q"])),
        Err(ParseError::UnknownArgs(args(&["--help", "-q"])))
    );
    assert_eq!(
        parse_args(&args(&["-q", "-V"])),
        Err(ParseError::UnknownArgs(args(&["-q", "-V"])))
    );
}

#[test]
fn parse_args_short_target_and_later_value_wins() {
    let cmd = parse_args(&args(&["-t", "a", "--target=b", "--target", "c"])).unwrap();
    match cmd {
        Command::Deploy(opts) => assert_eq!(opts.target_override, Some("c".to_string())),
        other => panic!("unexpected command: {:?}", other),
    }
}

#[test]
fn parse_args_target_value_may_look_like_a_flag() {
    let cmd = parse_args(&args(&["--target", "--quiet"])).unwrap();
    match cmd {
        Command::Deploy(opts) => {
            assert_eq!(opts.target_override, Some("--quiet".to_string()));
            assert!(!opts.quiet);
        }
        other => panic!("unexpected command: {:?}", other),
    }
}

#[test]
fn parse_args_equals_value_keeps_further_equals_signs() {
    let cmd = parse_args(&args(&["--target=a=b"])).unwrap();
    match cmd {
        Command::Deploy(opts) => assert_eq!(opts.target_override, Some("a=b".to_string())),
        other => panic!("unexpected command: {:?}", other),
    }
}

#[test]
fn parse_args_empty_equals_values_are_missing() {
    assert_eq!(
        parse_args(&args(&["--target="])),
        Err(ParseError::MissingValue { flag: "--target".to_string() })
    );
    assert_eq!(
        parse_args(&args(&["--summary="])),
        Err(ParseError::MissingValue { flag: "--summary".to_string() })
    );
    assert_eq!(
        parse_args(&args(&["-q", "-t"])),
        Err(ParseError::MissingValue { flag: "-t".to_string() })
    );
}

#[test]
fn parse_args_invalid_summary_with_equals_names_the_long_flag() {
    assert_eq!(
        parse_args(&args(&["--summary=yaml"])),
        Err(ParseError::InvalidValue {
            flag: "--summary".to_string(),
            value: "yaml".to_string(),
            expected: summary_allowed(),
        })
    );
}

#[test]
fn parse_args_summary_formats() {
    assert_eq!(parse_summary_format("text"), Some(SummaryFormat::Text));
    assert_eq!(parse_summary_format("json"), Some(SummaryFormat::Json));
    assert_eq!(parse_summary_format("json-pretty"), Some(SummaryFormat::JsonPretty));
    assert_eq!(parse_summary_format("JSON"), None);
    assert_eq!(parse_summary_format(""), None);
    assert_eq!(summary_allowed(), &["text", "json", "json-pretty"]);
    let cmd = parse_args(&args(&["--summary", "json-pretty"])).unwrap();
    match cmd {
        Command::Deploy(opts) => assert_eq!(opts.summary, SummaryFormat::JsonPretty),
        other => panic!("unexpected command: {:?}", other),
    }
}

#[test]
fn parse_args_project_type_flags() {
    match parse_args(&args(&["--tauri"])).unwrap() {
        Command::Deploy(opts) => assert_eq!(opts.project_type, Some(ProjectType::Tauri)),
        other => panic!("unexpected command: {:?}", other),
    }
    match parse_args(&args(&["--tauri", "--no-tauri"])).unwrap() {
        Command::Deploy(opts) => assert_eq!(opts.project_type, Some(ProjectType::Standard)),
        other => panic!("unexpected command: {:?}", other),
    }
    match parse_args(&args(&["-q"])).unwrap() {
        Command::Deploy(opts) => assert_eq!(opts.project_type, None),
        other => panic!("unexpected command: {:?}", other),
    }
}

#[test]
fn parse_args_unknown_reports_every_argument() {
    assert_eq!(
        parse_args(&args(&["-q", "--bogus", "--debug"])),
        Err(ParseError::UnknownArgs(args(&["-q", "--bogus", "--debug"])))
    );
}

#[test]
fn parse_args_finish_update_needs_exactly_two_paths() {
    assert_eq!(
        parse_args(&args(&["--finish-update", "/src/app", "/bin/app"])),
        Ok(Command::FinishUpdate {
            source: "/src/app".to_string(),
            destination: "/bin/app".to_string(),
        })
    );
    assert_eq!(
        parse_args(&args(&["--finish-update", "/src/app"])),
        Err(ParseError::UnknownArgs(args(&["--finish-update", "/src/app"])))
    );
    assert_eq!(
        parse_args(&args(&["--finish-update", "a", "b", "c"])),
        Err(ParseError::UnknownArgs(args(&["--finish-update", "a", "b", "c"])))
    );
}

#[test]
fn version_banner_is_styled_exactly() {
    assert_eq!(
        version_banner(),
        "\u{1b}[97m\u{1b}[1mmdrcp\u{1b}[0m\u{1b}[39m \u{1b}[1m\u{1b}[94mv0.1.0\u{1b}[39m\u{1b}[0m \u{1b}[2mbuilt 2025-01-01 00:00:00 UTC\u{1b}[0m"
    );
}

#[test]
fn help_text_layout() {
    let help = help_text();
    let lines: Vec<&str> = help.split('\n').collect();
    assert_eq!(lines.len(), 18);
    assert_eq!(lines[0], version_banner());
    assert_eq!(lines[1], "");
    assert_eq!(
        lines[2],
        "\u{1b}[33m\u{1b}[1mUsage:\u{1b}[0m\u{1b}[39m \u{1b}[1mmdrcp [OPTIONS]\u{1b}[0m"
    );
    assert_eq!(lines[3], "");
    assert_eq!(lines[4], "\u{1b}[97m\u{1b}[1mOptions:\u{1b}[0m\u{1b}[39m");
    assert_eq!(
        lines[5],
        "  \u{1b}[96m--help, -h\u{1b}[39m \u{1b}[2mShow this help message\u{1b}[0m"
    );
    assert_eq!(lines[15], "");
    assert!(lines[16].starts_with("\u{1b}[36m\u{1b}[1mTip:\u{1b}[0m\u{1b}[39m "));
    assert!(lines[17].ends_with(
        "\u{1b}[2mResolved against the project directory passed to the tool.\u{1b}[0m"
    ));
    assert!(!help.ends_with('\n'));
}

#[test]
fn parse_error_lines_for_each_error() {
    assert!(parse_error_lines(&ParseError::UnknownArgs(Vec::new())).is_empty());

    let unknown = parse_error_lines(&ParseError::UnknownArgs(args(&["--a", "b"])));
    assert_eq!(
        unknown,
        vec![
            "\u{1b}[91m\u{1b}[1mUnknown arguments:\u{1b}[0m\u{1b}[39m \u{1b}[1m--a b\u{1b}[0m"
                .to_string(),
            "\u{1b}[36m\u{1b}[1mHint:\u{1b}[0m\u{1b}[39m \u{1b}[2mRun `mdrcp --help` for usage details.\u{1b}[0m"
                .to_string(),
        ]
    );

    let missing = parse_error_lines(&ParseError::MissingValue { flag: "--target".to_string() });
    assert_eq!(missing.len(), 3);
    assert_eq!(
        missing[0],
        "\u{1b}[91m\u{1b}[1mMissing value:\u{1b}[0m\u{1b}[39m \u{1b}[1m--target\u{1b}[0m"
    );
    assert!(missing[1].contains("Pass a directory after the flag, e.g. --target path/to/bin"));
    assert!(missing[2].contains("Relative paths:"));

    let invalid = parse_error_lines(&ParseError::InvalidValue {
        flag: "--summary".to_string(),
        value: "xml".to_string(),
        expected: summary_allowed(),
    });
    assert_eq!(
        invalid,
        vec![
            "\u{1b}[91m\u{1b}[1mInvalid value:\u{1b}[0m\u{1b}[39m \u{1b}[1m--summary\u{1b}[0m \u{1b}[1mxml\u{1b}[0m"
                .to_string(),
            "\u{1b}[36m\u{1b}[1mAccepted:\u{1b}[0m\u{1b}[39m text, json, json-pretty".to_string(),
        ]
    );
}
