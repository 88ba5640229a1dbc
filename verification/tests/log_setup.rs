use detour::logging::{logfile_path, tracing_setup, CommandKind, TracingSetup};

const COMMANDS: [CommandKind; 5] = [
    CommandKind::InternalProxy,
    CommandKind::ExternalProxy,
    CommandKind::ListTargets,
    CommandKind::ExtensionExec,
    CommandKind::Other,
];

#[test]
fn a_console_address_goes_before_everything_else() {
    for command in COMMANDS {
        for force_log in [None, Some(String::from("true")), Some(String::from("false"))] {
            assert_eq!(
                tracing_setup(Some(String::from("127.0.0.1:11233")), command, force_log),
                TracingSetup::Console(String::from("127.0.0.1:11233"))
            );
        }
    }
}

#[test]
fn the_proxies_set_up_their_own_log() {
    for force_log in [None, Some(String::from("true"))] {
        assert_eq!(
            tracing_setup(None, CommandKind::InternalProxy, force_log.clone()),
            TracingSetup::Untouched
        );
        assert_eq!(
            tracing_setup(None, CommandKind::ExternalProxy, force_log),
            TracingSetup::Untouched
        );
    }
}

#[test]
fn commands_read_by_programs_keep_quiet_unless_forced() {
    for command in [CommandKind::ListTargets, CommandKind::ExtensionExec] {
        assert_eq!(
            tracing_setup(None, command, None),
            TracingSetup::JsonErrors { to_stderr: false }
        );
        assert_eq!(
            tracing_setup(None, command, Some(String::from("true"))),
            TracingSetup::JsonErrors { to_stderr: true }
        );
        for other in ["false", "", "1", "TRUE", "True", "true ", " true", "yes", "truee"] {
            assert_eq!(
                tracing_setup(None, command, Some(String::from(other))),
                TracingSetup::JsonErrors { to_stderr: false }
            );
        }
    }
}

#[test]
fn any_other_command_writes_to_standard_error() {
    for force_log in [None, Some(String::from("true")), Some(String::from("false"))] {
        assert_eq!(tracing_setup(None, CommandKind::Other, force_log), TracingSetup::ToStderr);
    }
}

#[test]
fn a_log_file_is_named_after_prefix_time_and_random_name() {
    assert_eq!(
        logfile_path("mirrord-intproxy", 1700000000, "aB3dE9x"),
        "/tmp/mirrord-intproxy-1700000000-aB3dE9x.log"
    );
    assert_eq!(
        logfile_path("mirrord-extproxy", 1, "0000000"),
        "/tmp/mirrord-extproxy-1-0000000.log"
    );
}

#[test]
fn the_time_stamp_is_written_in_decimal_without_leading_zeros() {
    assert_eq!(logfile_path("p", 0, "r"), "/tmp/p-0-r.log");
    assert_eq!(logfile_path("p", 9, "r"), "/tmp/p-9-r.log");
    assert_eq!(logfile_path("p", 10, "r"), "/tmp/p-10-r.log");
    assert_eq!(logfile_path("p", 1234567890, "r"), "/tmp/p-1234567890-r.log");
    assert_eq!(logfile_path("p", 100200, "r"), "/tmp/p-100200-r.log");
    assert_eq!(logfile_path("p", u64::MAX, "r"), "/tmp/p-18446744073709551615-r.log");
    for stamp in [7u64, 42, 999, 1000, 65535, 4294967296] {
        assert_eq!(logfile_path("p", stamp, "r"), format!("/tmp/p-{}-r.log", stamp));
    }
}

#[test]
fn empty_parts_leave_the_hyphens_in_place() {
    assert_eq!(logfile_path("", 5, ""), "/tmp/-5-.log");
}

#[test]
fn a_default_log_file_has_the_clock_and_a_random_name_in_it() {
    let path = detour::logging::default_logfile_path("mirrord-intproxy")
        .expect("the clock stands after the epoch");
    let rest = path.strip_prefix("/tmp/mirrord-intproxy-").expect("the prefix comes first");
    let rest = rest.strip_suffix(".log").expect("the name ends in .log");
    let (stamp, random_name) = rest.split_once('-').expect("a hyphen parts stamp and name");
    assert!(!stamp.is_empty());
    assert!(stamp.chars().all(|c| c.is_ascii_digit()));
    assert!(stamp == "0" || !stamp.starts_with('0'));
    let seconds: u64 = stamp.parse().expect("the stamp is a number of seconds");
    assert!(seconds > 1_000_000_000);
    assert_eq!(random_name.len(), detour::logging::RANDOM_NAME_LEN);
    assert_eq!(random_name.len(), 7);
    assert!(random_name.chars().all(|c| c.is_ascii_alphanumeric()));
    assert_eq!(path, logfile_path("mirrord-intproxy", seconds, random_name));
}

#[test]
fn default_log_files_differ_from_call_to_call() {
    let mut names = Vec::new();
    for _ in 0..8 {
        names.push(detour::logging::default_logfile_path("mirrord-extproxy").expect("a name"));
    }
    for name in &names {
        assert!(name.starts_with("/tmp/mirrord-extproxy-"));
        assert!(name.ends_with(".log"));
    }
    names.sort();
    names.dedup();
    assert!(names.len() > 1);
}

#[test]
fn a_clock_that_answers_gives_the_name_at_that_time() {
    assert_eq!(
        detour::logging::logfile_path_at("mirrord-intproxy", Some(1700000000), "aB3dE9x"),
        Some(String::from("/tmp/mirrord-intproxy-1700000000-aB3dE9x.log"))
    );
    assert_eq!(
        detour::logging::logfile_path_at("p", Some(0), "r"),
        Some(String::from("/tmp/p-0-r.log"))
    );
    assert_eq!(
        detour::logging::logfile_path_at("p", Some(u64::MAX), "r"),
        Some(logfile_path("p", u64::MAX, "r"))
    );
}

#[test]
fn a_clock_that_gives_no_answer_gives_no_name() {
    assert_eq!(detour::logging::logfile_path_at("mirrord-intproxy", None, "aB3dE9x"), None);
    assert_eq!(detour::logging::logfile_path_at("", None, ""), None);
}
