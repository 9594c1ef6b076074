use hortpro_checker::notify::{build_command, exit_outcome, Error, Urgency};

#[test]
fn test_build_command_normal() {
    let cmd = build_command("HortProChecker", "Kid arrived", Urgency::Normal);
    assert_eq!(cmd.program, "notify-send");
    assert_eq!(
        cmd.args,
        [
            "--urgency",
            "normal",
            "--app-name",
            "HortProChecker",
            "HortProChecker",
            "Kid arrived",
        ]
    );
}

#[test]
fn test_build_command_critical() {
    let cmd = build_command("Error", "something broke", Urgency::Critical);
    assert_eq!(cmd.args[1], "critical");
}

#[test]
fn urgency_words() {
    assert_eq!(Urgency::Normal.as_str(), "normal");
    assert_eq!(Urgency::Critical.as_str(), "critical");
}

#[test]
fn exit_success_is_ok() {
    assert!(exit_outcome(true, Some(0)).is_ok());
}

#[test]
fn exit_failure_reports_code() {
    assert!(matches!(exit_outcome(false, Some(3)), Err(Error::NonZeroExit { status: 3 })));
}

#[test]
fn exit_without_code_reports_minus_one() {
    assert!(matches!(exit_outcome(false, None), Err(Error::NonZeroExit { status: -1 })));
}
