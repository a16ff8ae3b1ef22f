use yamori::error::{ConfigFormat, HarnessError};
use yamori::loading::{decide_load, format_for, plan_load};
use yamori::wait::{after_look, after_pause, WaitPhase, WaitStep, POLL_INTERVAL_MILLIS};

#[test]
fn extensions_name_formats() {
    assert_eq!(format_for("yaml"), Some(ConfigFormat::Yaml));
    assert_eq!(format_for("yml"), Some(ConfigFormat::Yaml));
    assert_eq!(format_for("toml"), Some(ConfigFormat::Toml));
    assert_eq!(format_for("json"), None);
    assert_eq!(format_for(""), None);
    assert_eq!(format_for("YAML"), None);
    assert_eq!(format_for("yamll"), None);
}

#[test]
fn extension_case_does_not_matter() {
    assert!(matches!(plan_load("a.YAML", true, "YAML"), Ok(ConfigFormat::Yaml)));
    assert!(matches!(plan_load("a.Yml", true, "Yml"), Ok(ConfigFormat::Yaml)));
    assert!(matches!(plan_load("a.ToMl", true, "ToMl"), Ok(ConfigFormat::Toml)));
    assert!(matches!(plan_load("a.toml", true, "toml"), Ok(ConfigFormat::Toml)));
}

#[test]
fn unknown_extension_is_refused() {
    let failure = plan_load("suite.JSON", true, "JSON").unwrap_err();
    assert!(matches!(
        &failure,
        HarnessError::UnsupportedConfigFormat { extension } if extension == "json"
    ));
    assert_eq!(
        failure.message(),
        "Unsupported configuration format: json. Please use .yaml, .yml, or .toml files."
    );
    let none = decide_load("suite", true, "").unwrap_err();
    assert_eq!(
        none.message(),
        "Unsupported configuration format: . Please use .yaml, .yml, or .toml files."
    );
}

#[test]
fn missing_file_is_reported_first() {
    let failure = plan_load("nowhere/tests.toml", false, "toml").unwrap_err();
    assert!(matches!(
        &failure,
        HarnessError::ConfigNotFound { path } if path == "nowhere/tests.toml"
    ));
    assert_eq!(
        failure.message(),
        "Config file not found: nowhere/tests.toml. Please make sure the file exists in the specified path."
    );
    assert!(matches!(
        plan_load("x.json", false, "json"),
        Err(HarnessError::ConfigNotFound { .. })
    ));
}

#[test]
fn parse_failures_name_their_format() {
    let yaml = HarnessError::ConfigParseError {
        format: ConfigFormat::Yaml,
        message: "bad indent".to_string(),
    };
    assert_eq!(yaml.message(), "YAML parse error: bad indent");
    let toml = HarnessError::ConfigParseError {
        format: ConfigFormat::Toml,
        message: "bad key".to_string(),
    };
    assert_eq!(toml.message(), "TOML parse error: bad key");
}

#[test]
fn finished_command_is_collected() {
    assert_eq!(after_look(WaitPhase::First, true, 30), WaitStep::Collect);
    assert_eq!(after_look(WaitPhase::Polling, true, 30), WaitStep::Collect);
    assert_eq!(after_look(WaitPhase::First, true, 0), WaitStep::Collect);
}

#[test]
fn running_command_is_polled_until_the_timeout() {
    assert_eq!(after_look(WaitPhase::First, false, 1), WaitStep::Look);
    assert_eq!(
        after_look(WaitPhase::Polling, false, 1),
        WaitStep::Pause { millis: POLL_INTERVAL_MILLIS }
    );
    assert_eq!(POLL_INTERVAL_MILLIS, 100);
    assert_eq!(after_pause(0, 1), WaitStep::Look);
    assert_eq!(after_pause(1, 1), WaitStep::Expire);
    assert_eq!(after_pause(29, 30), WaitStep::Look);
    assert_eq!(after_pause(30, 30), WaitStep::Expire);
    assert_eq!(after_pause(31, 30), WaitStep::Expire);
}

#[test]
fn zero_timeout_expires_after_the_first_look() {
    assert_eq!(after_look(WaitPhase::First, false, 0), WaitStep::Expire);
    assert_eq!(after_pause(0, 0), WaitStep::Expire);
}
