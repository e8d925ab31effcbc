use component_runner::errors::RunError;
use component_runner::selector::{artifact_path, family_name, parse_args, parse_family, Family, LoadMode, RunConfig, UsageError};

fn args(words: &[&str]) -> Vec<String> {
    words.iter().map(|w| w.to_string()).collect()
}

#[test]
fn unknown_selector_is_a_usage_error() {
    match parse_args(&args(&["runner", "zz"])) {
        Err(UsageError::Unknown(s)) => assert_eq!(s, "zz"),
        other => panic!("unexpected {:?}", other),
    }
    let err = RunError::Usage(UsageError::Unknown("zz".to_string()));
    assert_ne!(err.exit_status(), 0);
    assert_eq!(err.stage(), "usage");
}

#[test]
fn missing_selector_is_a_usage_error() {
    assert!(matches!(parse_args(&args(&["runner"])), Err(UsageError::Missing)));
    assert!(matches!(parse_args(&args(&[])), Err(UsageError::Missing)));
}

#[test]
fn selectors_pick_family_and_mode() {
    let c = parse_args(&args(&["runner", "rs"])).unwrap();
    assert_eq!(c, RunConfig { family: Family::Rs, mode: LoadMode::Compile });
    let c = parse_args(&args(&["runner", "js", "--aot"])).unwrap();
    assert_eq!(c, RunConfig { family: Family::Js, mode: LoadMode::Precompiled });
    let c = parse_args(&args(&["--aot", "rs"])).unwrap();
    assert_eq!(c.mode, LoadMode::Precompiled);
    let c = parse_args(&args(&["runner", "rs", "--ao"])).unwrap();
    assert_eq!(c.mode, LoadMode::Compile);
}

#[test]
fn family_selectors_are_exact() {
    assert_eq!(parse_family(&"rs".to_string()), Some(Family::Rs));
    assert_eq!(parse_family(&"js".to_string()), Some(Family::Js));
    assert_eq!(parse_family(&"RS".to_string()), None);
    assert_eq!(parse_family(&"".to_string()), None);
    assert_eq!(family_name(Family::Js), "js");
}

#[test]
fn artifact_paths_follow_family_and_mode() {
    let m = "/host".to_string();
    assert_eq!(
        artifact_path(&m, RunConfig { family: Family::Js, mode: LoadMode::Compile }),
        "/host/../component/js/handler.wasm"
    );
    assert_eq!(
        artifact_path(&m, RunConfig { family: Family::Rs, mode: LoadMode::Precompiled }),
        "/host/../component/rust/target/wasm32-wasip1/release/handler_rs.cwasm"
    );
}
