use libcnb::data::launch::{Launch, LaunchError, Process, ProcessType};

#[test]
fn process_type_accepts_letters_digits_underscore_and_dash() {
    let valid = ProcessType::parse("foo-Bar_9");
    assert_eq!(valid.ok().unwrap().as_str(), "foo-Bar_9");
}

#[test]
fn process_type_from_str_matches_parse() {
    let parsed: Result<ProcessType, LaunchError> = "web".parse();
    assert_eq!(parsed.ok().unwrap().as_str(), "web");
}

#[test]
fn process_type_rejects_other_characters() {
    match ProcessType::parse("!nv4lid") {
        Err(LaunchError::InvalidProcessType(s)) => assert_eq!(s, "!nv4lid"),
        Ok(_) => panic!("accepted an invalid process type"),
    }
}

#[test]
fn process_type_rejects_empty_and_trailing_newline() {
    assert!(ProcessType::parse("").is_err());
    assert!(ProcessType::parse("web\n").is_err());
    assert!(ProcessType::parse("w\u{e9}b").is_err());
}

#[test]
fn process_new_keeps_its_parts() {
    let args = vec!["exec".to_string(), "ruby".to_string(), "app.rb".to_string()];
    let web = Process::new("web", "bundle".to_string(), args, false).ok().unwrap();
    assert_eq!(web.process_type.as_str(), "web");
    assert_eq!(web.command, "bundle");
    assert_eq!(web.args, vec!["exec", "ruby", "app.rb"]);
    assert!(!web.direct);
}

#[test]
fn process_new_rejects_invalid_type() {
    let result = Process::new("we b", "bundle".to_string(), Vec::new(), true);
    assert!(matches!(result, Err(LaunchError::InvalidProcessType(ref s)) if s == "we b"));
}

#[test]
fn launch_new_is_empty() {
    let launch = Launch::new();
    assert!(launch.labels.is_empty());
    assert!(launch.processes.is_empty());
    assert!(launch.slices.is_empty());
}
