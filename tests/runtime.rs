use libcnb::runtime::{phase_of_executable, Phase};

#[test]
fn detect_and_build_executables_have_their_phase() {
    assert!(matches!(phase_of_executable("detect"), Some(Phase::Detect)));
    assert!(matches!(phase_of_executable("build"), Some(Phase::Build)));
}

#[test]
fn other_executables_have_no_phase() {
    assert!(phase_of_executable("").is_none());
    assert!(phase_of_executable("Build").is_none());
    assert!(phase_of_executable("detect.sh").is_none());
}
