use dewedat::setup::discovery_pattern;
use dewedat::setup::FatalSetupError;
use dewedat::setup::SetupStep;

#[test]
fn setup_starts_with_the_source_root() {
    assert_eq!(SetupStep::start(), SetupStep::ProbeSource);
    assert!(!SetupStep::start().finished());
}

#[test]
fn missing_source_root_fails_at_once() {
    let step = SetupStep::start().advance(false);
    assert_eq!(step, SetupStep::Abort(FatalSetupError::InvalidSourceDirectory));
    assert!(step.finished());
    // Whatever is answered afterwards, the target root is never created.
    assert_eq!(step.advance(true), step);
    assert_eq!(step.advance(false), step);
}

#[test]
fn both_roots_present_go_on_to_discovery() {
    let step = SetupStep::start().advance(true);
    assert_eq!(step, SetupStep::ProbeTarget);
    let step = step.advance(true);
    assert_eq!(step, SetupStep::Discover);
    assert!(step.finished());
    assert_eq!(step.advance(false), SetupStep::Discover);
}

#[test]
fn missing_target_root_is_created() {
    let step = SetupStep::start().advance(true).advance(false);
    assert_eq!(step, SetupStep::CreateTarget);
    assert!(!step.finished());
    assert_eq!(step.advance(true), SetupStep::Discover);
}

#[test]
fn target_root_that_cannot_be_created_is_fatal() {
    let step = SetupStep::start().advance(true).advance(false).advance(false);
    assert_eq!(step, SetupStep::Abort(FatalSetupError::InvalidTargetDirectory));
    assert!(step.finished());
}

#[test]
fn discovery_pattern_looks_at_any_depth_for_dat_files() {
    assert_eq!(discovery_pattern("source"), "source/**/*.dat");
    assert_eq!(discovery_pattern("/var/cache/media"), "/var/cache/media/**/*.dat");
    assert_eq!(discovery_pattern(""), "/**/*.dat");
}
