use dewedat::pipeline::PerFileError;
use dewedat::pipeline::Summary;
use dewedat::report::decimal_text;
use dewedat::setup::FatalSetupError;

#[test]
fn decimal_text_of_small_numbers() {
    assert_eq!(decimal_text(0), "0");
    assert_eq!(decimal_text(7), "7");
    assert_eq!(decimal_text(9), "9");
    assert_eq!(decimal_text(10), "10");
    assert_eq!(decimal_text(42), "42");
    assert_eq!(decimal_text(100), "100");
    assert_eq!(decimal_text(1234567890), "1234567890");
}

#[test]
fn decimal_text_agrees_with_the_standard_formatting() {
    for n in 0..3000usize {
        assert_eq!(decimal_text(n), n.to_string());
    }
    assert_eq!(decimal_text(usize::MAX), usize::MAX.to_string());
}

#[test]
fn report_names_the_successes_over_the_total() {
    assert_eq!(Summary { succeeded: 0, total: 0 }.report(), "Finished (0/0).");
    assert_eq!(Summary { succeeded: 0, total: 3 }.report(), "Finished (0/3).");
    assert_eq!(Summary { succeeded: 12, total: 345 }.report(), "Finished (12/345).");
}

#[test]
fn fatal_errors_have_their_messages() {
    assert_eq!(FatalSetupError::InvalidSourceDirectory.message(), "Invalid Source Directory");
    assert_eq!(FatalSetupError::InvalidTargetDirectory.message(), "Invalid Target Directory");
}

#[test]
fn per_file_errors_have_their_reasons() {
    assert_eq!(PerFileError::IoError.reason(), "I/O Error");
    assert_eq!(PerFileError::MalformedContainer.reason(), "Malformed Container");
    assert_eq!(PerFileError::UnsupportedFormat.reason(), "Filetype Not Implementation");
    assert_eq!(PerFileError::PathMappingError.reason(), "prefix not found");
}
