use blur_image::ArgError;
use blur_image::RunOutcome;
use blur_image::exit_status;
use blur_image::report_line;

#[test]
fn exit_status_zero_only_on_success() {
    let saved = RunOutcome::Saved {
        sigma: String::from("10.0"),
        output: String::from("cat_blurred.png"),
    };
    let decode = RunOutcome::DecodeFailed { detail: String::from("No such file or directory") };
    let write = RunOutcome::WriteFailed { detail: String::from("No such file or directory") };
    assert_eq!(exit_status(&saved), 0);
    assert_eq!(exit_status(&decode), 1);
    assert_eq!(exit_status(&write), 1);
}

#[test]
fn report_line_on_success() {
    let saved = RunOutcome::Saved {
        sigma: String::from("10.0"),
        output: String::from("cat_blurred.png"),
    };
    assert_eq!(report_line(&saved), "Saved blurred (10.0) image to cat_blurred.png");
}

#[test]
fn report_line_on_decode_failure() {
    let decode = RunOutcome::DecodeFailed { detail: String::from("unrecognized format") };
    assert_eq!(report_line(&decode), "something went wrong reading the file unrecognized format");
}

#[test]
fn report_line_on_write_failure_claims_no_success() {
    let write = RunOutcome::WriteFailed { detail: String::from("Saved blurred (10.0) image to x") };
    let line = report_line(&write);
    assert_eq!(line, "Error: Saved blurred (10.0) image to x");
    let saved = RunOutcome::Saved { sigma: String::from("10.0"), output: String::from("x") };
    assert_ne!(line, report_line(&saved));
    assert!(!line.starts_with("Saved blurred ("));
}

#[test]
fn arg_error_messages() {
    assert_eq!(
        ArgError::MissingImage.message(),
        "error: the image to be blurred is required"
    );
    assert_eq!(ArgError::InvalidSigma.message(), "error: the sigma is not a number");
    assert_eq!(
        ArgError::NoDefaultOutput.message(),
        "error: no default output name: the input has no file stem or no extension"
    );
    for e in [
        ArgError::MissingImage,
        ArgError::UnexpectedArgument,
        ArgError::MissingOutputValue,
        ArgError::MissingSigmaValue,
        ArgError::RepeatedOutput,
        ArgError::RepeatedSigma,
        ArgError::InvalidSigma,
        ArgError::NoDefaultOutput,
    ] {
        assert!(e.message().starts_with("error: "));
    }
}
