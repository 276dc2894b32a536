use blur_image::ArgError;
use blur_image::default_output;
use blur_image::is_float_literal;
use blur_image::parse_args;
use blur_image::prepare;

fn argv(parts: &[&str]) -> Vec<String> {
    parts.iter().map(|p| String::from(*p)).collect()
}

#[test]
fn default_output_appends_blurred() {
    let inv = prepare(&argv(&["cat.png"])).unwrap();
    assert_eq!(inv.input, "cat.png");
    assert_eq!(inv.output, "cat_blurred.png");
    assert_eq!(inv.sigma, "10.0");
}

#[test]
fn default_output_drops_directory() {
    let inv = prepare(&argv(&["some/dir/photo.png"])).unwrap();
    assert_eq!(inv.output, "photo_blurred.png");
}

#[test]
fn default_output_double_extension() {
    let inv = prepare(&argv(&["archive.tar.gz"])).unwrap();
    assert_eq!(inv.output, "archive.tar_blurred.gz");
}

#[test]
fn default_output_empty_extension() {
    let inv = prepare(&argv(&["photo."])).unwrap();
    assert_eq!(inv.output, "photo_blurred.");
}

#[test]
fn default_output_direct() {
    assert_eq!(default_output("cat.png"), Some(String::from("cat_blurred.png")));
    assert_eq!(default_output("photo"), None);
    assert_eq!(default_output(".png"), None);
    assert_eq!(default_output(".."), None);
    assert_eq!(default_output("a/b/"), None);
}

#[test]
fn explicit_output_used_exactly() {
    let inv = prepare(&argv(&["photo.png", "-o", "out.jpg"])).unwrap();
    assert_eq!(inv.output, "out.jpg");
    assert_eq!(inv.input, "photo.png");
}

#[test]
fn explicit_output_long_form() {
    let inv = prepare(&argv(&["--output", "x.png", "in.png"])).unwrap();
    assert_eq!(inv.output, "x.png");
    assert_eq!(inv.input, "in.png");
}

#[test]
fn sigma_option_taken() {
    let inv = prepare(&argv(&["img.png", "-s", "2.5"])).unwrap();
    assert_eq!(inv.sigma, "2.5");
}

#[test]
fn sigma_long_form() {
    let inv = prepare(&argv(&["img.png", "--sigma", "0.25"])).unwrap();
    assert_eq!(inv.sigma, "0.25");
}

#[test]
fn sigma_unparseable_rejected() {
    assert_eq!(prepare(&argv(&["img.png", "--sigma", "abc"])), Err(ArgError::InvalidSigma));
}

#[test]
fn missing_image_rejected() {
    assert_eq!(prepare(&argv(&[])), Err(ArgError::MissingImage));
    assert_eq!(prepare(&argv(&["-s", "1.0"])), Err(ArgError::MissingImage));
}

#[test]
fn extra_positional_rejected() {
    assert_eq!(prepare(&argv(&["a.png", "b.png"])), Err(ArgError::UnexpectedArgument));
}

#[test]
fn missing_option_values_rejected() {
    assert_eq!(prepare(&argv(&["a.png", "-o"])), Err(ArgError::MissingOutputValue));
    assert_eq!(prepare(&argv(&["a.png", "-s"])), Err(ArgError::MissingSigmaValue));
}

#[test]
fn repeated_options_rejected() {
    assert_eq!(
        prepare(&argv(&["a.png", "-o", "x.png", "--output", "y.png"])),
        Err(ArgError::RepeatedOutput)
    );
    assert_eq!(
        prepare(&argv(&["a.png", "-s", "1", "--sigma", "2"])),
        Err(ArgError::RepeatedSigma)
    );
}

#[test]
fn no_default_output_rejected() {
    assert_eq!(prepare(&argv(&["photo"])), Err(ArgError::NoDefaultOutput));
    assert_eq!(prepare(&argv(&[".png"])), Err(ArgError::NoDefaultOutput));
}

#[test]
fn leading_hyphen_values_accepted() {
    let inv = prepare(&argv(&["-o", "-out.png", "-s", "-3", "-in.png"])).unwrap();
    assert_eq!(inv.input, "-in.png");
    assert_eq!(inv.output, "-out.png");
    assert_eq!(inv.sigma, "-3");
}

#[test]
fn parse_keeps_output_option_as_given() {
    let p = parse_args(&argv(&["in.png", "-o", "deep/dir/out.png"])).unwrap();
    assert_eq!(p.output, Some(String::from("deep/dir/out.png")));
    let p = parse_args(&argv(&["in.png"])).unwrap();
    assert_eq!(p.output, None);
}

#[test]
fn float_literal_accepts_numbers() {
    for s in ["10.0", "0", ".5", "5.", "1e5", "1.5e-3", "-.5e+10", "1.e5", "+0.0", "-42"] {
        assert!(is_float_literal(s), "{s} should be accepted");
    }
}

#[test]
fn float_literal_accepts_special_words() {
    for s in ["inf", "INF", "+inf", "-Inf", "infinity", "Infinity", "nan", "NaN", "-NAN"] {
        assert!(is_float_literal(s), "{s} should be accepted");
    }
}

#[test]
fn float_literal_rejects_non_numbers() {
    for s in ["", ".", "abc", "1e", "e5", "+", "10.0.0", "1 ", " 1", "0x1", "1_000", "inf5", "nans", "++1", "1e+"] {
        assert!(!is_float_literal(s), "{s} should be rejected");
    }
}

#[test]
fn float_literal_agrees_with_float_parsing() {
    for s in [
        "10.0", "0", ".5", "5.", "1e5", "1.5e-3", "-.5e+10", "1.e5", "inf", "Infinity", "NaN",
        "", ".", "abc", "1e", "e5", "+", "10.0.0", "1 ", " 1", "0x1", "1_000", "inf5", "nans",
        "3.40282347e+38", "1e999",
    ] {
        assert_eq!(is_float_literal(s), s.parse::<f32>().is_ok(), "disagreement on {s:?}");
    }
}
