//! A verified command-line blur driver.
//!
//! The crate holds the decision logic of a small CLI tool that reads an
//! image, applies a Gaussian blur with a given sigma, and writes the
//! result: parsing the argument list, computing the default output path,
//! validating the sigma text, and choosing the report line and exit
//! status for each run outcome. The image decoding, blurring and
//! encoding themselves are file I/O on floating-point pixel data and
//! live in the unverified binary around this library.

mod args;
mod paths;
mod report;
mod sigma;

pub use args::ArgError;
pub use args::Invocation;
pub use args::InvocationSpec;
pub use args::ParsedArgs;
pub use args::ParsedArgsSpec;
pub use args::ScanState;
pub use args::lemma_bad_sigma_is_rejected;
pub use args::lemma_default_output_shape;
pub use args::lemma_explicit_output_is_used;
pub use args::parse_args;
pub use args::prepare;
pub use args::scan_start;
pub use args::spec_arg_error_message;
pub use args::spec_parse;
pub use args::spec_prepare;
pub use args::spec_scan;
pub use paths::default_output;
pub use paths::spec_default_output;
pub use paths::spec_file_name;
pub use paths::last_index_of;
pub use paths::is_dot_dot;
pub use paths::lemma_last_index_of;
pub use sigma::is_float_literal;
pub use sigma::spec_is_float_literal;
pub use report::RunOutcome;
pub use report::exit_status;
pub use report::report_line;
pub use report::spec_report;
pub use report::spec_exit_status;
pub use report::lemma_failure_report_is_not_success_claim;
