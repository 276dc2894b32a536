//! The command line of the tool.
//!
//! Usage: `blur-image [-o|--output FILE] [-s|--sigma FLOAT] <image>`.
//! The scan walks the argument list left to right. A token equal to
//! `-o`/`--output` or `-s`/`--sigma` takes the following token as its
//! value, whatever that token looks like, so values with a leading
//! hyphen are accepted; any other token is the positional image path,
//! of which there must be exactly one. Each option may be given at most
//! once. The sigma text defaults to `10.0` and must parse as a 32-bit
//! float. Resolving the invocation then fills in the default output
//! path when no output option was given.

use vstd::prelude::*;
use crate::paths::spec_default_output;
use crate::paths::default_output;
use crate::sigma::spec_is_float_literal;
use crate::sigma::is_float_literal;

verus! {

/// Why an argument list is rejected.
#[derive(Debug, Clone, Copy, PartialEq, Eq, Structural)]
pub enum ArgError {
    /// No positional image path was given.
    MissingImage,
    /// A second positional token was given.
    UnexpectedArgument,
    /// `-o`/`--output` was the last token, with no value after it.
    MissingOutputValue,
    /// `-s`/`--sigma` was the last token, with no value after it.
    MissingSigmaValue,
    /// `-o`/`--output` was given more than once.
    RepeatedOutput,
    /// `-s`/`--sigma` was given more than once.
    RepeatedSigma,
    /// The sigma text does not parse as a 32-bit float.
    InvalidSigma,
    /// No output was given and the input path yields no default.
    NoDefaultOutput,
}

/// What the scan has gathered so far: the positional image path and the
/// two option values, each present once or not yet seen.
pub struct ScanState {
    pub image: Option<Seq<char>>,
    pub output: Option<Seq<char>>,
    pub sigma: Option<Seq<char>>,
}

/// The scan with nothing gathered.
pub open spec fn scan_start() -> ScanState {
    ScanState { image: None, output: None, sigma: None }
}

/// One left-to-right walk of the argument list from position `i`,
/// starting in state `st`.
pub open spec fn spec_scan(args: Seq<Seq<char>>, i: int, st: ScanState) -> Result<
    ScanState,
    ArgError,
>
    recommends
        0 <= i <= args.len(),
    decreases args.len() - i,
{
    if i >= args.len() {
        Ok(st)
    } else {
        let tok = args[i];
        if tok == "-o"@ || tok == "--output"@ {
            if st.output is Some {
                Err(ArgError::RepeatedOutput)
            } else if i + 1 >= args.len() {
                Err(ArgError::MissingOutputValue)
            } else {
                spec_scan(args, i + 2, ScanState { output: Some(args[i + 1]), ..st })
            }
        } else if tok == "-s"@ || tok == "--sigma"@ {
            if st.sigma is Some {
                Err(ArgError::RepeatedSigma)
            } else if i + 1 >= args.len() {
                Err(ArgError::MissingSigmaValue)
            } else {
                spec_scan(args, i + 2, ScanState { sigma: Some(args[i + 1]), ..st })
            }
        } else if st.image is Some {
            Err(ArgError::UnexpectedArgument)
        } else {
            spec_scan(args, i + 1, ScanState { image: Some(tok), ..st })
        }
    }
}

/// A parsed argument list: the image path, the output option as given,
/// and the sigma text (the default when the option was absent).
pub struct ParsedArgsSpec {
    pub input: Seq<char>,
    pub output: Option<Seq<char>>,
    pub sigma: Seq<char>,
}

/// What parsing an argument list yields: the scan's result, with the
/// image path required, the sigma text defaulted to `10.0`, and the
/// sigma text required to parse as a float.
pub open spec fn spec_parse(args: Seq<Seq<char>>) -> Result<ParsedArgsSpec, ArgError> {
    match spec_scan(args, 0, scan_start()) {
        Err(e) => Err(e),
        Ok(st) => match st.image {
            None => Err(ArgError::MissingImage),
            Some(image) => {
                let sig = match st.sigma {
                    Some(s) => s,
                    None => "10.0"@,
                };
                if spec_is_float_literal(sig) {
                    Ok(ParsedArgsSpec { input: image, output: st.output, sigma: sig })
                } else {
                    Err(ArgError::InvalidSigma)
                }
            },
        },
    }
}

/// A parsed argument list.
pub struct ParsedArgs {
    /// The image path, as given on the command line.
    pub input: String,
    /// The output path option, exactly as given, or absent.
    pub output: Option<String>,
    /// The sigma text: the option's value, or `10.0` when absent.
    pub sigma: String,
}

impl View for ParsedArgs {
    type V = ParsedArgsSpec;

    open spec fn view(&self) -> ParsedArgsSpec {
        ParsedArgsSpec {
            input: self.input@,
            output: match self.output {
                Some(o) => Some(o@),
                None => None,
            },
            sigma: self.sigma@,
        }
    }
}

/// The option values of the running scan, seen as sequences.
pub open spec fn opt_view(o: Option<String>) -> Option<Seq<char>> {
    match o {
        Some(s) => Some(s@),
        None => None,
    }
}

/// Parses the argument list (the tokens after the program name).
pub fn parse_args(args: &Vec<String>) -> (r: Result<ParsedArgs, ArgError>)
    ensures
        match r {
            Ok(p) => spec_parse(args.deep_view()) == Ok::<ParsedArgsSpec, ArgError>(p@),
            Err(e) => spec_parse(args.deep_view()) == Err::<ParsedArgsSpec, ArgError>(e),
        },
{
    let ghost v: Seq<Seq<char>> = args.deep_view();
    let o_short: String = "-o".to_owned();
    let o_long: String = "--output".to_owned();
    let s_short: String = "-s".to_owned();
    let s_long: String = "--sigma".to_owned();
    let mut image: Option<String> = None;
    let mut output: Option<String> = None;
    let mut sigma: Option<String> = None;
    let n = args.len();
    let mut i: usize = 0;
    while i < n
        invariant
            i <= n,
            n == args.len(),
            v == args.deep_view(),
            o_short@ == "-o"@,
            o_long@ == "--output"@,
            s_short@ == "-s"@,
            s_long@ == "--sigma"@,
            spec_scan(v, 0, scan_start()) == spec_scan(
                v,
                i as int,
                (ScanState {
                    image: opt_view(image),
                    output: opt_view(output),
                    sigma: opt_view(sigma),
                }),
            ),
        decreases n - i,
    {
        let ghost st = ScanState {
            image: opt_view(image),
            output: opt_view(output),
            sigma: opt_view(sigma),
        };
        let tok = &args[i];
        proof {
            assert(v[i as int] == args@[i as int].deep_view());
        }
        if *tok == o_short || *tok == o_long {
            if output.is_some() {
                return Err(ArgError::RepeatedOutput);
            }
            if i + 1 >= n {
                return Err(ArgError::MissingOutputValue);
            }
            proof {
                assert(v[i + 1] == args@[i + 1].deep_view());
            }
            output = Some(args[i + 1].clone());
            i = i + 2;
        } else if *tok == s_short || *tok == s_long {
            if sigma.is_some() {
                return Err(ArgError::RepeatedSigma);
            }
            if i + 1 >= n {
                return Err(ArgError::MissingSigmaValue);
            }
            proof {
                assert(v[i + 1] == args@[i + 1].deep_view());
            }
            sigma = Some(args[i + 1].clone());
            i = i + 2;
        } else {
            if image.is_some() {
                return Err(ArgError::UnexpectedArgument);
            }
            image = Some(tok.clone());
            i = i + 1;
        }
    }
    let image_path: String = match image {
        Some(s) => s,
        None => {
            return Err(ArgError::MissingImage);
        },
    };
    let sigma_text: String = match sigma {
        Some(s) => s,
        None => "10.0".to_owned(),
    };
    if !is_float_literal(sigma_text.as_str()) {
        return Err(ArgError::InvalidSigma);
    }
    Ok(ParsedArgs { input: image_path, output, sigma: sigma_text })
}

/// One resolved invocation of the tool: where to read, where to write,
/// and the sigma text, all settled.
pub struct InvocationSpec {
    pub input: Seq<char>,
    pub output: Seq<char>,
    pub sigma: Seq<char>,
}

/// A resolved invocation: the image path to read, the output path to
/// write (the option's value, or the computed default), and the sigma
/// text, which parses as a 32-bit float.
#[derive(Debug, PartialEq, Eq)]
pub struct Invocation {
    pub input: String,
    pub output: String,
    pub sigma: String,
}

impl View for Invocation {
    type V = InvocationSpec;

    open spec fn view(&self) -> InvocationSpec {
        InvocationSpec { input: self.input@, output: self.output@, sigma: self.sigma@ }
    }
}

/// What preparing an argument list yields: the parse's result, with an
/// absent output option replaced by the default output path, and a
/// failure when neither exists.
pub open spec fn spec_prepare(args: Seq<Seq<char>>) -> Result<InvocationSpec, ArgError> {
    match spec_parse(args) {
        Err(e) => Err(e),
        Ok(p) => match p.output {
            Some(o) => Ok(InvocationSpec { input: p.input, output: o, sigma: p.sigma }),
            None => match spec_default_output(p.input) {
                Some(d) => Ok(InvocationSpec { input: p.input, output: d, sigma: p.sigma }),
                None => Err(ArgError::NoDefaultOutput),
            },
        },
    }
}

/// Parses the argument list and resolves the output path, yielding the
/// invocation the tool runs, or the error that ends it before any I/O.
pub fn prepare(args: &Vec<String>) -> (r: Result<Invocation, ArgError>)
    ensures
        match r {
            Ok(inv) => spec_prepare(args.deep_view()) == Ok::<InvocationSpec, ArgError>(inv@),
            Err(e) => spec_prepare(args.deep_view()) == Err::<InvocationSpec, ArgError>(e),
        },
{
    let p = match parse_args(args) {
        Ok(p) => p,
        Err(e) => {
            return Err(e);
        },
    };
    let ParsedArgs { input, output, sigma } = p;
    match output {
        Some(o) => Ok(Invocation { input, output: o, sigma }),
        None => match default_output(input.as_str()) {
            Some(d) => Ok(Invocation { input, output: d, sigma }),
            None => Err(ArgError::NoDefaultOutput),
        },
    }
}

impl ArgError {
    /// The diagnostic the tool prints for this error.
    pub fn message(&self) -> (r: String)
        ensures
            r@ == spec_arg_error_message(*self),
    {
        match self {
            ArgError::MissingImage => "error: the image to be blurred is required".to_owned(),
            ArgError::UnexpectedArgument => "error: unexpected extra argument".to_owned(),
            ArgError::MissingOutputValue => "error: --output requires a value".to_owned(),
            ArgError::MissingSigmaValue => "error: --sigma requires a value".to_owned(),
            ArgError::RepeatedOutput => "error: --output was given more than once".to_owned(),
            ArgError::RepeatedSigma => "error: --sigma was given more than once".to_owned(),
            ArgError::InvalidSigma => "error: the sigma is not a number".to_owned(),
            ArgError::NoDefaultOutput => (
            "error: no default output name: the input has no file stem or no extension").to_owned(),
        }
    }
}

/// The diagnostic for each argument error.
pub open spec fn spec_arg_error_message(e: ArgError) -> Seq<char> {
    match e {
        ArgError::MissingImage => "error: the image to be blurred is required"@,
        ArgError::UnexpectedArgument => "error: unexpected extra argument"@,
        ArgError::MissingOutputValue => "error: --output requires a value"@,
        ArgError::MissingSigmaValue => "error: --sigma requires a value"@,
        ArgError::RepeatedOutput => "error: --output was given more than once"@,
        ArgError::RepeatedSigma => "error: --sigma was given more than once"@,
        ArgError::InvalidSigma => "error: the sigma is not a number"@,
        ArgError::NoDefaultOutput => (
        "error: no default output name: the input has no file stem or no extension")@,
    }
}

/// When no output option is given and the input's file name has a stem
/// and an extension, the prepared invocation writes to the stem, then
/// `_blurred.`, then the extension.
pub proof fn lemma_default_output_shape(args: Seq<Seq<char>>)
    requires
        spec_parse(args) matches Ok(p) && p.output is None,
        spec_default_output((spec_parse(args)->Ok_0).input) is Some,
    ensures
        spec_prepare(args) matches Ok(inv) && inv.output == spec_default_output(
            (spec_parse(args)->Ok_0).input,
        )->Some_0,
{
}

/// An explicit output path is used exactly as given: whenever parsing
/// succeeds with an output option, the prepared invocation writes to
/// that value and no other.
pub proof fn lemma_explicit_output_is_used(args: Seq<Seq<char>>, out: Seq<char>)
    requires
        spec_parse(args) matches Ok(p) && p.output == Some(out),
    ensures
        spec_prepare(args) matches Ok(inv) && inv.output == out,
{
}

/// An unparseable sigma is rejected at the parsing stage itself: when
/// the scan of the argument list finds an image path and a sigma text
/// that is not a float literal, parsing fails with `InvalidSigma`, so
/// the tool never reaches its input-reading step.
pub proof fn lemma_bad_sigma_is_rejected(args: Seq<Seq<char>>)
    requires
        ({
            &&& spec_scan(args, 0, scan_start()) matches Ok(st)
            &&& st.image is Some
            &&& st.sigma matches Some(sig)
            &&& !spec_is_float_literal(sig)
        }),
    ensures
        spec_parse(args) == Err::<ParsedArgsSpec, ArgError>(ArgError::InvalidSigma),
{
}

} // verus!
