//! The encoder invocation's pure parts: the platform-dependent argument
//! list handed to the external encoder, the interpretation of its exit
//! status, and the resolution of the encoder binary's path.
//!
//! The subprocess call itself, the creation of the output directory, and the
//! search of the system path are file-system and process work done outside
//! the library; they hand these functions plain values.

use vstd::prelude::*;
use vstd::string::StringExecFns;

use crate::errors::AppError;

verus! {

/// The operating systems the encoder's hardware acceleration is configured
/// for; anything unrecognized gets no acceleration flags.
#[derive(Clone, Copy, PartialEq, Eq, Structural)]
pub enum Platform {
    MacOs,
    Windows,
    Linux,
    Other,
}

/// The settled result of one job's encoder invocation: success, or failure
/// with the encoder's diagnostic text.
pub enum ConversionOutcome {
    Success,
    Failure(String),
}

impl ConversionOutcome {
    /// Whether the outcome is a success.
    pub open spec fn is_success(&self) -> bool {
        self is Success
    }

    /// The diagnostic text of a failure; a success carries none.
    pub open spec fn diagnostic(&self) -> Seq<char> {
        match self {
            ConversionOutcome::Success => Seq::empty(),
            ConversionOutcome::Failure(d) => d@,
        }
    }

    /// Returns whether the outcome is a success.
    pub fn succeeded(&self) -> (r: bool)
        ensures
            r == self.is_success(),
    {
        match self {
            ConversionOutcome::Success => true,
            ConversionOutcome::Failure(_) => false,
        }
    }
}

/// The views of a list of strings.
pub open spec fn string_views(v: Seq<String>) -> Seq<Seq<char>> {
    v.map_values(|s: String| s@)
}

/// The hardware-acceleration flags for a platform.
pub open spec fn hw_accel_spec(p: Platform) -> Seq<Seq<char>> {
    match p {
        Platform::MacOs => seq!["-hwaccel"@, "videotoolbox"@],
        Platform::Windows => seq!["-hwaccel"@, "dxva2"@],
        Platform::Linux => seq!["-hwaccel"@, "vaapi"@, "-vaapi_device"@, "/dev/dri/renderD128"@],
        Platform::Other => Seq::empty(),
    }
}

/// The full argument list for one encoder invocation, in fixed order:
/// hardware acceleration, the input file, the video codec settings, the
/// audio codec settings, the automatic thread count, and the output file.
pub open spec fn encoder_args_spec(p: Platform, input: Seq<char>, output: Seq<char>) -> Seq<
    Seq<char>,
> {
    hw_accel_spec(p) + seq![
        "-i"@,
        input,
        "-c:v"@,
        "libx264"@,
        "-preset"@,
        "faster"@,
        "-crf"@,
        "23"@,
        "-c:a"@,
        "aac"@,
        "-b:a"@,
        "128k"@,
        "-threads"@,
        "0"@,
    ] + seq![output]
}

/// Appends one argument to the list.
fn push_arg(args: &mut Vec<String>, a: &str)
    ensures
        string_views(final(args)@) == string_views(old(args)@).push(a@),
{
    args.push(String::from_str(a));
    assert(string_views(args@) =~= string_views(old(args)@).push(a@));
}

/// Builds the encoder's argument list, as `encoder_args_spec` describes.
pub fn build_encoder_args(p: &Platform, input: &str, output: &str) -> (r: Vec<String>)
    ensures
        string_views(r@) == encoder_args_spec(*p, input@, output@),
{
    let mut args: Vec<String> = Vec::new();
    assert(string_views(args@) =~= Seq::<Seq<char>>::empty());
    match p {
        Platform::MacOs => {
            push_arg(&mut args, "-hwaccel");
            push_arg(&mut args, "videotoolbox");
        },
        Platform::Windows => {
            push_arg(&mut args, "-hwaccel");
            push_arg(&mut args, "dxva2");
        },
        Platform::Linux => {
            push_arg(&mut args, "-hwaccel");
            push_arg(&mut args, "vaapi");
            push_arg(&mut args, "-vaapi_device");
            push_arg(&mut args, "/dev/dri/renderD128");
        },
        Platform::Other => {},
    }
    assert(string_views(args@) =~= hw_accel_spec(*p));
    push_arg(&mut args, "-i");
    push_arg(&mut args, input);
    push_arg(&mut args, "-c:v");
    push_arg(&mut args, "libx264");
    push_arg(&mut args, "-preset");
    push_arg(&mut args, "faster");
    push_arg(&mut args, "-crf");
    push_arg(&mut args, "23");
    push_arg(&mut args, "-c:a");
    push_arg(&mut args, "aac");
    push_arg(&mut args, "-b:a");
    push_arg(&mut args, "128k");
    push_arg(&mut args, "-threads");
    push_arg(&mut args, "0");
    push_arg(&mut args, output);
    assert(string_views(args@) =~= encoder_args_spec(*p, input@, output@));
    args
}

/// Interprets the encoder's exit: a zero exit status is a success; any other
/// is a failure carrying the captured standard-error text.
pub fn interpret_exit(exit_success: bool, stderr: String) -> (r: ConversionOutcome)
    ensures
        exit_success ==> r is Success,
        !exit_success ==> (r matches ConversionOutcome::Failure(d) && d@ == stderr@),
{
    if exit_success {
        ConversionOutcome::Success
    } else {
        ConversionOutcome::Failure(stderr)
    }
}

/// The path the bundled encoder binary is expected at when the system path
/// holds none.
pub open spec fn bundled_encoder_path(p: Platform) -> Seq<char> {
    if p is Windows {
        "bin/ffmpeg/ffmpeg.exe"@
    } else {
        "bin/ffmpeg/ffmpeg"@
    }
}

/// The message reported when the encoder is found neither on the system
/// path nor at the bundled location.
pub open spec fn missing_encoder_message(p: Platform) -> Seq<char> {
    "FFmpeg binary not found. Please ensure it's either:\n1. Installed and available in your system PATH, or\n2. Located at \""@
        + bundled_encoder_path(p) + "\""@
}

/// Returns the bundled encoder path for a platform.
pub fn bundled_encoder_path_for(p: &Platform) -> (r: String)
    ensures
        r@ == bundled_encoder_path(*p),
{
    match p {
        Platform::Windows => String::from_str("bin/ffmpeg/ffmpeg.exe"),
        _ => String::from_str("bin/ffmpeg/ffmpeg"),
    }
}

/// Decides where the encoder binary is: a path found on the system path
/// wins; otherwise the bundled path, provided something exists there;
/// otherwise the run cannot start, with a message naming both attempted
/// locations.
pub fn resolve_encoder_path(lookup: Option<String>, bundled_exists: bool, p: &Platform) -> (r:
    Result<String, AppError>)
    ensures
        lookup matches Some(path) ==> (r matches Ok(o) && o@ == path@),
        lookup is None && bundled_exists ==> (r matches Ok(o) && o@ == bundled_encoder_path(*p)),
        lookup is None && !bundled_exists ==> (r matches Err(e) && (e matches AppError::FFmpegError(
            m,
        ) && m@ == missing_encoder_message(*p))),
{
    match lookup {
        Some(path) => Ok(path),
        None => {
            if bundled_exists {
                Ok(bundled_encoder_path_for(p))
            } else {
                let msg = String::from_str(
                    "FFmpeg binary not found. Please ensure it's either:\n1. Installed and available in your system PATH, or\n2. Located at \"",
                ).concat(bundled_encoder_path_for(p).as_str()).concat("\"");
                Err(AppError::FFmpegError(msg))
            }
        },
    }
}

} // verus!
