//! Tests of the pure core: text folding, path derivation, discovery
//! selection, encoder arguments, exit interpretation, encoder resolution,
//! and prompt parsing.

use mov2mp4::discovery::{discover_jobs, DirEntryInfo};
use mov2mp4::encoder::{
    build_encoder_args, interpret_exit, resolve_encoder_path, ConversionOutcome, Platform,
};
use mov2mp4::errors::AppError;
use mov2mp4::jobs::ConversionJob;
use mov2mp4::paths::{extension_of_name, file_name_of, join_path, output_path_for, stem_of_name};
use mov2mp4::prompt::{parse_yes_answer, trim_ascii};
use mov2mp4::text::{eq_ignore_ascii_case, rfind_char, to_lower_char};

fn entry(name: &str, is_file: bool) -> DirEntryInfo {
    DirEntryInfo { name: name.to_string(), is_file }
}

#[test]
fn lower_char_folds_ascii_letters_only() {
    assert_eq!(to_lower_char('A'), 'a');
    assert_eq!(to_lower_char('Z'), 'z');
    assert_eq!(to_lower_char('m'), 'm');
    assert_eq!(to_lower_char('4'), '4');
    assert_eq!(to_lower_char('/'), '/');
}

#[test]
fn case_insensitive_comparison() {
    assert!(eq_ignore_ascii_case("MoV", "mov"));
    assert!(eq_ignore_ascii_case("MOV", "mov"));
    assert!(eq_ignore_ascii_case("", ""));
    assert!(!eq_ignore_ascii_case("mov", "mp4"));
    assert!(!eq_ignore_ascii_case("mov", "movie"));
}

#[test]
fn rfind_locates_last_occurrence() {
    assert_eq!(rfind_char("a.b.c", '.'), Some(3));
    assert_eq!(rfind_char("abc", '.'), None);
    assert_eq!(rfind_char(".abc", '.'), Some(0));
}

#[test]
fn extension_and_stem_of_names() {
    assert_eq!(extension_of_name("clip.mov"), Some("mov"));
    assert_eq!(extension_of_name("archive.tar.mov"), Some("mov"));
    assert_eq!(extension_of_name("README"), None);
    assert_eq!(extension_of_name(".mov"), None);
    assert_eq!(stem_of_name("clip.mov"), "clip");
    assert_eq!(stem_of_name("archive.tar.mov"), "archive.tar");
    assert_eq!(stem_of_name("README"), "README");
}

#[test]
fn path_building() {
    assert_eq!(join_path("mov", "clip.mov"), "mov/clip.mov");
    assert_eq!(file_name_of("mov/clip.mov"), "clip.mov");
    assert_eq!(file_name_of("clip.mov"), "clip.mov");
    assert_eq!(output_path_for("clip.mov"), "mp4/clip.mp4");
    assert_eq!(output_path_for("archive.tar.mov"), "mp4/archive.tar.mp4");
    assert_eq!(output_path_for("noext"), "mp4/noext.mp4");
}

#[test]
fn job_paths_and_display_name() {
    let job = ConversionJob::make("clip.MOV");
    assert_eq!(job.source_path, "mov/clip.MOV");
    assert_eq!(job.derived_output_path, "mp4/clip.mp4");
    assert_eq!(job.display_name(), "clip.MOV");
}

#[test]
fn discovery_is_case_insensitive_and_skips_directories() {
    let entries = vec![entry("A.MOV", true), entry("b.mov", false)];
    let jobs = discover_jobs(&entries);
    assert_eq!(jobs.len(), 1);
    assert_eq!(jobs[0].source_path, "mov/A.MOV");
    assert_eq!(jobs[0].derived_output_path, "mp4/A.mp4");
}

#[test]
fn discovery_skips_non_matching_and_hidden_names() {
    let entries = vec![
        entry("clip.mov", true),
        entry("notes.txt", true),
        entry("README", true),
        entry(".mov", true),
        entry("second.MoV", true),
    ];
    let jobs = discover_jobs(&entries);
    assert_eq!(jobs.len(), 2);
    assert_eq!(jobs[0].source_path, "mov/clip.mov");
    assert_eq!(jobs[1].source_path, "mov/second.MoV");
}

#[test]
fn discovery_of_empty_directory_yields_no_jobs() {
    let entries: Vec<DirEntryInfo> = Vec::new();
    let jobs = discover_jobs(&entries);
    assert_eq!(jobs.len(), 0);
}

#[test]
fn encoder_args_on_linux() {
    let args = build_encoder_args(&Platform::Linux, "mov/a.mov", "mp4/a.mp4");
    let expected = vec![
        "-hwaccel",
        "vaapi",
        "-vaapi_device",
        "/dev/dri/renderD128",
        "-i",
        "mov/a.mov",
        "-c:v",
        "libx264",
        "-preset",
        "faster",
        "-crf",
        "23",
        "-c:a",
        "aac",
        "-b:a",
        "128k",
        "-threads",
        "0",
        "mp4/a.mp4",
    ];
    assert_eq!(args, expected);
}

#[test]
fn encoder_args_on_macos_and_windows() {
    let mac = build_encoder_args(&Platform::MacOs, "mov/a.mov", "mp4/a.mp4");
    assert_eq!(&mac[0..2], &["-hwaccel".to_string(), "videotoolbox".to_string()][..]);
    assert_eq!(mac.len(), 17);
    let win = build_encoder_args(&Platform::Windows, "mov/a.mov", "mp4/a.mp4");
    assert_eq!(&win[0..2], &["-hwaccel".to_string(), "dxva2".to_string()][..]);
    assert_eq!(win.len(), 17);
}

#[test]
fn encoder_args_on_unrecognized_platform_have_no_acceleration() {
    let args = build_encoder_args(&Platform::Other, "mov/a.mov", "mp4/a.mp4");
    assert_eq!(args.len(), 15);
    assert_eq!(args[0], "-i");
    assert_eq!(args[1], "mov/a.mov");
    assert_eq!(args[14], "mp4/a.mp4");
}

#[test]
fn zero_exit_is_success() {
    let outcome = interpret_exit(true, String::new());
    assert!(matches!(outcome, ConversionOutcome::Success));
}

#[test]
fn nonzero_exit_carries_stderr_as_diagnostic() {
    let outcome = interpret_exit(false, "bad codec".to_string());
    match outcome {
        ConversionOutcome::Failure(diagnostic) => assert_eq!(diagnostic, "bad codec"),
        ConversionOutcome::Success => panic!("a non-zero exit must be a failure"),
    }
}

#[test]
fn encoder_resolution_prefers_system_path() {
    let r = resolve_encoder_path(Some("/usr/bin/ffmpeg".to_string()), true, &Platform::Linux);
    assert_eq!(r.ok(), Some("/usr/bin/ffmpeg".to_string()));
}

#[test]
fn encoder_resolution_falls_back_to_bundled_path() {
    let r = resolve_encoder_path(None, true, &Platform::Linux);
    assert_eq!(r.ok(), Some("bin/ffmpeg/ffmpeg".to_string()));
    let r = resolve_encoder_path(None, true, &Platform::Windows);
    assert_eq!(r.ok(), Some("bin/ffmpeg/ffmpeg.exe".to_string()));
}

#[test]
fn encoder_resolution_failure_names_both_locations() {
    let r = resolve_encoder_path(None, false, &Platform::MacOs);
    match r {
        Err(AppError::FFmpegError(m)) => {
            assert!(m.contains("system PATH"));
            assert!(m.contains("bin/ffmpeg/ffmpeg"));
        },
        _ => panic!("resolution without any location must fail"),
    }
}

#[test]
fn error_text_is_the_carried_message() {
    assert_eq!(AppError::FFmpegError("boom".to_string()).text(), "boom");
    assert_eq!(AppError::IoError("disk".to_string()).text(), "disk");
    assert_eq!(AppError::PathError("bad".to_string()).text(), "bad");
}

#[test]
fn trimming_strips_surrounding_whitespace() {
    assert_eq!(trim_ascii("  yes\n"), "yes");
    assert_eq!(trim_ascii("\r\n"), "");
    assert_eq!(trim_ascii("y"), "y");
    assert_eq!(trim_ascii("a b"), "a b");
}

#[test]
fn prompt_answers() {
    assert!(parse_yes_answer("yes\n"));
    assert!(parse_yes_answer(" Y "));
    assert!(parse_yes_answer("YES"));
    assert!(parse_yes_answer("y"));
    assert!(!parse_yes_answer("no"));
    assert!(!parse_yes_answer(""));
    assert!(!parse_yes_answer("yeah"));
}
