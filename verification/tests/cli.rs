use ocr_cli::backend::Backend;
use ocr_cli::cli::{parse_args_impl, CliArgs};
use std::path::PathBuf;

/// Builds an argv: ["ocr-cli", ...rest]
fn argv(rest: &[&str]) -> Vec<String> {
    let mut v = vec!["ocr-cli".to_string()];
    v.extend(rest.iter().map(|s| s.to_string()));
    v
}

fn path(s: &String) -> PathBuf {
    PathBuf::from(s)
}

fn opt_path(s: &Option<String>) -> Option<PathBuf> {
    s.as_ref().map(PathBuf::from)
}

fn parse(rest: &[&str]) -> CliArgs {
    let a = argv(rest);
    parse_args_impl(&a)
}

#[test]
fn test_help_short() {
    let args = parse(&["-h"]);
    assert!(args.help);
    assert!(!args.version);
}

#[test]
fn test_help_long() {
    let args = parse(&["--help"]);
    assert!(args.help);
}

#[test]
fn test_version_short() {
    let args = parse(&["-V"]);
    assert!(args.version);
}

#[test]
fn test_version_long() {
    let args = parse(&["--version"]);
    assert!(args.version);
}

#[test]
fn test_list_models() {
    let args = parse(&["--list-models"]);
    assert!(args.list_models);
}

#[test]
fn test_json() {
    let args = parse(&["--json", "img.png"]);
    assert!(args.json);
}

#[test]
fn test_quiet() {
    let args = parse(&["--quiet", "img.png"]);
    assert!(args.quiet);
}

#[test]
fn test_image_positional() {
    let args = parse(&["photo.jpg"]);
    assert_eq!(path(&args.image), PathBuf::from("photo.jpg"));
}

#[test]
fn test_image_with_path_flag() {
    let args = parse(&["--path", "photo.jpg"]);
    assert_eq!(path(&args.image), PathBuf::from("photo.jpg"));
}

#[test]
fn test_image_missing_no_flags() {
    let args = parse(&[]);
    assert!(args.image.is_empty());
}

#[test]
fn test_image_missing_but_help() {
    let args = parse(&["--help"]);
    assert!(args.help);
    assert!(args.image.is_empty());
}

#[test]
fn test_image_missing_but_version() {
    let args = parse(&["-V"]);
    assert!(args.version);
}

#[test]
fn test_image_missing_but_list_models() {
    let args = parse(&["--list-models"]);
    assert!(args.list_models);
}

#[test]
fn test_model_v4() {
    let args = parse(&["img.png", "-m", "v4"]);
    assert_eq!(opt_path(&args.det_model), Some(PathBuf::from("models/ch_PP-OCRv4_det_infer.mnn")));
    assert_eq!(opt_path(&args.rec_model), Some(PathBuf::from("models/ch_PP-OCRv4_rec_infer.mnn")));
    assert_eq!(opt_path(&args.keys), Some(PathBuf::from("models/ppocr_keys_v4.txt")));
}

#[test]
fn test_model_v5() {
    let args = parse(&["img.png", "-m", "v5"]);
    assert_eq!(opt_path(&args.det_model), Some(PathBuf::from("models/PP-OCRv5_mobile_det.mnn")));
    assert_eq!(opt_path(&args.rec_model), Some(PathBuf::from("models/PP-OCRv5_mobile_rec.mnn")));
    assert_eq!(opt_path(&args.keys), Some(PathBuf::from("models/ppocr_keys_v5.txt")));
}

#[test]
fn test_model_v6() {
    let args = parse(&["img.png", "-m", "v6"]);
    assert_eq!(opt_path(&args.det_model), Some(PathBuf::from("models/PP-OCRv6_small_det.mnn")));
    assert_eq!(opt_path(&args.rec_model), Some(PathBuf::from("models/PP-OCRv6_small_rec.mnn")));
    assert_eq!(opt_path(&args.keys), Some(PathBuf::from("models/ppocr_keys_v6.txt")));
}

#[test]
fn test_model_default_v5() {
    let args = parse(&["img.png"]);
    assert_eq!(opt_path(&args.det_model), Some(PathBuf::from("models/PP-OCRv5_mobile_det.mnn")));
}

#[test]
fn test_model_unknown_version() {
    let args = parse(&["img.png", "-m", "v99"]);
    assert_eq!(opt_path(&args.det_model), Some(PathBuf::from("models/PP-OCRv5_mobile_det.mnn")));
}

#[test]
fn test_m_json_alias() {
    let args = parse(&["img.png", "-m", "json"]);
    assert!(args.json);
    assert!(!args.quiet, "json and quiet stay independent");
    assert_eq!(opt_path(&args.det_model), Some(PathBuf::from("models/PP-OCRv5_mobile_det.mnn")));
}

#[test]
fn test_json_flag_does_not_set_quiet() {
    let args = parse(&["img.png", "--json"]);
    assert!(args.json);
    assert!(!args.quiet, "--json does not imply --quiet");
}

#[test]
fn test_quiet_does_not_set_json() {
    let args = parse(&["img.png", "--quiet"]);
    assert!(args.quiet);
    assert!(!args.json, "--quiet does not imply --json");
}

#[test]
fn test_model_long_flag() {
    let args = parse(&["img.png", "--model", "v6"]);
    assert_eq!(opt_path(&args.det_model), Some(PathBuf::from("models/PP-OCRv6_small_det.mnn")));
}

#[test]
fn test_det_override() {
    let args = parse(&["img.png", "--det", "custom_det.mnn"]);
    assert_eq!(opt_path(&args.det_model), Some(PathBuf::from("custom_det.mnn")));
}

#[test]
fn test_rec_override() {
    let args = parse(&["img.png", "--rec", "custom_rec.mnn"]);
    assert_eq!(opt_path(&args.rec_model), Some(PathBuf::from("custom_rec.mnn")));
}

#[test]
fn test_keys_override() {
    let args = parse(&["img.png", "--keys", "custom_keys.txt"]);
    assert_eq!(opt_path(&args.keys), Some(PathBuf::from("custom_keys.txt")));
}

#[test]
fn test_ori_model() {
    let args = parse(&["img.png", "--ori", "models/ori.mnn"]);
    assert_eq!(opt_path(&args.ori_model), Some(PathBuf::from("models/ori.mnn")));
}

#[test]
fn test_output() {
    let args = parse(&["img.png", "--output", "out.png"]);
    assert_eq!(opt_path(&args.output), Some(PathBuf::from("out.png")));
}

#[test]
fn test_backend() {
    let args = parse(&["img.png", "--backend", "metal"]);
    assert!(matches!(args.backend, Backend::Metal));
}

#[test]
fn test_threads() {
    let args = parse(&["img.png", "--threads", "8"]);
    assert_eq!(args.threads, Some(8));
}

#[test]
fn test_threads_invalid() {
    let args = parse(&["img.png", "--threads", "abc"]);
    assert_eq!(args.threads, None);
}

#[test]
fn test_path_json_compat() {
    let args = parse(&["--path", "photo.jpg", "-m", "json"]);
    assert_eq!(path(&args.image), PathBuf::from("photo.jpg"));
    assert!(args.json);
    assert!(!args.quiet, "external callers do not get --quiet implied");
}

#[test]
fn test_path_m_json_combined() {
    let args = parse(&["-m", "json", "--path", "photo.jpg"]);
    assert_eq!(path(&args.image), PathBuf::from("photo.jpg"));
    assert!(args.json);
}

#[test]
fn test_json_quiet_both() {
    let args = parse(&["img.png", "--json", "--quiet"]);
    assert!(args.json);
    assert!(args.quiet, "--json --quiet together set quiet");
}

#[test]
fn test_image_m_v6_json_output() {
    let args = parse(&["photo.jpg", "-m", "v6", "--json", "--output", "out.png"]);
    assert_eq!(path(&args.image), PathBuf::from("photo.jpg"));
    assert_eq!(opt_path(&args.det_model), Some(PathBuf::from("models/PP-OCRv6_small_det.mnn")));
    assert!(args.json);
    assert_eq!(opt_path(&args.output), Some(PathBuf::from("out.png")));
}

#[test]
fn test_full_pipeline_args() {
    let args = parse(&[
        "scan.png",
        "-m", "v6",
        "--ori", "models/ori.mnn",
        "--backend", "cpu",
        "--threads", "4",
        "--json",
        "--output", "annotated.png",
    ]);
    assert_eq!(path(&args.image), PathBuf::from("scan.png"));
    assert_eq!(opt_path(&args.det_model), Some(PathBuf::from("models/PP-OCRv6_small_det.mnn")));
    assert_eq!(opt_path(&args.ori_model), Some(PathBuf::from("models/ori.mnn")));
    assert!(matches!(args.backend, Backend::CPU));
    assert_eq!(args.threads, Some(4));
    assert!(args.json);
    assert_eq!(opt_path(&args.output), Some(PathBuf::from("annotated.png")));
}

#[test]
fn test_positional_after_flags() {
    let args = parse(&["--json", "photo.jpg"]);
    assert!(args.json);
    assert_eq!(path(&args.image), PathBuf::from("photo.jpg"));
}

#[test]
fn test_image_before_flags() {
    let args = parse(&["photo.jpg", "--json", "--quiet"]);
    assert_eq!(path(&args.image), PathBuf::from("photo.jpg"));
    assert!(args.json);
    assert!(args.quiet);
}
