use ocr_cli::annotate::{annotate_pixels, plan_frames, Frame, Rgb};
use ocr_cli::backend::Backend;
use ocr_cli::cli::{
    model_path_string, model_set, model_version_from_name, parse_args, parse_args_for,
    parse_args_impl, plan_run, ArgsOutcome, CliArgs, Command, ModelVersion, ParseWarning,
};
use ocr_cli::number::parse_u32;
use ocr_cli::embedded::{embedded_version, get_embedded_models, is_bundled};
use ocr_cli::models::{model_listing, render_listing, version_str};
use ocr_cli::report::TextRegion;
use ocr_cli::text::{
    contains_str, decimal_string, starts_with_str, str_equals, unsigned_string,
};

fn argv(rest: &[&str]) -> Vec<String> {
    let mut v = vec!["ocr-cli".to_string()];
    v.extend(rest.iter().map(|s| s.to_string()));
    v
}

fn parse(rest: &[&str]) -> CliArgs {
    parse_args_impl(&argv(rest))
}

fn region(left: i32, top: i32, width: u32, height: u32) -> TextRegion {
    TextRegion {
        text: "t".to_string(),
        confidence_percent: "50.00".to_string(),
        confidence_rounded: "0.500".to_string(),
        left,
        top,
        width,
        height,
        points: None,
    }
}

// ---- laws of the parser, on concrete command lines ----

#[test]
fn model_json_parses_like_json_flag() {
    assert_eq!(parse(&["a.png", "-m", "json", "--quiet"]), parse(&["a.png", "--json", "--quiet"]));
    assert_eq!(parse(&["--model", "json", "b.png"]), parse(&["--json", "b.png"]));
}

#[test]
fn path_option_parses_like_positional_image() {
    assert_eq!(parse(&["--path", "x.png", "--json"]), parse(&["x.png", "--json"]));
    assert_eq!(parse(&["-m", "v4", "--path", "y.jpg"]), parse(&["-m", "v4", "y.jpg"]));
}

#[test]
fn later_positional_is_reported_and_ignored() {
    let args = parse(&["a.png", "b.png"]);
    assert_eq!(args.image, "a.png");
    assert_eq!(args.warnings, vec![ParseWarning::UnknownArgument("b.png".to_string())]);
}

#[test]
fn path_option_overrides_an_earlier_image() {
    let args = parse(&["a.png", "--path", "b.png"]);
    assert_eq!(args.image, "b.png");
    assert!(args.warnings.is_empty());
}

#[test]
fn unknown_model_version_uses_v5_and_warns() {
    let args = parse(&["img.png", "-m", "v6", "-m", "v7"]);
    assert_eq!(args.det_model.as_deref(), Some("models/PP-OCRv5_mobile_det.mnn"));
    assert_eq!(args.rec_model.as_deref(), Some("models/PP-OCRv5_mobile_rec.mnn"));
    assert_eq!(args.keys.as_deref(), Some("models/ppocr_keys_v5.txt"));
    assert_eq!(args.warnings, vec![ParseWarning::UnknownModelVersion("v7".to_string())]);
}

#[test]
fn named_model_files_take_precedence_over_model() {
    let args = parse(&["img.png", "--det", "custom_det.mnn", "-m", "v6"]);
    assert_eq!(args.det_model.as_deref(), Some("custom_det.mnn"));
    assert_eq!(args.rec_model.as_deref(), Some("models/PP-OCRv6_small_rec.mnn"));
    assert_eq!(args.keys.as_deref(), Some("models/ppocr_keys_v6.txt"));
    let args = parse(&["img.png", "-m", "v4", "--det", "a.mnn"]);
    assert_eq!(args.det_model.as_deref(), Some("a.mnn"));
    assert_eq!(args.rec_model.as_deref(), Some("models/ch_PP-OCRv4_rec_infer.mnn"));
    let args = parse(&["img.png", "--rec", "r.mnn", "--keys", "k.txt", "-m", "v4", "--det", "a.mnn", "--det", "b.mnn"]);
    assert_eq!(args.det_model.as_deref(), Some("b.mnn"));
    assert_eq!(args.rec_model.as_deref(), Some("r.mnn"));
    assert_eq!(args.keys.as_deref(), Some("k.txt"));
    assert!(args.det_given && args.rec_given && args.keys_given);
}

#[test]
fn model_json_whole_line_and_path_whole_line() {
    let rest = ["--quiet", "-m", "v4", "z.png"];
    let mut a = vec!["--path", "p.png"];
    a.extend(rest);
    let mut b = vec!["p.png"];
    b.extend(rest);
    assert_eq!(parse(&a), parse(&b));
    let mut a = vec!["--model", "json"];
    a.extend(rest);
    let mut b = vec!["--json"];
    b.extend(rest);
    assert_eq!(parse(&a), parse(&b));
}

// ---- warnings and edge cases ----

#[test]
fn unknown_backend_selects_cpu_and_warns() {
    let args = parse(&["img.png", "--backend", "metal", "--backend", "tpu"]);
    assert_eq!(args.backend, Backend::CPU);
    assert_eq!(args.warnings, vec![ParseWarning::UnknownBackend("tpu".to_string())]);
    let args = parse(&["img.png", "--backend", "CUDA"]);
    assert_eq!(args.backend, Backend::CUDA);
    assert!(args.warnings.is_empty());
}

#[test]
fn option_at_end_takes_empty_value() {
    let args = parse(&["img.png", "--det"]);
    assert_eq!(args.det_model.as_deref(), Some(""));
    let args = parse(&["--path"]);
    assert_eq!(args.image, "");
    let args = parse(&["img.png", "--backend"]);
    assert_eq!(args.backend, Backend::CPU);
    assert_eq!(args.warnings, vec![ParseWarning::UnknownBackend(String::new())]);
    let args = parse(&["img.png", "-m"]);
    assert_eq!(args.warnings, vec![ParseWarning::UnknownModelVersion(String::new())]);
}

#[test]
fn unknown_dash_argument_is_reported() {
    let args = parse(&["-x", "--jsonn", "img.png"]);
    assert_eq!(args.image, "img.png");
    assert!(!args.json);
    assert_eq!(
        args.warnings,
        vec![
            ParseWarning::UnknownArgument("-x".to_string()),
            ParseWarning::UnknownArgument("--jsonn".to_string()),
        ]
    );
}

#[test]
fn option_value_is_taken_verbatim() {
    let args = parse(&["--path", "--json"]);
    assert_eq!(args.image, "--json");
    assert!(!args.json);
}

#[test]
fn thread_counts_follow_unsigned_parsing() {
    assert_eq!(parse(&["--threads", "+7"]).threads, Some(7));
    assert_eq!(parse(&["--threads", "007"]).threads, Some(7));
    assert_eq!(parse(&["--threads", "-1"]).threads, None);
    assert_eq!(parse(&["--threads", "4294967295"]).threads, Some(u32::MAX));
    assert_eq!(parse(&["--threads", "4294967296"]).threads, None);
    assert_eq!(parse(&["--threads", ""]).threads, None);
    assert_eq!(parse(&["--threads", " 8"]).threads, None);
    assert_eq!(parse(&["--threads", "+"]).threads, None);
    assert_eq!(parse(&["--threads", "8", "--threads", "x"]).threads, None);
    assert_eq!(parse(&["--threads", "0"]).threads, Some(0));
    assert_eq!(parse(&["--threads", "99999999999999999999"]).threads, None);
    assert_eq!(parse(&["--threads", "1_000"]).threads, None);
    assert_eq!(parse(&["--threads", "٣"]).threads, None);
}

#[test]
fn program_name_is_skipped() {
    let args = parse_args_impl(&vec!["--json".to_string()]);
    assert!(!args.json);
    assert!(args.warnings.is_empty());
    let args = parse_args_impl(&Vec::new());
    assert!(args.image.is_empty());
}

#[test]
fn embedded_models_ignore_model_options() {
    let a = argv(&["img.png", "-m", "v6", "--det", "d", "--rec", "r", "--keys", "k", "-m", "json"]);
    let args = parse_args_for(&a, true);
    assert_eq!(args.det_model, None);
    assert_eq!(args.rec_model, None);
    assert_eq!(args.keys, None);
    assert!(args.json);
    assert_eq!(
        args.warnings,
        vec![
            ParseWarning::ModelFixedByBundle,
            ParseWarning::DetFixedByBundle,
            ParseWarning::RecFixedByBundle,
            ParseWarning::KeysFixedByBundle,
        ]
    );
    assert_eq!(parse_args_for(&a, false), parse_args_impl(&a));
}

// ---- what to do with the command line ----

#[test]
fn no_argument_shows_help() {
    assert_eq!(parse_args(&argv(&[])), ArgsOutcome::ShowHelp);
    assert_eq!(parse_args(&Vec::new()), ArgsOutcome::ShowHelp);
}

#[test]
fn missing_image_is_an_error_unless_another_task_is_asked() {
    match parse_args(&argv(&["--json"])) {
        ArgsOutcome::MissingImage(a) => assert!(a.json),
        other => panic!("unexpected {:?}", other),
    }
    assert!(matches!(parse_args(&argv(&["-x"])), ArgsOutcome::MissingImage(_)));
    assert!(matches!(parse_args(&argv(&["--help"])), ArgsOutcome::Ready(_)));
    assert!(matches!(parse_args(&argv(&["-V"])), ArgsOutcome::Ready(_)));
    assert!(matches!(parse_args(&argv(&["--list-models"])), ArgsOutcome::Ready(_)));
    assert!(matches!(parse_args(&argv(&["a.png"])), ArgsOutcome::Ready(_)));
}

#[test]
fn run_plan_follows_the_flags() {
    let p = plan_run(&parse(&["-V", "-h", "--list-models"]));
    assert_eq!(p.command, Command::Help);
    let p = plan_run(&parse(&["--list-models", "-V"]));
    assert_eq!(p.command, Command::Version);
    let p = plan_run(&parse(&["--list-models"]));
    assert_eq!(p.command, Command::ListModels);
    let p = plan_run(&parse(&["a.png", "--threads", "8"]));
    assert_eq!(p.command, Command::Recognize);
    assert_eq!(p.threads, Some(8));
    assert!(p.show_progress);
    assert!(!p.json);
    assert!(!p.report_quiet);
    assert!(!p.engine_quiet);
    assert!(!p.use_embedded_models);
    let p = plan_run(&parse(&["a.png", "--json", "--threads", "4294967295"]));
    assert_eq!(p.threads, Some(-1));
    assert!(p.json);
    assert!(p.report_quiet);
    assert!(p.engine_quiet);
    assert!(!p.show_progress);
    let p = plan_run(&parse(&["a.png", "--quiet"]));
    assert!(p.report_quiet);
    assert!(!p.show_progress);
}

// ---- models ----

#[test]
fn model_sets_and_paths() {
    let m = model_set(ModelVersion::V4);
    assert_eq!((m.det, m.rec, m.keys), ("ch_PP-OCRv4_det_infer.mnn", "ch_PP-OCRv4_rec_infer.mnn", "ppocr_keys_v4.txt"));
    assert_eq!(model_path_string("x.mnn"), "models/x.mnn");
    assert_eq!(model_version_from_name("v6"), Some(ModelVersion::V6));
    assert_eq!(model_version_from_name("V6"), None);
    assert_eq!(version_str(ModelVersion::V5), "v5");
}

#[test]
fn embedded_models_are_absent() {
    let (d, r, k) = get_embedded_models();
    assert!(d.is_empty() && r.is_empty() && k.is_empty());
    assert_eq!(embedded_version(), "");
    assert!(!is_bundled());
}

#[test]
fn listing_sorts_and_groups_files() {
    let names: Vec<String> = [
        "PP-OCRv5_mobile_rec.mnn",
        "ppocr_keys_v5.txt",
        "PP-OCRv5_mobile_det.mnn",
        "readme.md",
        "ch_PP-LCNet_x0_25_textline_ori.mnn",
        "ch_PP-OCRv4_det_infer.mnn",
    ]
    .iter()
    .map(|s| s.to_string())
    .collect();
    let l = model_listing(names);
    assert_eq!(
        l.entries,
        vec![
            "PP-OCRv5_mobile_det.mnn",
            "PP-OCRv5_mobile_rec.mnn",
            "ch_PP-LCNet_x0_25_textline_ori.mnn",
            "ch_PP-OCRv4_det_infer.mnn",
            "ppocr_keys_v5.txt",
            "readme.md",
        ]
    );
    assert_eq!(l.det, vec!["PP-OCRv5_mobile_det.mnn", "ch_PP-OCRv4_det_infer.mnn"]);
    assert_eq!(l.rec, vec!["PP-OCRv5_mobile_rec.mnn"]);
    assert_eq!(l.keys, vec!["ppocr_keys_v5.txt"]);
    assert_eq!(l.ori, vec!["ch_PP-LCNet_x0_25_textline_ori.mnn"]);
    assert_eq!(l.other, vec!["readme.md"]);
    assert_eq!(l.versions, vec![ModelVersion::V4, ModelVersion::V5]);
    let text = render_listing(&l);
    assert_eq!(
        text,
        "📦 models/ 目录中的可用文件:\n\n\
         \x20 检测模型 (Detection):\n    PP-OCRv5_mobile_det.mnn\n    ch_PP-OCRv4_det_infer.mnn\n\n\
         \x20 识别模型 (Recognition):\n    PP-OCRv5_mobile_rec.mnn\n\n\
         \x20 字符集 (Charset):\n    ppocr_keys_v5.txt\n\n\
         \x20 方向模型 (Orientation):\n    ch_PP-LCNet_x0_25_textline_ori.mnn\n\n\
         \x20 其他文件:\n    readme.md\n\n\
         \x20 检测到的模型版本: v4, v5\n\n\
         \x20 用法: ocr-cli <image> -m <版本>\n    ocr-cli photo.jpg -m v4\n    ocr-cli photo.jpg -m v5\n"
    );
}

#[test]
fn listing_of_nothing_is_only_the_header() {
    let l = model_listing(Vec::new());
    assert!(l.versions.is_empty());
    assert_eq!(render_listing(&l), "📦 models/ 目录中的可用文件:\n\n");
}

#[test]
fn a_file_may_belong_to_several_groups() {
    let l = model_listing(vec!["det_rec_v6.bin".to_string(), "v5_and_v4.txt".to_string()]);
    assert_eq!(l.det, vec!["det_rec_v6.bin"]);
    assert_eq!(l.rec, vec!["det_rec_v6.bin"]);
    assert_eq!(l.other, vec!["v5_and_v4.txt"]);
    assert_eq!(l.versions, vec![ModelVersion::V4, ModelVersion::V6]);
}

// ---- annotation ----

#[test]
fn frames_cycle_through_eight_colours() {
    let regions: Vec<TextRegion> = (0..9).map(|i| region(0, i, 2, 2)).collect();
    let plan = plan_frames(&regions);
    assert_eq!(plan.len(), 9);
    assert_eq!(plan[0].color, Rgb { r: 255, g: 0, b: 0 });
    assert_eq!(plan[6].color, Rgb { r: 255, g: 128, b: 0 });
    assert_eq!(plan[7].color, Rgb { r: 128, g: 0, b: 255 });
    assert_eq!(plan[8].color, plan[0].color);
}

#[test]
fn inner_regions_get_a_second_frame() {
    let plan = plan_frames(&vec![region(5, 6, 10, 3), region(0, 6, 10, 3), region(5, 0, 1, 1)]);
    let green = Rgb { r: 0, g: 255, b: 0 };
    let red = Rgb { r: 255, g: 0, b: 0 };
    assert_eq!(
        plan,
        vec![
            Frame { left: 5, top: 6, width: 10, height: 3, color: red },
            Frame { left: 4, top: 5, width: 12, height: 5, color: red },
            Frame { left: 0, top: 6, width: 10, height: 3, color: green },
            Frame { left: 5, top: 0, width: 1, height: 1, color: Rgb { r: 0, g: 0, b: 255 } },
        ]
    );
}

#[test]
fn annotation_draws_the_frames() {
    let (w, h) = (6u32, 6u32);
    let px = vec![0u8; (w * h * 3) as usize];
    let out = annotate_pixels(px, w, h, &vec![region(1, 1, 2, 2)]);
    assert_eq!(out.len(), (w * h * 3) as usize);
    let at = |x: u32, y: u32| {
        let i = ((y * w + x) * 3) as usize;
        (out[i], out[i + 1], out[i + 2])
    };
    for &(x, y) in &[(0, 0), (3, 0), (0, 3), (3, 3), (1, 1), (2, 2), (1, 2), (2, 1), (1, 0)] {
        assert_eq!(at(x, y), (255, 0, 0), "pixel {},{}", x, y);
    }
    for &(x, y) in &[(4, 4), (5, 5), (4, 0), (0, 4), (5, 2)] {
        assert_eq!(at(x, y), (0, 0, 0), "pixel {},{}", x, y);
    }
}

#[test]
fn annotation_clips_to_the_image() {
    let (w, h) = (3u32, 2u32);
    let out = annotate_pixels(vec![7u8; 18], w, h, &vec![region(0, 0, 10, 10)]);
    assert_eq!(out.len(), 18);
    assert_eq!(&out[0..3], &[255, 0, 0]);
    assert_eq!(&out[3..6], &[255, 0, 0]);
    assert_eq!(&out[9..12], &[255, 0, 0]);
    assert_eq!(&out[12..15], &[7, 7, 7]);
}

// ---- string helpers ----

#[test]
fn decimal_rendering() {
    assert_eq!(decimal_string(0), "0");
    assert_eq!(decimal_string(-7), "-7");
    assert_eq!(decimal_string(1234567890), "1234567890");
    assert_eq!(decimal_string(i64::MIN), "-9223372036854775808");
    assert_eq!(unsigned_string(u64::MAX), "18446744073709551615");
}

#[test]
fn substring_tests() {
    assert!(contains_str("abc", ""));
    assert!(contains_str("abcdet", "det"));
    assert!(!contains_str("de", "det"));
    assert!(contains_str("日本語det", "語d"));
    assert!(starts_with_str("ppocr_keys_v4.txt", "ppocr_keys"));
    assert!(!starts_with_str("xppocr_keys", "ppocr_keys"));
    assert!(str_equals("日本", "日本"));
    assert!(!str_equals("日本", "日"));
}

#[test]
fn only_model_options_change_model_files() {
    let args = parse(&["img.png", "--ori", "o.mnn", "--backend", "cuda", "--json", "--output", "x.png"]);
    assert_eq!(args.det_model.as_deref(), Some("models/PP-OCRv5_mobile_det.mnn"));
    assert_eq!(args.rec_model.as_deref(), Some("models/PP-OCRv5_mobile_rec.mnn"));
    assert_eq!(args.keys.as_deref(), Some("models/ppocr_keys_v5.txt"));
    let args = parse(&["--path", "-m", "img.png"]);
    assert_eq!(args.image, "-m");
    assert_eq!(args.det_model.as_deref(), Some("models/PP-OCRv5_mobile_det.mnn"));
}

#[test]
fn thread_parsing_agrees_with_std() {
    for s in ["", "+", "+0", "0", "12", "+12", "-0", "-12", "4294967295", "4294967296", "00004294967295",
        " 1", "1 ", "1a", "a1", "++1", "18446744073709551616", "٣"] {
        assert_eq!(parse_u32(s), s.parse::<u32>().ok(), "{:?}", s);
    }
}

#[test]
fn annotation_leaves_other_pixels_and_later_frames_win() {
    let (w, h) = (8u32, 8u32);
    let px: Vec<u8> = (0..(w * h * 3)).map(|i| (i % 251) as u8).collect();
    let out = annotate_pixels(px.clone(), w, h, &vec![region(2, 2, 3, 3), region(2, 4, 1, 1)]);
    let plan = plan_frames(&vec![region(2, 2, 3, 3), region(2, 4, 1, 1)]);
    let covers = |f: &Frame, x: i32, y: i32| {
        let (r, b) = (f.left + f.width as i32 - 1, f.top + f.height as i32 - 1);
        ((y == f.top || y == b) && f.left <= x && x <= r) || ((x == f.left || x == r) && f.top <= y && y <= b)
    };
    for k in 0..px.len() {
        let (x, y) = (((k / 3) % w as usize) as i32, ((k / 3) / w as usize) as i32);
        let last = plan.iter().rev().find(|f| covers(f, x, y));
        let expected = match last {
            None => px[k],
            Some(f) => [f.color.r, f.color.g, f.color.b][k % 3],
        };
        assert_eq!(out[k], expected, "byte {}", k);
    }
    let i = ((4 * w + 2) * 3) as usize;
    assert_eq!(&out[i..i + 3], &[0, 255, 0]);
}
