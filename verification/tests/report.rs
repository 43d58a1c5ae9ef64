use ocr_cli::report::{render_json, render_text, PointText, TextRegion};

/// A region as the program builds it from a recognition result.
fn make_result(text: &str, conf: f32, left: i32, top: i32, w: u32, h: u32) -> TextRegion {
    TextRegion {
        text: text.to_string(),
        confidence_percent: format!("{:.2}", conf * 100.0),
        confidence_rounded: format!("{:.3}", (conf * 1000.0).round() / 1000.0),
        left,
        top,
        width: w,
        height: h,
        points: None,
    }
}

fn avg_percent(rs: &[f32]) -> String {
    let avg = rs.iter().sum::<f32>() / rs.len() as f32;
    format!("{:.2}", avg * 100.0)
}

fn avg_rounded(rs: &[f32]) -> String {
    let avg = if rs.is_empty() {
        0.0
    } else {
        (rs.iter().sum::<f32>() / rs.len() as f32 * 1000.0).round() / 1000.0
    };
    format!("{:.3}", avg)
}

#[test]
fn test_output_text_empty() {
    let results: Vec<TextRegion> = vec![];
    assert_eq!(render_text(&results, true, "0.00"), "");
    assert_eq!(render_text(&results, false, "0.00"), "");
}

#[test]
fn test_output_text_single() {
    let results = vec![make_result("Hello", 0.95, 10, 20, 100, 30)];
    let line = "[ 1]  95.00%  (  10,  20)  100x30    Hello\n";
    assert_eq!(render_text(&results, true, &avg_percent(&[0.95])), line);
    assert_eq!(
        render_text(&results, false, &avg_percent(&[0.95])),
        format!("{}\n共 1 个区域 | 平均置信度: 95.00%\n", line)
    );
}

#[test]
fn test_output_text_multiple() {
    let results = vec![
        make_result("Line 1", 0.95, 10, 20, 100, 30),
        make_result("Line 2", 0.88, 10, 60, 120, 30),
        make_result("Line 3", 0.72, 10, 100, 90, 30),
    ];
    let lines = format!(
        "[ 1]  {}%  (  10,  20)  100x30    Line 1\n[ 2]  {}%  (  10,  60)  120x30    Line 2\n[ 3]  {}%  (  10, 100)   90x30    Line 3\n",
        results[0].confidence_percent, results[1].confidence_percent, results[2].confidence_percent
    );
    let avg = avg_percent(&[0.95, 0.88, 0.72]);
    assert_eq!(render_text(&results, true, &avg), lines);
    assert_eq!(
        render_text(&results, false, &avg),
        format!("{}\n共 3 个区域 | 平均置信度: {}%\n", lines, avg)
    );
}

#[test]
fn test_output_json_empty() {
    let results: Vec<TextRegion> = vec![];
    let r = render_json(&results, &avg_rounded(&[]));
    assert_eq!(r, "{\n  \"count\": 0,\n  \"avg_confidence\": 0.000,\n  \"results\": [\n  ]\n}\n");
}

#[test]
fn test_output_json_single() {
    let results = vec![make_result("Hello", 0.95, 10, 20, 100, 30)];
    let r = render_json(&results, &avg_rounded(&[0.95]));
    assert_eq!(
        r,
        "{\n  \"count\": 1,\n  \"avg_confidence\": 0.950,\n  \"results\": [\n    {\n      \"text\": \"Hello\",\n      \"confidence\": 0.950,\n      \"box\": {\"left\": 10, \"top\": 20, \"width\": 100, \"height\": 30}\n    }\n  ]\n}\n"
    );
}

#[test]
fn test_output_json_multiple() {
    let results = vec![
        make_result("Hello", 0.95, 10, 20, 100, 30),
        make_result("World", 0.88, 10, 60, 120, 30),
    ];
    let r = render_json(&results, &avg_rounded(&[0.95, 0.88]));
    assert_eq!(
        r,
        format!(
            "{{\n  \"count\": 2,\n  \"avg_confidence\": {},\n  \"results\": [\n    {{\n      \"text\": \"Hello\",\n      \"confidence\": 0.950,\n      \"box\": {{\"left\": 10, \"top\": 20, \"width\": 100, \"height\": 30}}\n    }},\n    {{\n      \"text\": \"World\",\n      \"confidence\": 0.880,\n      \"box\": {{\"left\": 10, \"top\": 60, \"width\": 120, \"height\": 30}}\n    }}\n  ]\n}}\n",
            avg_rounded(&[0.95, 0.88])
        )
    );
}

#[test]
fn test_output_json_quiet() {
    let results = vec![make_result("Test", 0.90, 0, 0, 50, 20)];
    let r = render_json(&results, &avg_rounded(&[0.90]));
    assert!(r.starts_with("{\n  \"count\": 1,\n  \"avg_confidence\": 0.900,"));
    assert!(r.contains("\"box\": {\"left\": 0, \"top\": 0, \"width\": 50, \"height\": 20}"));
}

#[test]
fn json_escapes_text_and_lists_points() {
    let mut r = make_result("He said \"hi\"\\", 0.5, -3, 7, 4, 2);
    r.points = Some(vec![
        PointText { x: "1.5".to_string(), y: "2".to_string() },
        PointText { x: "3".to_string(), y: "-4".to_string() },
    ]);
    let out = render_json(&vec![r], "0.500");
    assert_eq!(
        out,
        "{\n  \"count\": 1,\n  \"avg_confidence\": 0.500,\n  \"results\": [\n    {\n      \"text\": \"He said \\\"hi\\\"\\\\\",\n      \"confidence\": 0.500,\n      \"box\": {\"left\": -3, \"top\": 7, \"width\": 4, \"height\": 2},\n      \"points\": [{\"x\": 1.5, \"y\": 2}, {\"x\": 3, \"y\": -4}]\n    }\n  ]\n}\n"
    );
}

#[test]
fn json_points_may_be_empty() {
    let mut r = make_result("a", 1.0, 0, 0, 1, 1);
    r.points = Some(vec![]);
    let out = render_json(&vec![r], "1.000");
    assert!(out.contains("\"height\": 1},\n      \"points\": []\n    }\n"));
}

#[test]
fn text_report_pads_wide_and_negative_numbers() {
    let r = make_result("x", 0.05, -12345, 7, 123456, 5);
    let out = render_text(&vec![r], true, "5.00");
    assert_eq!(out, "[ 1]   5.00%  (-12345,   7) 123456x5     x\n");
}

#[test]
fn text_report_numbers_two_digit_indices() {
    let rs: Vec<TextRegion> = (0..10).map(|i| make_result("t", 0.5, i, 0, 1, 1)).collect();
    let out = render_text(&rs, true, "50.00");
    let last = out.lines().last().unwrap();
    assert_eq!(last, "[10]  50.00%  (   9,   0)    1x1     t");
}

#[test]
fn json_text_is_a_json_string() {
    let r = make_result("a\u{1b}b\tc\nd\re\u{8}f\u{c}g\u{1f}h/é日", 0.5, 0, 0, 1, 1);
    let out = render_json(&vec![r], "0.500");
    assert!(out.contains("\"text\": \"a\\u001bb\\tc\\nd\\re\\bf\\fg\\u001fh/é日\",\n"), "{}", out);
}
