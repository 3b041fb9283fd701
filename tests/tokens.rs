use std::sync::Arc;
use std::time::Instant;

use image::DynamicImage;
use screen_capture_core::apple::{
    apple_token_record, parse_apple_ocr_result, read_apple_ocr_output, transcode_apple_ocr, AppleOcrOutput,
    AppleTextElement,
};
use screen_capture_core::dispatch::{
    capture_result, check_engine, save_text_file_id, window_ocr_result, OcrEngine, OcrTaskData, OcrTaskError,
    Platform,
};
use screen_capture_core::tokens::{parse_json_output, TokenRecord};

fn get<'a>(r: &'a TokenRecord, key: &str) -> Option<&'a str> {
    r.iter().find(|(k, _)| k == key).map(|(_, v)| v.as_str())
}

#[test]
fn parse_json_output_reads_records() {
    let rows = parse_json_output(r#"[{"text":"a","conf":"90"},{"text":"b"}]"#);
    assert_eq!(rows.len(), 2);
    assert_eq!(rows[0], vec![("conf".to_string(), "90".to_string()), ("text".to_string(), "a".to_string())]);
    assert_eq!(get(&rows[1], "text"), Some("b"));
}

#[test]
fn parse_json_output_invalid_is_empty() {
    assert!(parse_json_output("not json").is_empty());
    assert!(parse_json_output(r#"[{"conf": 90}]"#).is_empty());
    assert!(parse_json_output("{}").is_empty());
    assert!(parse_json_output("[]").is_empty());
}

#[test]
fn apple_json_transcoding() {
    let input = r#"{"ocrResult":"hi","textElements":[{"boundingBox":{"x":1.5,"y":2.0,"width":3.0,"height":4.0},"confidence":0.9,"text":"hi"}]}"#;
    let (text, token_json) = parse_apple_ocr_result(input);
    assert_eq!(text, "hi");
    let rows = parse_json_output(&token_json);
    assert_eq!(rows.len(), 1);
    let r = &rows[0];
    assert_eq!(r.len(), 12);
    assert_eq!(get(r, "left"), Some("1.5"));
    assert_eq!(get(r, "top"), Some("2"));
    assert_eq!(get(r, "width"), Some("3"));
    assert_eq!(get(r, "height"), Some("4"));
    assert_eq!(get(r, "conf"), Some("0.9"));
    assert_eq!(get(r, "text"), Some("hi"));
    for key in ["level", "page_num", "block_num", "par_num", "line_num", "word_num"] {
        assert_eq!(get(r, key), Some("0"));
    }
}

#[test]
fn apple_json_invalid_gives_empty_output() {
    let (text, token_json) = parse_apple_ocr_result("{oops");
    assert_eq!(text, "");
    assert_eq!(token_json, "[]");
}

#[test]
fn apple_json_missing_fields_default() {
    let out = read_apple_ocr_output(r#"{"textElements":[{"boundingBox":{"x":"left"},"text":5}]}"#);
    assert!(out.ocr_result.is_none());
    let elements = out.text_elements.expect("textElements is an array");
    assert_eq!(elements.len(), 1);
    let rec = apple_token_record(&elements[0]);
    assert_eq!(get(&rec, "left"), Some("0"));
    assert_eq!(get(&rec, "conf"), Some("0"));
    assert_eq!(get(&rec, "text"), Some(""));
}

#[test]
fn transcode_keeps_key_order() {
    let output = AppleOcrOutput {
        ocr_result: Some("x".to_string()),
        text_elements: Some(vec![AppleTextElement {
            x: Some("7".to_string()),
            y: None,
            width: None,
            height: None,
            confidence: Some("0.5".to_string()),
            text: Some("x".to_string()),
        }]),
    };
    let (text, json) = transcode_apple_ocr(&output);
    assert_eq!(text, "x");
    assert_eq!(
        json,
        r#"[{"block_num":"0","conf":"0.5","height":"0","left":"7","level":"0","line_num":"0","page_num":"0","par_num":"0","text":"x","top":"0","width":"0","word_num":"0"}]"#
    );
    let keys: Vec<String> = apple_token_record(&output.text_elements.as_ref().unwrap()[0]).into_iter().map(|(k, _)| k).collect();
    assert_eq!(
        keys,
        ["level", "page_num", "block_num", "par_num", "line_num", "word_num", "left", "top", "width", "height", "conf", "text"]
    );
}

#[test]
fn engine_support_per_platform() {
    assert_eq!(check_engine(OcrEngine::Tesseract, Platform::Other), Ok(OcrEngine::Tesseract));
    assert_eq!(check_engine(OcrEngine::Unstructured, Platform::MacOs), Ok(OcrEngine::Unstructured));
    assert_eq!(check_engine(OcrEngine::AppleNative, Platform::MacOs), Ok(OcrEngine::AppleNative));
    assert_eq!(check_engine(OcrEngine::AppleNative, Platform::Windows), Err(OcrTaskError::UnsupportedEngine));
    assert_eq!(check_engine(OcrEngine::WindowsNative, Platform::Windows), Ok(OcrEngine::WindowsNative));
    assert_eq!(check_engine(OcrEngine::WindowsNative, Platform::Other), Err(OcrTaskError::UnsupportedEngine));
}

#[test]
fn window_result_from_engine_output() {
    let w = (DynamicImage::new_rgb8(3, 1), "editor".to_string(), "main.rs".to_string(), true);
    let r = window_ocr_result(w, &"fn main".to_string(), &r#"[{"text":"fn"}]"#.to_string());
    assert_eq!(r.app_name, "editor");
    assert_eq!(r.window_name, "main.rs");
    assert!(r.focused);
    assert_eq!(r.text, "fn main");
    assert_eq!(r.image.width(), 3);
    assert_eq!(r.text_json, vec![vec![("text".to_string(), "fn".to_string())]]);
}

#[test]
fn capture_result_keeps_window_order() {
    let image = Arc::new(DynamicImage::new_rgb8(4, 4));
    let timestamp = Instant::now();
    let task = OcrTaskData {
        image: image.clone(),
        window_images: vec![
            (DynamicImage::new_rgb8(1, 1), "a".to_string(), "wa".to_string(), false),
            (DynamicImage::new_rgb8(2, 2), "b".to_string(), "wb".to_string(), true),
        ],
        frame_number: 3,
        timestamp,
    };
    let outputs = vec![("one".to_string(), "bad".to_string()), ("two".to_string(), "[]".to_string())];
    let r = capture_result(task, &outputs);
    assert!(Arc::ptr_eq(&r.image, &image));
    assert_eq!(r.frame_number, 3);
    assert_eq!(r.timestamp, timestamp);
    assert_eq!(r.window_ocr_results.len(), 2);
    assert_eq!(r.window_ocr_results[0].app_name, "a");
    assert_eq!(r.window_ocr_results[0].text, "one");
    assert!(r.window_ocr_results[0].text_json.is_empty());
    assert_eq!(r.window_ocr_results[1].window_name, "wb");
    assert_eq!(r.window_ocr_results[1].image.width(), 2);
    assert!(r.window_ocr_results[1].focused);
}

#[test]
fn save_ids() {
    assert_eq!(save_text_file_id(0, 0), 0);
    assert_eq!(save_text_file_id(3, 2), 3002);
    assert_eq!(save_text_file_id(u64::MAX, 0), u64::MAX.wrapping_mul(1000));
}

#[test]
fn apple_json_empty_element_defaults() {
    let (text, token_json) = parse_apple_ocr_result(r#"{"ocrResult":"x","textElements":[{}]}"#);
    assert_eq!(text, "x");
    let rows = parse_json_output(&token_json);
    assert_eq!(rows.len(), 1);
    for key in ["left", "top", "width", "height", "conf"] {
        assert_eq!(get(&rows[0], key), Some("0"));
    }
    assert_eq!(get(&rows[0], "text"), Some(""));
    assert_eq!(get(&rows[0], "level"), Some("0"));
}

#[test]
fn apple_json_non_array_elements() {
    assert_eq!(
        parse_apple_ocr_result(r#"{"ocrResult":"a","textElements":5}"#),
        ("a".to_string(), "[]".to_string())
    );
    assert_eq!(parse_apple_ocr_result("not json"), (String::new(), "[]".to_string()));
    let out = read_apple_ocr_output(r#"{"ocrResult":"a","textElements":5}"#);
    assert!(out.text_elements.is_none());
}

#[test]
fn apple_json_ignores_other_fields() {
    let a = parse_apple_ocr_result(r#"{"ocrResult":"t","overallConfidence":0.5,"textElements":[{"text":"t","extra":1}]}"#);
    let b = parse_apple_ocr_result(r#"{"textElements":[{"text":"t"}],"ocrResult":"t"}"#);
    assert_eq!(a, b);
}

#[test]
fn apple_elements_keep_order() {
    let (_, json) = parse_apple_ocr_result(r#"{"textElements":[{"text":"first"},{"text":"second"}]}"#);
    let rows = parse_json_output(&json);
    assert_eq!(rows.len(), 2);
    assert_eq!(get(&rows[0], "text"), Some("first"));
    assert_eq!(get(&rows[1], "text"), Some("second"));
}
