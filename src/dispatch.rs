//! What a recognition task does with the frame it was handed: which engine may run, how each
//! window's engine output becomes a result, and the frame-level result that is published.
use std::sync::Arc;

use image::DynamicImage;
use std::time::Instant;
use vstd::prelude::*;

use crate::selector::{MaxAverageFrame, WindowImage};
use crate::tokens::{parse_json_output, records_view, token_records_of, TokenRecord};

verus! {

/// The OCR engines a task can be configured with.
#[derive(PartialEq, Eq, Structural, Clone, Copy, Debug)]
pub enum OcrEngine {
    /// The remote cloud service.
    Unstructured,
    /// The local Tesseract engine.
    Tesseract,
    /// The engine of the Windows platform.
    WindowsNative,
    /// The engine of the Apple platform.
    AppleNative,
}

/// The platform the process runs on, as far as engine availability goes.
#[derive(PartialEq, Eq, Structural, Clone, Copy, Debug)]
pub enum Platform {
    Windows,
    MacOs,
    Other,
}

/// Why a recognition task ended without publishing a result.
#[derive(PartialEq, Eq, Structural, Clone, Copy, Debug)]
pub enum OcrTaskError {
    /// The configured engine does not exist on this platform.
    UnsupportedEngine,
    /// The engine reported an error for a window.
    OcrFailed,
    /// The result channel was closed.
    SendFailed,
}

/// Whether an engine can run on a platform: the native engines only on their own platform.
pub open spec fn engine_supported(engine: OcrEngine, platform: Platform) -> bool {
    match engine {
        OcrEngine::WindowsNative => platform == Platform::Windows,
        OcrEngine::AppleNative => platform == Platform::MacOs,
        _ => true,
    }
}

/// Checks that the configured engine can run here, before any window is recognised.
pub fn check_engine(engine: OcrEngine, platform: Platform) -> (r: Result<OcrEngine, OcrTaskError>)
    ensures
        r == if engine_supported(engine, platform) {
            Ok::<OcrEngine, OcrTaskError>(engine)
        } else {
            Err(OcrTaskError::UnsupportedEngine)
        },
{
    let supported = match engine {
        OcrEngine::WindowsNative => match platform {
            Platform::Windows => true,
            _ => false,
        },
        OcrEngine::AppleNative => match platform {
            Platform::MacOs => true,
            _ => false,
        },
        _ => true,
    };
    if supported {
        Ok(engine)
    } else {
        Err(OcrTaskError::UnsupportedEngine)
    }
}

/// The recognition result of one window.
pub struct WindowOcrResult {
    pub window_name: String,
    pub app_name: String,
    pub image: Arc<DynamicImage>,
    pub text: String,
    pub text_json: Vec<TokenRecord>,
    pub focused: bool,
}

/// The result published for one dispatched frame.
pub struct CaptureResult {
    pub image: Arc<DynamicImage>,
    pub frame_number: u64,
    pub timestamp: Instant,
    pub window_ocr_results: Vec<WindowOcrResult>,
}

/// The frame a recognition task works on.
pub struct OcrTaskData {
    pub image: Arc<DynamicImage>,
    pub window_images: Vec<WindowImage>,
    pub frame_number: u64,
    pub timestamp: Instant,
}

impl OcrTaskData {
    /// The task for a frame elected by the selector.
    pub fn from_best(best: MaxAverageFrame) -> (r: OcrTaskData)
        ensures
            r.image == best.image,
            r.window_images == best.window_images,
            r.frame_number == best.frame_number,
            r.timestamp == best.timestamp,
    {
        OcrTaskData {
            image: best.image,
            window_images: best.window_images,
            frame_number: best.frame_number,
            timestamp: best.timestamp,
        }
    }
}

/// The token records parsed from an engine's token JSON; none where it cannot be read.
pub open spec fn parsed_records(json: Seq<char>) -> Seq<Seq<(Seq<char>, Seq<char>)>> {
    match token_records_of(json) {
        Some(rs) => rs,
        None => Seq::empty(),
    }
}

/// Whether `r` is the result for window `w` whose engine output was `out` (text, token JSON).
pub open spec fn is_window_result(w: WindowImage, out: (String, String), r: WindowOcrResult) -> bool {
    &&& r.image == w.0
    &&& r.app_name == w.1
    &&& r.window_name == w.2
    &&& r.focused == w.3
    &&& r.text@ == out.0@
    &&& records_view(r.text_json@) == parsed_records(out.1@)
}

/// The result for one window from the engine's text and token JSON.
pub fn window_ocr_result(window: WindowImage, text: &String, token_json: &String) -> (r: WindowOcrResult)
    ensures
        is_window_result(window, (*text, *token_json), r),
{
    let (image, app_name, window_name, focused) = window;
    WindowOcrResult {
        window_name,
        app_name,
        image: Arc::new(image),
        text: text.clone(),
        text_json: parse_json_output(token_json.as_str()),
        focused,
    }
}

/// The result published for a task whose engine produced `outputs[i]` for window `i`: the
/// frame's image, number and election instant, and one result per window, in window order.
pub fn capture_result(task: OcrTaskData, outputs: &Vec<(String, String)>) -> (r: CaptureResult)
    requires
        outputs@.len() == task.window_images@.len(),
    ensures
        r.image == task.image,
        r.frame_number == task.frame_number,
        r.timestamp == task.timestamp,
        r.window_ocr_results@.len() == task.window_images@.len(),
        forall|i: int|
            0 <= i < task.window_images@.len() ==> is_window_result(
                #[trigger] task.window_images@[i],
                outputs@[i],
                r.window_ocr_results@[i],
            ),
{
    let OcrTaskData { image, window_images, frame_number, timestamp } = task;
    let ghost all = window_images@;
    let mut windows = window_images;
    let mut results: Vec<WindowOcrResult> = Vec::new();
    let mut i: usize = 0;
    while i < outputs.len()
        invariant
            outputs@.len() == all.len(),
            i <= all.len(),
            windows@ == all.skip(i as int),
            results@.len() == i,
            forall|j: int| 0 <= j < i ==> is_window_result(#[trigger] all[j], outputs@[j], results@[j]),
        decreases all.len() - i,
    {
        let window = windows.remove(0);
        assert(window == all[i as int]);
        let result = window_ocr_result(window, &outputs[i].0, &outputs[i].1);
        results.push(result);
        i = i + 1;
        assert(windows@ =~= all.skip(i as int));
    }
    CaptureResult { image, frame_number, timestamp, window_ocr_results: results }
}

/// The identifier under which window `index` of frame `frame_number` has its text saved:
/// `frame_number * 1000 + index`, wrapping past the largest `u64`. Identifiers of different
/// dispatches may coincide, since frame numbers restart at each dispatch.
pub fn save_text_file_id(frame_number: u64, index: usize) -> (r: u64)
    ensures
        r == (frame_number as int * 1000 + index as int) % 0x1_0000_0000_0000_0000,
{
    let wide: u128 = frame_number as u128 * 1000 + index as u128;
    (wide % 0x1_0000_0000_0000_0000) as u64
}

} // verus!
