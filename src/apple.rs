//! Normalisation of the platform-native OCR engine's output to token JSON.
//!
//! That engine reports `{"ocrResult": text, "textElements": [{"boundingBox": {"x", "y",
//! "width", "height"}, "confidence", "text"}, ...]}`. Each element becomes one token record whose
//! positional fields are zero and whose geometry and confidence are written as decimals.
use serde_json::Value;
use vstd::prelude::*;

use crate::tokens::{record_view, records_view, token_json_of, write_token_records, TokenRecord};

verus! {

/// One recognised element, each field as read from the engine's output: numbers already in
/// decimal text, `None` where the field was missing or of another JSON type.
pub struct AppleTextElement {
    pub x: Option<String>,
    pub y: Option<String>,
    pub width: Option<String>,
    pub height: Option<String>,
    pub confidence: Option<String>,
    pub text: Option<String>,
}

/// The engine's whole output, as read: `text_elements` is `None` where `textElements` was
/// missing or not an array.
pub struct AppleOcrOutput {
    pub ocr_result: Option<String>,
    pub text_elements: Option<Vec<AppleTextElement>>,
}

/// An element's fields as character sequences: x, y, width, height, confidence and text.
pub type ElementView = (
    Option<Seq<char>>,
    Option<Seq<char>>,
    Option<Seq<char>>,
    Option<Seq<char>>,
    Option<Seq<char>>,
    Option<Seq<char>>,
);

/// An output as character sequences: the text and the elements.
pub type OutputView = (Option<Seq<char>>, Option<Seq<ElementView>>);

pub open spec fn opt_view(o: Option<String>) -> Option<Seq<char>> {
    match o {
        Some(s) => Some(s@),
        None => None,
    }
}

impl View for AppleTextElement {
    type V = ElementView;

    open spec fn view(&self) -> ElementView {
        (
            opt_view(self.x),
            opt_view(self.y),
            opt_view(self.width),
            opt_view(self.height),
            opt_view(self.confidence),
            opt_view(self.text),
        )
    }
}

pub open spec fn elements_view(es: Seq<AppleTextElement>) -> Seq<ElementView> {
    es.map_values(|e: AppleTextElement| e@)
}

impl View for AppleOcrOutput {
    type V = OutputView;

    open spec fn view(&self) -> OutputView {
        (
            opt_view(self.ocr_result),
            match self.text_elements {
                Some(es) => Some(elements_view(es@)),
                None => None,
            },
        )
    }
}

/// What `serde_json` reads from the engine's text: the string `ocrResult`, and for each item
/// of the array `textElements` its `boundingBox` numbers, `confidence` and string `text`; `None`
/// when the text is not JSON.
pub uninterp spec fn apple_output_of(text: Seq<char>) -> Option<OutputView>;

/// Relies on `serde_json::from_str` into a `Value`, on indexing a `Value` by key (null where
/// the member is missing), and on `Value::as_str`, `Value::as_array` and `Value::as_f64`, each
/// number written with `f64`'s `to_string`. Only `from_str` can fail.
#[verifier::external_body]
fn read_apple_json(text: &str) -> (r: Result<AppleOcrOutput, serde_json::Error>)
    ensures
        match r {
            Ok(o) => apple_output_of(text@) == Some(o@),
            Err(_) => apple_output_of(text@) is None,
        },
{
    let v: Value = serde_json::from_str(text)?;
    let s = |v: &Value| v.as_str().map(String::from);
    let n = |v: &Value| v.as_f64().map(|f| f.to_string());
    let element = |e: &Value| AppleTextElement {
        x: n(&e["boundingBox"]["x"]),
        y: n(&e["boundingBox"]["y"]),
        width: n(&e["boundingBox"]["width"]),
        height: n(&e["boundingBox"]["height"]),
        confidence: n(&e["confidence"]),
        text: s(&e["text"]),
    };
    let text_elements = v["textElements"].as_array().map(|a| a.iter().map(element).collect());
    Ok(AppleOcrOutput { ocr_result: s(&v["ocrResult"]), text_elements })
}

/// The output read from the engine's text; text that is not JSON reads as no text and no
/// elements.
pub open spec fn apple_read(text: Seq<char>) -> OutputView {
    match apple_output_of(text) {
        Some(o) => o,
        None => (None, None),
    }
}

/// The decimal text of zero.
pub open spec fn zero_text() -> Seq<char> {
    seq!['0']
}

/// A number's text, or zero where it was missing.
pub open spec fn number_or_zero(n: Option<Seq<char>>) -> Seq<char> {
    match n {
        Some(s) => s,
        None => zero_text(),
    }
}

/// A string, or the empty string where it was missing.
pub open spec fn text_or_empty(t: Option<Seq<char>>) -> Seq<char> {
    match t {
        Some(s) => s,
        None => Seq::empty(),
    }
}

/// The elements, or none where `textElements` was not an array.
pub open spec fn elements_or_empty(es: Option<Seq<ElementView>>) -> Seq<ElementView> {
    match es {
        Some(es) => es,
        None => Seq::empty(),
    }
}

/// The keys of every normalised token record, in order.
pub open spec fn token_keys() -> Seq<Seq<char>> {
    seq![
        "level"@,
        "page_num"@,
        "block_num"@,
        "par_num"@,
        "line_num"@,
        "word_num"@,
        "left"@,
        "top"@,
        "width"@,
        "height"@,
        "conf"@,
        "text"@,
    ]
}

/// The token record of one element.
pub open spec fn uniform_record(e: ElementView) -> Seq<(Seq<char>, Seq<char>)> {
    seq![
        ("level"@, zero_text()),
        ("page_num"@, zero_text()),
        ("block_num"@, zero_text()),
        ("par_num"@, zero_text()),
        ("line_num"@, zero_text()),
        ("word_num"@, zero_text()),
        ("left"@, number_or_zero(e.0)),
        ("top"@, number_or_zero(e.1)),
        ("width"@, number_or_zero(e.2)),
        ("height"@, number_or_zero(e.3)),
        ("conf"@, number_or_zero(e.4)),
        ("text"@, text_or_empty(e.5)),
    ]
}

/// The token records of all elements, in order.
pub open spec fn uniform_records(es: Seq<ElementView>) -> Seq<Seq<(Seq<char>, Seq<char>)>> {
    es.map_values(|e: ElementView| uniform_record(e))
}

/// The (text, token JSON) pair for an output: the text or the empty string, and the element
/// records written as JSON.
pub open spec fn transcoded(o: OutputView) -> (Seq<char>, Seq<char>) {
    (text_or_empty(o.0), token_json_of(uniform_records(elements_or_empty(o.1))))
}

/// Every normalised record has exactly the fixed key set, in the fixed order, and a string
/// value for each key.
pub proof fn lemma_uniform_record_keys(e: ElementView)
    ensures
        uniform_record(e).len() == token_keys().len(),
        forall|i: int| 0 <= i < token_keys().len() ==> #[trigger] uniform_record(e)[i].0 == token_keys()[i],
{
}

/// The result for an engine text depends only on the fields read from it: two texts that read
/// the same give the same text and token JSON.
pub proof fn lemma_equal_reads_transcode_equally(a: Seq<char>, b: Seq<char>)
    requires
        apple_read(a) == apple_read(b),
    ensures
        transcoded(apple_read(a)) == transcoded(apple_read(b)),
{
}

fn text_or(v: &Option<String>, default: &str) -> (r: String)
    ensures
        r@ == match *v {
            Some(s) => s@,
            None => default@,
        },
{
    match v {
        Some(s) => s.clone(),
        None => default.to_owned(),
    }
}

/// The token record of one element: positional fields zero, geometry and confidence as their
/// decimal text or zero, the element's text or the empty string.
pub fn apple_token_record(e: &AppleTextElement) -> (r: TokenRecord)
    ensures
        record_view(r) == uniform_record(e@),
{
    let mut r: TokenRecord = Vec::new();
    r.push(("level".to_owned(), "0".to_owned()));
    r.push(("page_num".to_owned(), "0".to_owned()));
    r.push(("block_num".to_owned(), "0".to_owned()));
    r.push(("par_num".to_owned(), "0".to_owned()));
    r.push(("line_num".to_owned(), "0".to_owned()));
    r.push(("word_num".to_owned(), "0".to_owned()));
    r.push(("left".to_owned(), text_or(&e.x, "0")));
    r.push(("top".to_owned(), text_or(&e.y, "0")));
    r.push(("width".to_owned(), text_or(&e.width, "0")));
    r.push(("height".to_owned(), text_or(&e.height, "0")));
    r.push(("conf".to_owned(), text_or(&e.confidence, "0")));
    r.push(("text".to_owned(), text_or(&e.text, "")));
    proof {
        reveal_strlit("0");
        reveal_strlit("");
        assert("0"@ =~= zero_text());
        assert(""@ =~= Seq::<char>::empty());
        assert(record_view(r) =~= uniform_record(e@));
    }
    r
}

/// The token records of a list of elements, in order.
pub fn apple_token_records(elements: &Vec<AppleTextElement>) -> (r: Vec<TokenRecord>)
    ensures
        records_view(r@) == uniform_records(elements_view(elements@)),
{
    let mut r: Vec<TokenRecord> = Vec::new();
    let mut i: usize = 0;
    while i < elements.len()
        invariant
            i <= elements@.len(),
            r@.len() == i,
            records_view(r@) == uniform_records(elements_view(elements@.take(i as int))),
        decreases elements@.len() - i,
    {
        let rec = apple_token_record(&elements[i]);
        let ghost before = r@;
        let ghost prefix = elements@.take(i as int);
        r.push(rec);
        i = i + 1;
        assert forall|j: int| 0 <= j < r@.len() implies records_view(r@)[j] == uniform_records(
            elements_view(elements@.take(i as int)),
        )[j] by {
            if j < before.len() {
                assert(r@[j] == before[j]);
                assert(records_view(before)[j] == uniform_records(elements_view(prefix))[j]);
            }
        }
        assert(records_view(r@) =~= uniform_records(elements_view(elements@.take(i as int))));
    }
    assert(elements@.take(i as int) =~= elements@);
    r
}

/// The engine's text and its token JSON for an output; an output without elements gives an
/// empty JSON array.
pub fn transcode_apple_ocr(output: &AppleOcrOutput) -> (r: (String, String))
    ensures
        (r.0@, r.1@) == transcoded(output@),
        elements_or_empty(output@.1).len() == 0 ==> r.1@ == "[]"@,
{
    let text = text_or(&output.ocr_result, "");
    proof {
        reveal_strlit("");
        assert(""@ =~= Seq::<char>::empty());
    }
    let records = match &output.text_elements {
        Some(es) => apple_token_records(es),
        None => {
            let none: Vec<TokenRecord> = Vec::new();
            assert(records_view(none@) =~= uniform_records(Seq::empty()));
            none
        },
    };
    assert(records_view(records@).len() == records@.len());
    let json = match write_token_records(&records) {
        Ok(s) => s,
        Err(_) => "[]".to_owned(),
    };
    (text, json)
}

/// Reads the engine's JSON output. Text that is not JSON reads as an output with no text and
/// no elements.
pub fn read_apple_ocr_output(json_result: &str) -> (r: AppleOcrOutput)
    ensures
        r@ == apple_read(json_result@),
{
    match read_apple_json(json_result) {
        Ok(o) => o,
        Err(_) => AppleOcrOutput { ocr_result: None, text_elements: None },
    }
}

/// Normalises the engine's raw JSON output to its text and token JSON. Text that is not JSON,
/// or whose `textElements` is missing, not an array or empty, gives an empty JSON array.
pub fn parse_apple_ocr_result(json_result: &str) -> (r: (String, String))
    ensures
        (r.0@, r.1@) == transcoded(apple_read(json_result@)),
        elements_or_empty(apple_read(json_result@).1).len() == 0 ==> r.1@ == "[]"@,
{
    let output = read_apple_ocr_output(json_result);
    transcode_apple_ocr(&output)
}

} // verus!
