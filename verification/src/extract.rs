//! Response extraction: walk the provider envelope to the embedded text,
//! strip an optional code fence, and read the definition record.

use vstd::prelude::*;
use vstd::string::*;

use crate::definition::DefinitionModel;
use crate::definition::WordDefinition;
use crate::errors::DictError;
use crate::errors::FailureKind;
use crate::json::json_at;
use crate::json::json_get;
use crate::json::json_items;
use crate::json::json_model;
use crate::json::json_of;
use crate::json::json_str;
use crate::json::parse_json;
use crate::json::JsonModel;
use crate::text::ends_with;
use crate::text::ends_with_str;
use crate::text::starts_with;
use crate::text::starts_with_str;
use crate::text::trim_spec;
use crate::text::trim_str;

verus! {

/// The value under `key` when `m` is an object holding it.
pub open spec fn field_of(m: JsonModel, key: Seq<char>) -> Option<JsonModel> {
    match m {
        JsonModel::Object(f) => if f.dom().contains(key) {
            Some(f[key])
        } else {
            None
        },
        _ => None,
    }
}

/// Element `i` when `m` is an array with more than `i` elements.
pub open spec fn item_of(m: JsonModel, i: int) -> Option<JsonModel> {
    match m {
        JsonModel::List(l) => if 0 <= i < l.len() {
            Some(l[i])
        } else {
            None
        },
        _ => None,
    }
}

/// The characters when `m` is a JSON string.
pub open spec fn text_of(m: JsonModel) -> Option<Seq<char>> {
    match m {
        JsonModel::Text(t) => Some(t),
        _ => None,
    }
}

/// The characters of a JSON string, or empty text on any other value.
pub open spec fn text_payload(m: JsonModel) -> Seq<char> {
    match m {
        JsonModel::Text(t) => t,
        _ => Seq::empty(),
    }
}

/// The elements of a JSON array, or no elements on any other value.
pub open spec fn list_payload(m: JsonModel) -> Seq<JsonModel> {
    match m {
        JsonModel::List(l) => l,
        _ => Seq::empty(),
    }
}

/// The characters under `key` when `m` is an object mapping it to a string.
pub open spec fn string_field(m: JsonModel, key: Seq<char>) -> Option<Seq<char>> {
    match field_of(m, key) {
        Some(f) => text_of(f),
        None => None,
    }
}

/// The model's raw text output: the string at
/// `candidates[0].content.parts[0].text`, when that path exists.
pub open spec fn candidate_text(m: JsonModel) -> Option<Seq<char>> {
    match field_of(m, "candidates"@) {
        None => None,
        Some(cs) => match item_of(cs, 0) {
            None => None,
            Some(c0) => match field_of(c0, "content"@) {
                None => None,
                Some(ct) => match field_of(ct, "parts"@) {
                    None => None,
                    Some(ps) => match item_of(ps, 0) {
                        None => None,
                        Some(p0) => match field_of(p0, "text"@) {
                            None => None,
                            Some(t) => text_of(t),
                        },
                    },
                },
            },
        },
    }
}

/// Strip one leading code-fence marker (the JSON-annotated form before the
/// bare form), one trailing fence, and surrounding whitespace.
pub open spec fn strip_fence(s: Seq<char>) -> Seq<char> {
    let a = if starts_with(s, "```json"@) {
        s.subrange("```json"@.len() as int, s.len() as int)
    } else if starts_with(s, "```"@) {
        s.subrange("```"@.len() as int, s.len() as int)
    } else {
        s
    };
    let b = if ends_with(a, "```"@) {
        a.subrange(0, a.len() - "```"@.len())
    } else {
        a
    };
    trim_spec(b)
}

/// The texts of the elements, when every element is a JSON string.
pub open spec fn texts_of(l: Seq<JsonModel>) -> Option<Seq<Seq<char>>> {
    if forall|i: int| 0 <= i < l.len() ==> l[i] is Text {
        Some(l.map_values(|x: JsonModel| text_payload(x)))
    } else {
        None
    }
}

/// The definition record described by `m`, when `m` is an object holding
/// string fields `word`, `pronunciation`, `definition` and `image`, and an
/// `examples` array of strings. All-or-nothing: any missing or mistyped
/// field yields `None`.
pub open spec fn definition_model_of(m: JsonModel) -> Option<DefinitionModel> {
    match (
        string_field(m, "word"@),
        string_field(m, "pronunciation"@),
        string_field(m, "definition"@),
        string_field(m, "image"@),
    ) {
        (Some(w), Some(p), Some(d), Some(img)) => match field_of(m, "examples"@) {
            Some(ex) => match ex {
                JsonModel::List(l) => match texts_of(l) {
                    Some(exs) => Some(
                        DefinitionModel {
                            word: w,
                            pronunciation: p,
                            definition: d,
                            examples: exs,
                            image: img,
                        },
                    ),
                    None => None,
                },
                _ => None,
            },
            None => None,
        },
        _ => None,
    }
}

/// What extraction yields on a response with contents `m`: the definition
/// record, or the stage at which extraction fails.
pub open spec fn extract_spec(m: JsonModel) -> Result<DefinitionModel, FailureKind> {
    match candidate_text(m) {
        None => Err(FailureKind::Extraction),
        Some(t) => match json_of(strip_fence(t)) {
            None => Err(FailureKind::Deserialization),
            Some(dm) => match definition_model_of(dm) {
                None => Err(FailureKind::Deserialization),
                Some(d) => Ok(d),
            },
        },
    }
}

fn candidate_text_str<'a>(v: &'a serde_json::Value) -> (r: Option<&'a str>)
    ensures
        match r {
            Some(t) => candidate_text(json_model(*v)) == Some(t@),
            None => candidate_text(json_model(*v)) is None,
        },
{
    let cs = match json_get(v, "candidates") {
        Some(x) => x,
        None => { return None; },
    };
    let c0 = match json_at(cs, 0) {
        Some(x) => x,
        None => { return None; },
    };
    let ct = match json_get(c0, "content") {
        Some(x) => x,
        None => { return None; },
    };
    let ps = match json_get(ct, "parts") {
        Some(x) => x,
        None => { return None; },
    };
    let p0 = match json_at(ps, 0) {
        Some(x) => x,
        None => { return None; },
    };
    let t = match json_get(p0, "text") {
        Some(x) => x,
        None => { return None; },
    };
    json_str(t)
}

/// Strip the fence markers and surrounding whitespace from the model's text.
pub fn strip_fence_str(s: &str) -> (r: &str)
    ensures
        r@ == strip_fence(s@),
{
    let n = s.unicode_len();
    let t1: &str = if starts_with_str(s, "```json") {
        let p = "```json".unicode_len();
        s.substring_char(p, n)
    } else if starts_with_str(s, "```") {
        let p = "```".unicode_len();
        s.substring_char(p, n)
    } else {
        s
    };
    let m = t1.unicode_len();
    let t2: &str = if ends_with_str(t1, "```") {
        let q = "```".unicode_len();
        t1.substring_char(0, m - q)
    } else {
        t1
    };
    trim_str(t2)
}

fn get_string_field(v: &serde_json::Value, key: &str) -> (r: Option<String>)
    ensures
        match r {
            Some(s) => string_field(json_model(*v), key@) == Some(s@),
            None => string_field(json_model(*v), key@) is None,
        },
{
    match json_get(v, key) {
        None => None,
        Some(f) => match json_str(f) {
            None => None,
            Some(s) => Some(s.to_owned()),
        },
    }
}

/// Read the definition record out of a parsed provider response: locate the
/// embedded text, strip an optional code fence, and deserialize it, failing
/// with the stage that [`extract_spec`] names.
pub fn extract_dictionary(res_body: serde_json::Value) -> (r: Result<WordDefinition, DictError>)
    ensures
        match extract_spec(json_model(res_body)) {
            Ok(d) => r matches Ok(w) && w@ == d,
            Err(k) => r matches Err(e) && e.kind() == k,
        },
{
    let text = match candidate_text_str(&res_body) {
        Some(t) => t,
        None => { return Err(DictError::ExtractionError); },
    };
    let stripped = strip_fence_str(text);
    let parsed = match parse_json(stripped) {
        Ok(v) => v,
        Err(e) => { return Err(DictError::DeserializationError(e.to_string())); },
    };
    let word = match get_string_field(&parsed, "word") {
        Some(s) => s,
        None => { return Err(deser_shape_error()); },
    };
    let pronunciation = match get_string_field(&parsed, "pronunciation") {
        Some(s) => s,
        None => { return Err(deser_shape_error()); },
    };
    let definition = match get_string_field(&parsed, "definition") {
        Some(s) => s,
        None => { return Err(deser_shape_error()); },
    };
    let image = match get_string_field(&parsed, "image") {
        Some(s) => s,
        None => { return Err(deser_shape_error()); },
    };
    let ex_field = match json_get(&parsed, "examples") {
        Some(x) => x,
        None => { return Err(deser_shape_error()); },
    };
    let items = match json_items(ex_field) {
        Some(x) => x,
        None => { return Err(deser_shape_error()); },
    };
    let ghost l = list_payload(json_model(*ex_field));
    let mut examples: Vec<String> = Vec::new();
    let mut i: usize = 0;
    while i < items.len()
        invariant
            0 <= i <= items.len(),
            candidate_text(json_model(res_body)) == Some(text@),
            json_of(strip_fence(text@)) == Some(json_model(parsed)),
            field_of(json_model(parsed), "examples"@) == Some(json_model(*ex_field)),
            json_model(*ex_field) == JsonModel::List(l),
            items@.len() == l.len(),
            forall|k: int| 0 <= k < l.len() ==> json_model(items@[k]) == l[k],
            forall|k: int| 0 <= k < i ==> l[k] is Text,
            examples@.len() == i,
            forall|k: int| 0 <= k < i ==> #[trigger] examples@[k]@ == text_payload(l[k]),
        decreases items.len() - i,
    {
        match json_str(&items[i]) {
            Some(s) => { examples.push(s.to_owned()); },
            None => {
                proof {
                    assert(!(forall|k: int| 0 <= k < l.len() ==> l[k] is Text)) by {
                        assert(0 <= (i as int) < l.len() && !(l[i as int] is Text));
                    }
                }
                return Err(deser_shape_error());
            },
        }
        i = i + 1;
    }
    let result = WordDefinition { word, pronunciation, definition, examples, image };
    proof {
        let dm = json_of(strip_fence(text@))->Some_0;
        let d = definition_model_of(dm)->Some_0;
        assert(examples@.map_values(|s: String| s@) =~= l.map_values(|x: JsonModel| text_payload(x)));
        assert(result@ =~= d);
    }
    Ok(result)
}

fn deser_shape_error() -> (r: DictError)
    ensures
        r.kind() == FailureKind::Deserialization,
{
    DictError::DeserializationError(
        String::from_str("extracted text does not match the definition shape"),
    )
}

} // verus!
