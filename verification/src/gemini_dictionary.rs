//! The provider client: prompt and request construction, classification of
//! the transport outcome, and the full definition pipeline.

use vstd::prelude::*;
use vstd::string::*;

use crate::definition::DefinitionModel;
use crate::definition::WordDefinition;
use crate::errors::DictError;
use crate::errors::FailureKind;
use crate::extract::extract_dictionary;
use crate::extract::extract_spec;
use crate::json::json_model;
use crate::json::json_of;
use crate::json::parse_json;
use crate::json::JsonModel;
use crate::text::append_escaped;
use crate::text::dec_str;
use crate::text::decimal_string;
use crate::text::escape_text;
use crate::text::trim_spec;
use crate::text::trim_str;

verus! {

/// The template text before the word.
pub open spec fn prompt_prefix() -> Seq<char> {
    "please act as a dictionary, including the pronunciation, explanation, two examples of sentences, and one image. And the word is `"@
}

/// The template text after the word.
pub open spec fn prompt_suffix() -> Seq<char> {
    "`. please output the result in json format, the json keys are `word`, `pronunciation`, `definition`, `examples`, and `image`."@
}

fn prompt_prefix_str() -> (r: &'static str)
    ensures
        r@ == prompt_prefix(),
{
    "please act as a dictionary, including the pronunciation, explanation, two examples of sentences, and one image. And the word is `"
}

fn prompt_suffix_str() -> (r: &'static str)
    ensures
        r@ == prompt_suffix(),
{
    "`. please output the result in json format, the json keys are `word`, `pronunciation`, `definition`, `examples`, and `image`."
}

/// The instruction prompt for `word`: the fixed template with only the
/// trimmed word substituted.
pub open spec fn prompt_text(word: Seq<char>) -> Seq<char> {
    prompt_prefix() + trim_spec(word) + prompt_suffix()
}

/// The provider endpoint before the API key.
pub open spec fn url_prefix() -> Seq<char> {
    "https://generativelanguage.googleapis.com/v1beta/models/gemini-pro:generateContent?key="@
}

fn url_prefix_str() -> (r: &'static str)
    ensures
        r@ == url_prefix(),
{
    "https://generativelanguage.googleapis.com/v1beta/models/gemini-pro:generateContent?key="
}

/// The request body before the escaped prompt.
pub open spec fn body_prefix() -> Seq<char> {
    "{\"contents\":[{\"parts\":[{\"text\":\""@
}

/// The request body after the escaped prompt.
pub open spec fn body_suffix() -> Seq<char> {
    "\"}]}]}"@
}

fn body_prefix_str() -> (r: &'static str)
    ensures
        r@ == body_prefix(),
{
    "{\"contents\":[{\"parts\":[{\"text\":\""
}

fn body_suffix_str() -> (r: &'static str)
    ensures
        r@ == body_suffix(),
{
    "\"}]}]}"
}

/// The JSON request body sent for `word`: one content with one part holding
/// the prompt, with the prompt escaped as a JSON string literal.
pub open spec fn request_body_text(word: Seq<char>) -> Seq<char> {
    body_prefix() + escape_text(prompt_text(word)) + body_suffix()
}

/// The prompt holds the trimmed word between the template's prefix and
/// suffix, and is otherwise the template itself.
pub proof fn lemma_prompt_shape(word: Seq<char>)
    ensures
        prompt_text(word).len() == prompt_prefix().len() + trim_spec(word).len()
            + prompt_suffix().len(),
        prompt_text(word).subrange(0, prompt_prefix().len() as int) == prompt_prefix(),
        prompt_text(word).subrange(
            prompt_prefix().len() as int,
            (prompt_prefix().len() + trim_spec(word).len()) as int,
        ) == trim_spec(word),
        prompt_text(word).subrange(
            (prompt_prefix().len() + trim_spec(word).len()) as int,
            prompt_text(word).len() as int,
        ) == prompt_suffix(),
{
    let p = prompt_text(word);
    assert(p.subrange(0, prompt_prefix().len() as int) =~= prompt_prefix());
    assert(p.subrange(
        prompt_prefix().len() as int,
        (prompt_prefix().len() + trim_spec(word).len()) as int,
    ) =~= trim_spec(word));
    assert(p.subrange((prompt_prefix().len() + trim_spec(word).len()) as int, p.len() as int)
        =~= prompt_suffix());
}

/// A client for the generative-language provider, holding the trimmed API key.
pub struct GeminiDictionary {
    pub api_key: String,
}

impl GeminiDictionary {
    /// Build a client from an API key; surrounding whitespace is dropped.
    pub fn new(api_key: &str) -> (r: Self)
        ensures
            r.api_key@ == trim_spec(api_key@),
    {
        GeminiDictionary { api_key: String::from_str(trim_str(api_key)) }
    }

    /// The instruction prompt for `word`: the fixed template with only the
    /// trimmed word substituted.
    pub fn default_prompt(&self, word: &str) -> (r: String)
        ensures
            r@ == prompt_text(word@),
    {
        let mut s = String::from_str(prompt_prefix_str());
        s.append(trim_str(word));
        s.append(prompt_suffix_str());
        s
    }

    /// The endpoint this client posts to: the fixed provider URL with the
    /// API key interpolated.
    pub fn request_url(&self) -> (r: String)
        ensures
            r@ == url_prefix() + self.api_key@,
    {
        let mut s = String::from_str(url_prefix_str());
        s.append(self.api_key.as_str());
        s
    }

    /// The JSON body of the definition request for `word`.
    pub fn request_body(&self, word: &str) -> (r: String)
        ensures
            r@ == request_body_text(word@),
    {
        let prompt = self.default_prompt(word);
        let mut s = String::from_str(body_prefix_str());
        append_escaped(&mut s, prompt.as_str());
        s.append(body_suffix_str());
        s
    }
}

/// What the transport hands back for one request: either a failure of the
/// network layer with its description, or the provider's response with its
/// HTTP status and raw body.
pub enum TransportEvent {
    Failed(String),
    Response { status: u16, body: String },
}

/// How the transport outcome is classified: a network failure or a status
/// other than 200 is a request failure; a body that is not valid JSON is a
/// JSON failure; otherwise the parsed body is handed on.
pub open spec fn transport_spec(ev: TransportEvent) -> Result<JsonModel, FailureKind> {
    match ev {
        TransportEvent::Failed(_) => Err(FailureKind::Request),
        TransportEvent::Response { status, body } => if status != 200 {
            Err(FailureKind::Request)
        } else {
            match json_of(body@) {
                None => Err(FailureKind::Json),
                Some(m) => Ok(m),
            }
        },
    }
}

/// Classify the transport outcome and parse the response body.
pub fn interpret_response(ev: &TransportEvent) -> (r: Result<serde_json::Value, DictError>)
    ensures
        (match r {
            Ok(v) => transport_spec(*ev) == Ok::<JsonModel, FailureKind>(json_model(v)),
            Err(e) => transport_spec(*ev) matches Err(k) && e.kind() == k,
        }),
        *ev matches TransportEvent::Failed(msg) ==> (r matches Err(e) && e matches
            DictError::RequestError(s) && s@ == msg@),
        *ev matches TransportEvent::Response { status, .. } ==> (status != 200 ==> (r matches Err(
            e,
        ) && e matches DictError::RequestError(s) && s@ == dec_str(status as int))),
{
    match ev {
        TransportEvent::Failed(msg) => Err(DictError::RequestError(msg.clone())),
        TransportEvent::Response { status, body } => {
            if *status != 200 {
                Err(DictError::RequestError(decimal_string(*status)))
            } else {
                match parse_json(body.as_str()) {
                    Ok(v) => Ok(v),
                    Err(e) => Err(DictError::JsonError(e.to_string())),
                }
            }
        },
    }
}

/// The result of the whole pipeline on one transport outcome.
pub open spec fn pipeline_spec(ev: TransportEvent) -> Result<DefinitionModel, FailureKind> {
    match transport_spec(ev) {
        Err(k) => Err(k),
        Ok(m) => extract_spec(m),
    }
}

/// The relation the pipeline guarantees between a transport outcome and its
/// result: the definition named by [`pipeline_spec`] on success, an error of
/// the stage it names on failure.
pub open spec fn pipeline_post(ev: TransportEvent, r: Result<WordDefinition, DictError>) -> bool {
    match pipeline_spec(ev) {
        Ok(d) => r matches Ok(w) && w@ == d,
        Err(k) => r matches Err(e) && e.kind() == k,
    }
}

/// Run the definition pipeline on one transport outcome: classify it, parse
/// the body, and extract the definition record. A non-success status fails
/// with a request error carrying the status code in decimal, before any
/// extraction is attempted.
pub fn define_from_transport(ev: &TransportEvent) -> (r: Result<WordDefinition, DictError>)
    ensures
        pipeline_post(*ev, r),
        *ev matches TransportEvent::Failed(msg) ==> (r matches Err(e) && e matches
            DictError::RequestError(s) && s@ == msg@),
        *ev matches TransportEvent::Response { status, .. } ==> (status != 200 ==> (r matches Err(
            e,
        ) && e matches DictError::RequestError(s) && s@ == dec_str(status as int))),
{
    match interpret_response(ev) {
        Err(e) => Err(e),
        Ok(v) => extract_dictionary(v),
    }
}

/// Two pipeline results for the same transport outcome agree: both succeed
/// or both fail, successes carry the same definition, and failures are of
/// the same stage. The pipeline keeps no state between calls.
pub proof fn lemma_pipeline_deterministic(
    ev: TransportEvent,
    r1: Result<WordDefinition, DictError>,
    r2: Result<WordDefinition, DictError>,
)
    requires
        pipeline_post(ev, r1),
        pipeline_post(ev, r2),
    ensures
        r1 is Ok <==> r2 is Ok,
        r1 matches Ok(w1) ==> (r2 matches Ok(w2) && w1@ == w2@),
        r1 matches Err(e1) ==> (r2 matches Err(e2) && e1.kind() == e2.kind()),
{
}

} // verus!
