use dictionary::GeminiDictionary;

const PREFIX: &str = "please act as a dictionary, including the pronunciation, explanation, two examples of sentences, and one image. And the word is `";
const SUFFIX: &str = "`. please output the result in json format, the json keys are `word`, `pronunciation`, `definition`, `examples`, and `image`.";

#[test]
fn prompt_is_template_with_trimmed_word() {
    let dictionary = GeminiDictionary::new("key");
    let prompt = dictionary.default_prompt("  cat \n");
    assert_eq!(prompt, format!("{}cat{}", PREFIX, SUFFIX));
}

#[test]
fn prompt_keeps_inner_whitespace() {
    let dictionary = GeminiDictionary::new("key");
    let prompt = dictionary.default_prompt(" ice cream ");
    assert_eq!(prompt, format!("{}ice cream{}", PREFIX, SUFFIX));
}

#[test]
fn prompt_empty_word_is_degenerate() {
    let dictionary = GeminiDictionary::new("key");
    let prompt = dictionary.default_prompt("");
    assert_eq!(prompt, format!("{}{}", PREFIX, SUFFIX));
}

#[test]
fn new_trims_api_key() {
    let dictionary = GeminiDictionary::new("  secret-key \t");
    assert_eq!(dictionary.api_key, "secret-key");
}

#[test]
fn request_url_interpolates_key() {
    let dictionary = GeminiDictionary::new("abc123");
    assert_eq!(
        dictionary.request_url(),
        "https://generativelanguage.googleapis.com/v1beta/models/gemini-pro:generateContent?key=abc123"
    );
}

#[test]
fn request_body_wraps_escaped_prompt() {
    let dictionary = GeminiDictionary::new("key");
    let body = dictionary.request_body("cat");
    let expected = format!(
        "{{\"contents\":[{{\"parts\":[{{\"text\":\"{}cat{}\"}}]}}]}}",
        PREFIX, SUFFIX
    );
    assert_eq!(body, expected);
}

#[test]
fn request_body_is_valid_json_holding_the_prompt() {
    let dictionary = GeminiDictionary::new("key");
    let word = " a\"b\\c\nd\u{1} ";
    let body = dictionary.request_body(word);
    let parsed: serde_json::Value = serde_json::from_str(&body).expect("body must be valid JSON");
    let text = parsed["contents"][0]["parts"][0]["text"]
        .as_str()
        .expect("text must be a string");
    assert_eq!(text, dictionary.default_prompt(word));
    assert!(text.contains("a\"b\\c\nd\u{1}"));
}

#[test]
fn prompt_trims_unicode_whitespace() {
    let dictionary = GeminiDictionary::new("key");
    let prompt = dictionary.default_prompt("\u{3000}dog\u{a0}");
    assert_eq!(prompt, format!("{}dog{}", PREFIX, SUFFIX));
}
