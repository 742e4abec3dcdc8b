use trlt::client::{
    authorization, build_prompt, build_request, content, endpoint, error_message,
    interpret_response, judge, read_reply, request_body, translate, Request,
};
use trlt::input::{input_source, resolve_input, InputSource};
use trlt::output::{clipboard_notice, emit, Target};
use trlt::{Config, Error};

fn value(text: &str) -> serde_json::Value {
    serde_json::from_str(text).unwrap()
}

#[test]
fn prompt_with_a_source_language() {
    assert_eq!(
        build_prompt("Hello", &Some("en".to_string()), "es"),
        "Translate this from en to es: Hello"
    );
}

#[test]
fn prompt_without_a_source_language() {
    assert_eq!(build_prompt("Hello", &None, "fr"), "Translate this to fr: Hello");
}

#[test]
fn prompt_of_an_empty_text() {
    assert_eq!(build_prompt("", &None, "en"), "Translate this to en: ");
}

#[test]
fn authorization_is_bearer_and_the_key() {
    assert_eq!(authorization("sk-test"), "Bearer sk-test");
}

#[test]
fn endpoint_is_the_chat_completion_address() {
    assert_eq!(endpoint(), "https://api.openai.com/v1/chat/completions");
}

#[test]
fn body_holds_the_model_and_the_two_messages() {
    let expected = value(
        "{\"model\":\"gpt-4o-mini\",\"messages\":[\
         {\"role\":\"system\",\"content\":\"You are a translator that only gives the translated text.\"},\
         {\"role\":\"user\",\"content\":\"Translate this to fr: Hello\"}]}",
    );
    assert_eq!(request_body("gpt-4o-mini", "Translate this to fr: Hello"), expected);
}

#[test]
fn request_is_built_from_the_config() {
    let config = Config { api_key: "sk-test".to_string(), model: "gpt-4o-mini".to_string() };
    let r = build_request(&config, "Hello", &Some("en".to_string()), "es");
    assert_eq!(r.url, "https://api.openai.com/v1/chat/completions");
    assert_eq!(r.authorization, "Bearer sk-test");
    assert_eq!(r.body["model"], "gpt-4o-mini");
    assert_eq!(r.body["messages"].as_array().unwrap().len(), 2);
    assert_eq!(r.body["messages"][0]["role"], "system");
    assert_eq!(
        r.body["messages"][0]["content"],
        "You are a translator that only gives the translated text."
    );
    assert_eq!(r.body["messages"][1]["role"], "user");
    assert_eq!(r.body["messages"][1]["content"], "Translate this from en to es: Hello");
    assert_eq!(r.body.as_object().unwrap().len(), 2);
}

#[test]
fn reply_with_content_is_the_translation() {
    let body = "{\"choices\":[{\"message\":{\"content\":\"Hola\"}}]}";
    assert_eq!(interpret_response(body), Ok("Hola".to_string()));
}

#[test]
fn reply_with_error_is_a_remote_failure() {
    let body = "{\"error\":{\"message\":\"rate limited\"}}";
    assert_eq!(interpret_response(body), Err(Error::RemoteApi("rate limited".to_string())));
}

#[test]
fn reply_with_empty_content_is_an_empty_translation() {
    let body = "{\"choices\":[{\"message\":{\"content\":\"\"}}]}";
    assert_eq!(interpret_response(body), Err(Error::EmptyTranslation));
}

#[test]
fn reply_that_is_no_json_is_malformed() {
    assert_eq!(interpret_response("<html>"), Err(Error::MalformedResponse));
    assert_eq!(interpret_response(""), Err(Error::MalformedResponse));
}

#[test]
fn reply_without_the_content_path_is_malformed() {
    for body in [
        "{}",
        "[]",
        "null",
        "{\"choices\":[]}",
        "{\"choices\":{}}",
        "{\"choices\":[{\"message\":{}}]}",
        "{\"choices\":[{\"message\":{\"content\":5}}]}",
        "{\"choices\":[{\"message\":{\"content\":null}}]}",
        "{\"choices\":[{\"text\":\"Hola\"}]}",
    ] {
        assert_eq!(interpret_response(body), Err(Error::MalformedResponse), "{}", body);
    }
}

#[test]
fn reply_takes_the_first_choice() {
    let body = "{\"choices\":[{\"message\":{\"content\":\"uno\"}},{\"message\":{\"content\":\"dos\"}}]}";
    assert_eq!(interpret_response(body), Ok("uno".to_string()));
}

#[test]
fn error_message_goes_before_content() {
    let body = "{\"error\":{\"message\":\"bad\"},\"choices\":[{\"message\":{\"content\":\"Hola\"}}]}";
    assert_eq!(interpret_response(body), Err(Error::RemoteApi("bad".to_string())));
}

#[test]
fn error_without_a_text_message_is_no_error() {
    let body = "{\"error\":{\"message\":7},\"choices\":[{\"message\":{\"content\":\"Hola\"}}]}";
    assert_eq!(interpret_response(body), Ok("Hola".to_string()));
    let body = "{\"error\":\"bad\",\"choices\":[{\"message\":{\"content\":\"Hola\"}}]}";
    assert_eq!(interpret_response(body), Ok("Hola".to_string()));
}

#[test]
fn empty_error_message_is_still_an_error() {
    let body = "{\"error\":{\"message\":\"\"}}";
    assert_eq!(interpret_response(body), Err(Error::RemoteApi(String::new())));
}

#[test]
fn parts_of_a_reply() {
    let doc = value("{\"error\":{\"message\":\"m\"},\"choices\":[{\"message\":{\"content\":\"c\"}}]}");
    assert_eq!(error_message(&doc), Some("m".to_string()));
    assert_eq!(content(&doc), Some("c".to_string()));
    let doc = value("{\"choices\":[]}");
    assert_eq!(error_message(&doc), None);
    assert_eq!(content(&doc), None);
    assert_eq!(read_reply(&doc), Err(Error::MalformedResponse));
    let doc = value("{\"choices\":[{\"message\":{\"content\":\"Bonjour\"}}]}");
    assert_eq!(read_reply(&doc), Ok("Bonjour".to_string()));
}

#[test]
fn judge_covers_each_case() {
    assert_eq!(
        judge(Some("m".to_string()), Some("c".to_string())),
        Err(Error::RemoteApi("m".to_string()))
    );
    assert_eq!(judge(Some("m".to_string()), None), Err(Error::RemoteApi("m".to_string())));
    assert_eq!(judge(None, None), Err(Error::MalformedResponse));
    assert_eq!(judge(None, Some(String::new())), Err(Error::EmptyTranslation));
    assert_eq!(judge(None, Some("c".to_string())), Ok("c".to_string()));
    assert_eq!(judge(None, Some(" ".to_string())), Ok(" ".to_string()));
}

#[test]
fn dash_is_standard_input() {
    assert_eq!(input_source("-", false), InputSource::Stdin);
    assert_eq!(input_source("-", true), InputSource::Stdin);
}

#[test]
fn existing_file_is_read() {
    assert_eq!(input_source("notes.txt", true), InputSource::File);
}

#[test]
fn anything_else_is_literal() {
    assert_eq!(input_source("Hello", false), InputSource::Literal);
    assert_eq!(input_source("", false), InputSource::Literal);
    assert_eq!(input_source("--", false), InputSource::Literal);
    assert_eq!(input_source("- ", false), InputSource::Literal);
}

#[test]
fn resolved_input_is_what_was_read_or_the_argument() {
    assert_eq!(resolve_input("-", false, "from stdin\n"), "from stdin\n");
    assert_eq!(resolve_input("notes.txt", true, "from file"), "from file");
    assert_eq!(resolve_input("Hello world", false, ""), "Hello world");
    assert_eq!(resolve_input("", false, "ignored"), "");
    assert_eq!(resolve_input("-", true, ""), "");
}

#[test]
fn emit_to_a_file_writes_the_text_exactly() {
    let e = emit("Hola\nmundo", &Some("out.txt".to_string()));
    assert_eq!(e.target, Target::File("out.txt".to_string()));
    assert_eq!(e.contents, "Hola\nmundo");
    assert_eq!(e.clipboard, "Hola\nmundo");
}

#[test]
fn emit_to_standard_output_adds_a_newline() {
    let e = emit("Hola", &None);
    assert_eq!(e.target, Target::Stdout);
    assert_eq!(e.contents, "Hola\n");
    assert_eq!(e.clipboard, "Hola");
}

#[test]
fn translate_scenario_prints_the_translation() {
    let config = Config { api_key: "sk-test".to_string(), model: "gpt-4o-mini".to_string() };
    let text = resolve_input("Hello", false, "");
    let request = build_request(&config, &text, &None, "fr");
    assert_eq!(request.body["messages"][1]["content"], "Translate this to fr: Hello");
    let reply = "{\"choices\":[{\"message\":{\"content\":\"Bonjour\"}}]}";
    let translated = interpret_response(reply).unwrap();
    let e = emit(&translated, &None);
    assert_eq!(e.target, Target::Stdout);
    assert_eq!(e.contents, "Bonjour\n");
}

fn test_config() -> Config {
    Config { api_key: "sk-test".to_string(), model: "gpt-4o-mini".to_string() }
}

#[test]
fn translate_returns_the_content_of_the_reply() {
    let endpoint = |_: Request| Ok("{\"choices\":[{\"message\":{\"content\":\"Hola\"}}]}".to_string());
    let r = translate(&test_config(), "Hello", &Some("en".to_string()), "es", endpoint);
    assert_eq!(r, Ok("Hola".to_string()));
}

#[test]
fn translate_fails_with_the_message_of_the_service() {
    let endpoint = |_: Request| Ok("{\"error\":{\"message\":\"rate limited\"}}".to_string());
    let r = translate(&test_config(), "Hello", &Some("en".to_string()), "es", endpoint);
    assert_eq!(r, Err(Error::RemoteApi("rate limited".to_string())));
}

#[test]
fn translate_fails_on_an_empty_translation() {
    let endpoint = |_: Request| Ok("{\"choices\":[{\"message\":{\"content\":\"\"}}]}".to_string());
    let r = translate(&test_config(), "Hello", &Some("en".to_string()), "es", endpoint);
    assert_eq!(r, Err(Error::EmptyTranslation));
}

#[test]
fn translate_fails_on_a_malformed_reply() {
    let endpoint = |_: Request| Ok("{\"choices\":[]}".to_string());
    let r = translate(&test_config(), "Hello", &None, "es", endpoint);
    assert_eq!(r, Err(Error::MalformedResponse));
}

#[test]
fn translate_hands_a_failure_of_the_sender_on() {
    let endpoint = |_: Request| Err(Error::Network("no route".to_string()));
    let r = translate(&test_config(), "Hello", &None, "es", endpoint);
    assert_eq!(r, Err(Error::Network("no route".to_string())));
}

#[test]
fn translate_sends_one_request_built_from_the_config() {
    let mut seen: Vec<(String, String, serde_json::Value)> = Vec::new();
    let r = translate(&test_config(), "Hello", &Some("en".to_string()), "es", |request: Request| {
        seen.push((request.url, request.authorization, request.body));
        Ok("{\"choices\":[{\"message\":{\"content\":\"Hola\"}}]}".to_string())
    });
    assert_eq!(r, Ok("Hola".to_string()));
    assert_eq!(seen.len(), 1);
    assert_eq!(seen[0].0, "https://api.openai.com/v1/chat/completions");
    assert_eq!(seen[0].1, "Bearer sk-test");
    assert_eq!(seen[0].2, request_body("gpt-4o-mini", "Translate this from en to es: Hello"));
}

#[test]
fn translate_accepts_an_empty_text() {
    let r = translate(&test_config(), "", &None, "en", |request: Request| {
        assert_eq!(request.body["messages"][1]["content"], "Translate this to en: ");
        Ok("{\"choices\":[{\"message\":{\"content\":\"x\"}}]}".to_string())
    });
    assert_eq!(r, Ok("x".to_string()));
}

#[test]
fn end_to_end_translation_reaches_standard_output() {
    let config = Config::new(Some("sk-test".to_string()), "gpt-4o-mini".to_string(), || {
        Err(Error::Io)
    })
    .unwrap();
    let stored = config.write_to_file().unwrap();
    let config = Config::read_from_file(Some(stored)).unwrap();
    assert_eq!(config, test_config());
    let text = resolve_input("Hello", false, "");
    let translated = translate(&config, &text, &None, "fr", |_: Request| {
        Ok("{\"choices\":[{\"message\":{\"content\":\"Bonjour\"}}]}".to_string())
    })
    .unwrap();
    let e = emit(&translated, &None);
    assert_eq!(e.target, Target::Stdout);
    assert_eq!(e.contents, "Bonjour\n");
}

#[test]
fn clipboard_that_took_the_text_is_reported() {
    let n = clipboard_notice(None);
    assert_eq!(n.text, "\nOutput copied to clipboard.");
    assert!(!n.is_warning);
}

#[test]
fn clipboard_failure_is_a_warning() {
    let n = clipboard_notice(Some("no display".to_string()));
    assert_eq!(n.text, "Failed to copy to clipboard: no display");
    assert!(n.is_warning);
}
