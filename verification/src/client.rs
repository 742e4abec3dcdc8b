//! The translation request and the reading of the service's reply.

use vstd::prelude::*;
use crate::config::Config;
use crate::error::{text_result, Error, Failure};
use crate::json::{
    element, json_of, list_value, member, no_members, parse, parsed_json, put_member,
    record_value, text, text_value, Json,
};

verus! {

/// The instruction for the model: translate `text` to `to`, from `from`
/// where a source language is given.
pub open spec fn prompt_text(text: Seq<char>, from: Option<Seq<char>>, to: Seq<char>) -> Seq<
    char,
> {
    match from {
        Some(f) => "Translate this from "@ + f + " to "@ + to + ": "@ + text,
        None => "Translate this to "@ + to + ": "@ + text,
    }
}

/// The value of the `Authorization` header for the API key `key`.
pub open spec fn bearer(key: Seq<char>) -> Seq<char> {
    "Bearer "@ + key
}

/// One chat message: its role and its content.
pub open spec fn message_doc(role: Seq<char>, content: Seq<char>) -> Json {
    Json::Record(
        Map::empty().insert("role"@, Json::Text(role)).insert("content"@, Json::Text(content)),
    )
}

/// The body of the request: the model's name and two messages, the system
/// message that fixes the assistant's role and the user message with the
/// prompt.
pub open spec fn request_doc(model: Seq<char>, prompt: Seq<char>) -> Json {
    Json::Record(
        Map::empty().insert("model"@, Json::Text(model)).insert(
            "messages"@,
            Json::List(
                seq![
                    message_doc(
                        "system"@,
                        "You are a translator that only gives the translated text."@,
                    ),
                    message_doc("user"@, prompt),
                ],
            ),
        ),
    )
}

/// The message of the error object of a reply: the string at
/// `error.message`, if there is one.
pub open spec fn reply_error(doc: Json) -> Option<Seq<char>> {
    match doc.member("error"@) {
        Some(e) => match e.member("message"@) {
            Some(m) => m.text(),
            None => None,
        },
        None => None,
    }
}

/// The translated text of a reply: the string at
/// `choices[0].message.content`, if there is one.
pub open spec fn reply_content(doc: Json) -> Option<Seq<char>> {
    match doc.member("choices"@) {
        Some(choices) => match choices.element(0) {
            Some(first) => match first.member("message"@) {
                Some(message) => match message.member("content"@) {
                    Some(content) => content.text(),
                    None => None,
                },
                None => None,
            },
            None => None,
        },
        None => None,
    }
}

/// What a reply amounts to, given its error message and its content. An
/// error message makes it a failure of the service, whatever else the reply
/// holds; without one the content is the translation, which must be there
/// and must not be empty.
pub open spec fn verdict(error: Option<Seq<char>>, content: Option<Seq<char>>) -> Result<
    Seq<char>,
    Failure,
> {
    match error {
        Some(m) => Err(Failure::RemoteApi(m)),
        None => match content {
            None => Err(Failure::MalformedResponse),
            Some(c) => if c.len() == 0 {
                Err(Failure::EmptyTranslation)
            } else {
                Ok(c)
            },
        },
    }
}

/// What the reply `doc` amounts to.
pub open spec fn reply_verdict(doc: Json) -> Result<Seq<char>, Failure> {
    verdict(reply_error(doc), reply_content(doc))
}

/// What a parsed response body amounts to: a body that is no JSON value is
/// a malformed reply.
pub open spec fn body_verdict(parsed: Option<Json>) -> Result<Seq<char>, Failure> {
    match parsed {
        Some(doc) => reply_verdict(doc),
        None => Err(Failure::MalformedResponse),
    }
}

/// A request to the chat-completion endpoint.
pub struct Request {
    /// Where the request is posted.
    pub url: String,
    /// The value of the `Authorization` header.
    pub authorization: String,
    /// The JSON body.
    pub body: serde_json::Value,
}

impl Request {
    /// Whether this is the request that asks the model `model` for `prompt`
    /// with the key `api_key`.
    pub open spec fn asks(self, api_key: Seq<char>, model: Seq<char>, prompt: Seq<char>) -> bool {
        &&& self.url@ == "https://api.openai.com/v1/chat/completions"@
        &&& self.authorization@ == bearer(api_key)
        &&& json_of(self.body) == request_doc(model, prompt)
    }
}

/// A source language as contracts speak of it.
pub open spec fn language(from: Option<String>) -> Option<Seq<char>> {
    match from {
        Some(f) => Some(f@),
        None => None,
    }
}

/// A reply that carries an error message is a failure of the service with
/// that message, whatever else it holds.
pub proof fn lemma_error_goes_first(doc: Json)
    ensures
        reply_error(doc) matches Some(m) ==> reply_verdict(doc) == Err::<Seq<char>, Failure>(
            Failure::RemoteApi(m),
        ),
{
}

/// A translation is never empty: it is the content of a reply that carries
/// no error message.
pub proof fn lemma_translation_is_the_content(doc: Json)
    ensures
        reply_verdict(doc) matches Ok(t) ==> t.len() > 0 && reply_content(doc) == Some(t)
            && reply_error(doc) is None,
{
}

/// The body of a response gives a translation or one of three failures:
/// that of the service, a malformed reply, or an empty translation.
pub proof fn lemma_failures_of_a_reply(parsed: Option<Json>)
    ensures
        match body_verdict(parsed) {
            Ok(t) => t.len() > 0,
            Err(Failure::RemoteApi(_)) => parsed is Some,
            Err(Failure::MalformedResponse) => true,
            Err(Failure::EmptyTranslation) => parsed is Some,
            Err(_) => false,
        },
{
}

/// The address of the chat-completion endpoint.
pub fn endpoint() -> (url: &'static str)
    ensures
        url@ == "https://api.openai.com/v1/chat/completions"@,
{
    "https://api.openai.com/v1/chat/completions"
}

/// Builds the instruction for the model.
pub fn build_prompt(text: &str, from: &Option<String>, to: &str) -> (p: String)
    ensures
        p@ == prompt_text(text@, language(*from), to@),
{
    match from {
        Some(f) => String::from_str("Translate this from ").concat(f.as_str()).concat(
            " to ",
        ).concat(to).concat(": ").concat(text),
        None => String::from_str("Translate this to ").concat(to).concat(": ").concat(text),
    }
}

/// Builds the value of the `Authorization` header.
pub fn authorization(api_key: &str) -> (h: String)
    ensures
        h@ == bearer(api_key@),
{
    String::from_str("Bearer ").concat(api_key)
}

/// Builds one chat message.
fn message_value(role: &str, content: &str) -> (v: serde_json::Value)
    ensures
        json_of(v) == message_doc(role@, content@),
{
    let mut m = no_members();
    put_member(&mut m, String::from_str("role"), text_value(String::from_str(role)));
    put_member(&mut m, String::from_str("content"), text_value(String::from_str(content)));
    record_value(m)
}

/// Builds the body of the request for `model` and `prompt`.
pub fn request_body(model: &str, prompt: &str) -> (v: serde_json::Value)
    ensures
        json_of(v) == request_doc(model@, prompt@),
{
    let system = message_value(
        "system",
        "You are a translator that only gives the translated text.",
    );
    let user = message_value("user", prompt);
    let mut messages: Vec<serde_json::Value> = Vec::new();
    messages.push(system);
    messages.push(user);
    assert(messages@.map_values(|v: serde_json::Value| json_of(v)) =~= seq![
        message_doc("system"@, "You are a translator that only gives the translated text."@),
        message_doc("user"@, prompt@),
    ]);
    let mut m = no_members();
    put_member(&mut m, String::from_str("model"), text_value(String::from_str(model)));
    put_member(&mut m, String::from_str("messages"), list_value(messages));
    record_value(m)
}

/// Builds the one request of a translation: `text` is to be translated to
/// `to`, from `from` where it is given, with the key and the model of
/// `config`.
pub fn build_request(config: &Config, text: &str, from: &Option<String>, to: &str) -> (r: Request)
    ensures
        r.asks(config@.api_key, config@.model, prompt_text(text@, language(*from), to@)),
{
    let prompt = build_prompt(text, from, to);
    Request {
        url: String::from_str(endpoint()),
        authorization: authorization(config.api_key.as_str()),
        body: request_body(config.model.as_str(), prompt.as_str()),
    }
}

/// Reads the message of the error object of a reply.
pub fn error_message(doc: &serde_json::Value) -> (r: Option<String>)
    ensures
        match r {
            Some(m) => reply_error(json_of(*doc)) == Some(m@),
            None => reply_error(json_of(*doc)) is None,
        },
{
    match member(doc, "error") {
        Some(e) => match member(e, "message") {
            Some(m) => text(m),
            None => None,
        },
        None => None,
    }
}

/// Reads the translated text of a reply.
pub fn content(doc: &serde_json::Value) -> (r: Option<String>)
    ensures
        match r {
            Some(c) => reply_content(json_of(*doc)) == Some(c@),
            None => reply_content(json_of(*doc)) is None,
        },
{
    match member(doc, "choices") {
        Some(choices) => match element(choices, 0) {
            Some(first) => match member(first, "message") {
                Some(message) => match member(message, "content") {
                    Some(c) => text(c),
                    None => None,
                },
                None => None,
            },
            None => None,
        },
        None => None,
    }
}

/// Decides what a reply amounts to, from its error message and its content.
pub fn judge(error: Option<String>, content: Option<String>) -> (r: Result<String, Error>)
    ensures
        text_result(r) == verdict(
            match error {
                Some(m) => Some(m@),
                None => None,
            },
            match content {
                Some(c) => Some(c@),
                None => None,
            },
        ),
{
    match error {
        Some(m) => Err(Error::RemoteApi(m)),
        None => match content {
            None => Err(Error::MalformedResponse),
            Some(c) => if c.as_str().is_empty() {
                Err(Error::EmptyTranslation)
            } else {
                Ok(c)
            },
        },
    }
}

/// Reads a reply: the translated text, or the failure that the reply
/// amounts to.
pub fn read_reply(doc: &serde_json::Value) -> (r: Result<String, Error>)
    ensures
        text_result(r) == reply_verdict(json_of(*doc)),
{
    judge(error_message(doc), content(doc))
}

/// Reads the body of a response: the translated text, or the failure that
/// the response amounts to.
pub fn interpret_response(body: &str) -> (r: Result<String, Error>)
    ensures
        text_result(r) == body_verdict(parsed_json(body@)),
{
    match parse(body) {
        Some(doc) => read_reply(&doc),
        None => Err(Error::MalformedResponse),
    }
}

/// Translates `text` to the language `to`, from `from` where it is given.
/// One request is built from `config` and handed to `send`, once; `send`
/// performs it and returns the body of the response. A failure of `send` is
/// handed on; the body is read as `interpret_response` reads it.
pub fn translate<S: FnOnce(Request) -> Result<String, Error>>(
    config: &Config,
    text: &str,
    from: &Option<String>,
    to: &str,
    send: S,
) -> (r: Result<String, Error>)
    requires
        forall|request: Request|
            request.asks(config@.api_key, config@.model, prompt_text(text@, language(*from), to@))
                ==> #[trigger] send.requires((request,)),
    ensures
        exists|request: Request, answer: Result<String, Error>|
            request.asks(config@.api_key, config@.model, prompt_text(text@, language(*from), to@))
                && #[trigger] send.ensures((request,), answer) && match answer {
                Ok(body) => text_result(r) == body_verdict(parsed_json(body@)),
                Err(e) => r == Err::<String, Error>(e),
            },
{
    let request = build_request(config, text, from, to);
    match send(request) {
        Ok(body) => interpret_response(body.as_str()),
        Err(e) => Err(e),
    }
}

} // verus!
