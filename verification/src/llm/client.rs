//! The rules for asking each provider: the request to send, the timeout to
//! allow, and how its reply and its failures are read.
use vstd::prelude::*;
use vstd::string::StringExecFns;

use crate::json::{first_member, get_key, lemma_lookup_absent, lemma_lookup_finds, index_key, index_pos, items_view, lemma_array_items, lemma_object_members, members_view, str_of, Json, JsonValue};
use crate::llm::config::{LlmConfig, Provider};
use crate::text::decimal;

verus! {

/// The instructions sent along with every prompt.
pub const SYSTEM_PROMPT: &'static str = "You are a NixOS configuration assistant. Generate declarative Nix expressions based on user requests. Always respond with valid JSON containing 'packages' and 'services' arrays.";

/// Why no answer could be had from the provider.
#[derive(Debug)]
pub enum LlmError {
    /// The settings do not allow a request.
    ConfigError(String),
    /// The provider could not be reached, or did not answer in time.
    ProviderUnavailable(String),
    /// The provider's reply could not be read.
    ParseError(String),
}

impl LlmError {
    /// The human-readable text of the error.
    pub fn message(&self) -> (res: String)
        ensures
            res@ == llm_error_text(*self),
    {
        match self {
            LlmError::ConfigError(s) => String::from_str("Configuration error: ").concat(s.as_str()),
            LlmError::ProviderUnavailable(s) => String::from_str("Provider unavailable: ").concat(
                s.as_str(),
            ),
            LlmError::ParseError(s) => String::from_str("Failed to parse LLM response: ").concat(
                s.as_str(),
            ),
        }
    }
}

/// The text that [`LlmError::message`] gives.
pub open spec fn llm_error_text(e: LlmError) -> Seq<char> {
    match e {
        LlmError::ConfigError(s) => "Configuration error: "@ + s@,
        LlmError::ProviderUnavailable(s) => "Provider unavailable: "@ + s@,
        LlmError::ParseError(s) => "Failed to parse LLM response: "@ + s@,
    }
}

/// An HTTP POST to make: where, with which `Authorization` header if any, and
/// the JSON body.
#[derive(Debug)]
pub struct LlmRequest {
    pub url: String,
    pub authorization: Option<String>,
    pub body: JsonValue,
}

/// Seconds to wait for a provider: a local model is given longer.
pub open spec fn timeout_secs_of(provider: Provider) -> u64 {
    match provider {
        Provider::Local => 60,
        Provider::OpenAI | Provider::Gemini => 30,
    }
}

/// The request timeout for a provider, in seconds.
pub fn request_timeout_secs(provider: Provider) -> (res: u64)
    ensures
        res == timeout_secs_of(provider),
{
    match provider {
        Provider::Local => 60,
        Provider::OpenAI | Provider::Gemini => 30,
    }
}

pub open spec fn ollama_url() -> Seq<char> {
    "http://localhost:11434/api/generate"@
}

pub open spec fn openai_url() -> Seq<char> {
    "https://api.openai.com/v1/chat/completions"@
}

pub open spec fn gemini_url(model: Seq<char>, api_key: Seq<char>) -> Seq<char> {
    "https://generativelanguage.googleapis.com/v1beta/models/"@ + model + ":generateContent?key="@
        + api_key
}

/// The body sent to Ollama.
pub open spec fn ollama_body(model: Seq<char>, prompt: Seq<char>) -> Json {
    Json::Object(
        seq![
            ("model"@, Json::Str(model)),
            ("prompt"@, Json::Str(prompt)),
            ("stream"@, Json::Bool(false)),
            ("system"@, Json::Str(SYSTEM_PROMPT@)),
        ],
    )
}

/// The body sent to OpenAI: the system instructions, then the user's prompt.
pub open spec fn openai_body(model: Seq<char>, prompt: Seq<char>) -> Json {
    Json::Object(
        seq![
            (
                "messages"@,
                Json::Array(
                    seq![
                        Json::Object(
                            seq![
                                ("content"@, Json::Str(SYSTEM_PROMPT@)),
                                ("role"@, Json::Str("system"@)),
                            ],
                        ),
                        Json::Object(
                            seq![("content"@, Json::Str(prompt)), ("role"@, Json::Str("user"@))],
                        ),
                    ],
                ),
            ),
            ("model"@, Json::Str(model)),
        ],
    )
}

/// The text Gemini is given: the instructions, a blank line, the prompt.
pub open spec fn gemini_text(prompt: Seq<char>) -> Seq<char> {
    SYSTEM_PROMPT@ + "\n\n"@ + prompt
}

/// The body sent to Gemini.
pub open spec fn gemini_body(prompt: Seq<char>) -> Json {
    Json::Object(
        seq![
            (
                "contents"@,
                Json::Array(
                    seq![
                        Json::Object(
                            seq![
                                (
                                    "parts"@,
                                    Json::Array(
                                        seq![
                                            Json::Object(
                                                seq![("text"@, Json::Str(gemini_text(prompt)))],
                                            ),
                                        ],
                                    ),
                                ),
                            ],
                        ),
                    ],
                ),
            ),
        ],
    )
}

/// The request for Ollama.
pub fn ollama_request(config: &LlmConfig, prompt: &str) -> (res: LlmRequest)
    ensures
        res.url@ == ollama_url(),
        res.authorization is None,
        res.body@ == ollama_body(config.model@, prompt@),
{
    let fields = vec![
        JsonValue::member("model", JsonValue::String(config.model.clone())),
        JsonValue::member("prompt", JsonValue::text(prompt)),
        JsonValue::member("stream", JsonValue::Bool(false)),
        JsonValue::member("system", JsonValue::text(SYSTEM_PROMPT)),
    ];
    proof {
        lemma_object_members(fields);
        assert(members_view(fields@) =~= seq![
            ("model"@, Json::Str(config.model@)),
            ("prompt"@, Json::Str(prompt@)),
            ("stream"@, Json::Bool(false)),
            ("system"@, Json::Str(SYSTEM_PROMPT@)),
        ]);
    }
    LlmRequest {
        url: String::from_str("http://localhost:11434/api/generate"),
        authorization: None,
        body: JsonValue::Object(fields),
    }
}

/// A chat message for OpenAI.
fn chat_message(role: &str, content: &str) -> (res: JsonValue)
    ensures
        res@ == Json::Object(seq![("content"@, Json::Str(content@)), ("role"@, Json::Str(role@))]),
{
    let fields = vec![
        JsonValue::member("content", JsonValue::text(content)),
        JsonValue::member("role", JsonValue::text(role)),
    ];
    proof {
        lemma_object_members(fields);
        assert(members_view(fields@) =~= seq![
            ("content"@, Json::Str(content@)),
            ("role"@, Json::Str(role@)),
        ]);
    }
    JsonValue::Object(fields)
}

/// The request for OpenAI, authorised by the given key.
pub fn openai_request(config: &LlmConfig, api_key: &str, prompt: &str) -> (res: LlmRequest)
    ensures
        res.url@ == openai_url(),
        res.authorization matches Some(a) && a@ == "Bearer "@ + api_key@,
        res.body@ == openai_body(config.model@, prompt@),
{
    let messages = vec![chat_message("system", SYSTEM_PROMPT), chat_message("user", prompt)];
    proof {
        lemma_array_items(messages);
        assert(items_view(messages@) =~= seq![messages@[0]@, messages@[1]@]);
    }
    let fields = vec![
        JsonValue::member("messages", JsonValue::Array(messages)),
        JsonValue::member("model", JsonValue::String(config.model.clone())),
    ];
    proof {
        lemma_object_members(fields);
        assert(members_view(fields@) =~= seq![
            ("messages"@, fields@[0].1@),
            ("model"@, Json::Str(config.model@)),
        ]);
    }
    LlmRequest {
        url: String::from_str("https://api.openai.com/v1/chat/completions"),
        authorization: Some(String::from_str("Bearer ").concat(api_key)),
        body: JsonValue::Object(fields),
    }
}

/// A one-member object.
fn single(key: &str, value: JsonValue) -> (res: JsonValue)
    ensures
        res@ == Json::Object(seq![(key@, value@)]),
{
    let fields = vec![JsonValue::member(key, value)];
    proof {
        lemma_object_members(fields);
        assert(members_view(fields@) =~= seq![(key@, fields@[0].1@)]);
    }
    JsonValue::Object(fields)
}

/// A one-element array.
fn singleton(value: JsonValue) -> (res: JsonValue)
    ensures
        res@ == Json::Array(seq![value@]),
{
    let items = vec![value];
    proof {
        lemma_array_items(items);
        assert(items_view(items@) =~= seq![items@[0]@]);
    }
    JsonValue::Array(items)
}

/// The request for Gemini; the key travels in the URL.
pub fn gemini_request(config: &LlmConfig, api_key: &str, prompt: &str) -> (res: LlmRequest)
    ensures
        res.url@ == gemini_url(config.model@, api_key@),
        res.authorization is None,
        res.body@ == gemini_body(prompt@),
{
    let text = String::from_str(SYSTEM_PROMPT).concat("\n\n").concat(prompt);
    let part = single("text", JsonValue::String(text));
    let content = single("parts", singleton(part));
    let body = single("contents", singleton(content));
    let url = String::from_str("https://generativelanguage.googleapis.com/v1beta/models/").concat(
        config.model.as_str(),
    ).concat(":generateContent?key=").concat(api_key);
    LlmRequest { url, authorization: None, body }
}

/// The error for a cloud provider used without a key.
pub open spec fn missing_key_text(provider: Provider) -> Seq<char> {
    match provider {
        Provider::Gemini => "Gemini provider requires api_key"@,
        _ => "OpenAI provider requires api_key"@,
    }
}

/// The request to send for a prompt. The cloud providers need an API key;
/// without one the result is [`LlmError::ConfigError`] and nothing is sent.
pub fn build_request(config: &LlmConfig, prompt: &str) -> (res: Result<LlmRequest, LlmError>)
    ensures
        match config.provider {
            Provider::Local => res matches Ok(r) && r.url@ == ollama_url() && r.authorization is None
                && r.body@ == ollama_body(config.model@, prompt@),
            Provider::OpenAI => match config.api_key {
                None => res matches Err(LlmError::ConfigError(m)) && m@ == missing_key_text(
                    Provider::OpenAI,
                ),
                Some(k) => res matches Ok(r) && r.url@ == openai_url() && (r.authorization matches Some(
                    a,
                ) && a@ == "Bearer "@ + k@) && r.body@ == openai_body(config.model@, prompt@),
            },
            Provider::Gemini => match config.api_key {
                None => res matches Err(LlmError::ConfigError(m)) && m@ == missing_key_text(
                    Provider::Gemini,
                ),
                Some(k) => res matches Ok(r) && r.url@ == gemini_url(config.model@, k@)
                    && r.authorization is None && r.body@ == gemini_body(prompt@),
            },
        },
{
    match config.provider {
        Provider::Local => Ok(ollama_request(config, prompt)),
        Provider::OpenAI => match &config.api_key {
            None => Err(LlmError::ConfigError(String::from_str("OpenAI provider requires api_key"))),
            Some(k) => Ok(openai_request(config, k.as_str(), prompt)),
        },
        Provider::Gemini => match &config.api_key {
            None => Err(LlmError::ConfigError(String::from_str("Gemini provider requires api_key"))),
            Some(k) => Ok(gemini_request(config, k.as_str(), prompt)),
        },
    }
}

/// The name under which a provider appears in error texts.
pub open spec fn provider_label(provider: Provider) -> Seq<char> {
    match provider {
        Provider::Local => "Ollama"@,
        Provider::OpenAI => "OpenAI"@,
        Provider::Gemini => "Gemini"@,
    }
}

fn label(provider: Provider) -> (res: &'static str)
    ensures
        res@ == provider_label(provider),
{
    match provider {
        Provider::Local => "Ollama",
        Provider::OpenAI => "OpenAI",
        Provider::Gemini => "Gemini",
    }
}

/// The text for a request that timed out.
pub open spec fn timeout_text(provider: Provider) -> Seq<char> {
    match provider {
        Provider::Local => "Ollama timeout after 60s"@,
        Provider::OpenAI => "OpenAI timeout after 30s"@,
        Provider::Gemini => "Gemini timeout after 30s"@,
    }
}

/// The error for a request that could not be completed: a timeout is told
/// apart from any other failure, whose description is kept.
pub fn send_failure(provider: Provider, timed_out: bool, detail: &str) -> (res: LlmError)
    ensures
        timed_out ==> (res matches LlmError::ProviderUnavailable(m) && m@ == timeout_text(provider)),
        !timed_out ==> (res matches LlmError::ProviderUnavailable(m) && m@ == provider_label(provider)
            + " error: "@ + detail@),
{
    if timed_out {
        let m = match provider {
            Provider::Local => "Ollama timeout after 60s",
            Provider::OpenAI => "OpenAI timeout after 30s",
            Provider::Gemini => "Gemini timeout after 30s",
        };
        LlmError::ProviderUnavailable(String::from_str(m))
    } else {
        LlmError::ProviderUnavailable(
            String::from_str(label(provider)).concat(" error: ").concat(detail),
        )
    }
}

/// The error for a reply that is not JSON.
pub fn decode_failure(provider: Provider, detail: &str) -> (res: LlmError)
    ensures
        res matches LlmError::ParseError(m) && m@ == "Failed to parse "@ + provider_label(provider)
            + " response: "@ + detail@,
{
    LlmError::ParseError(
        String::from_str("Failed to parse ").concat(label(provider)).concat(" response: ").concat(
            detail,
        ),
    )
}

/// Where each provider puts the answer: Ollama in `response`, OpenAI in
/// `choices[0].message.content`, Gemini in
/// `candidates[0].content.parts[0].text`.
pub open spec fn reply_text(provider: Provider, data: Json) -> Option<Seq<char>> {
    match provider {
        Provider::Local => str_of(index_key(data, "response"@)),
        Provider::OpenAI => str_of(
            index_key(index_key(index_pos(index_key(data, "choices"@), 0), "message"@), "content"@),
        ),
        Provider::Gemini => str_of(
            index_key(
                index_pos(
                    index_key(index_key(index_pos(index_key(data, "candidates"@), 0), "content"@), "parts"@),
                    0,
                ),
                "text"@,
            ),
        ),
    }
}

/// The error text for a reply without an answer.
pub open spec fn missing_reply_text(provider: Provider) -> Seq<char> {
    match provider {
        Provider::Local => "Missing 'response' field in Ollama output"@,
        Provider::OpenAI => "Missing content in OpenAI response"@,
        Provider::Gemini => "Missing text in Gemini response"@,
    }
}

/// A JSON value that may be absent, where absence reads as `null`.
pub open spec fn or_null(v: Option<&JsonValue>) -> Json {
    match v {
        Some(x) => x@,
        None => Json::Null,
    }
}

fn step_key<'a>(v: Option<&'a JsonValue>, key: &str) -> (res: Option<&'a JsonValue>)
    ensures
        or_null(res) == index_key(or_null(v), key@),
{
    match v {
        Some(x) => x.get(key),
        None => None,
    }
}

fn step_pos<'a>(v: Option<&'a JsonValue>, i: usize) -> (res: Option<&'a JsonValue>)
    ensures
        or_null(res) == index_pos(or_null(v), i as int),
{
    match v {
        Some(x) => x.get_index(i),
        None => None,
    }
}

/// Reads the answer out of a provider's decoded reply.
pub fn read_reply(provider: Provider, data: &JsonValue) -> (res: Result<String, LlmError>)
    ensures
        match reply_text(provider, data@) {
            Some(t) => res matches Ok(s) && s@ == t,
            None => res matches Err(LlmError::ParseError(m)) && m@ == missing_reply_text(provider),
        },
{
    let start = Some(data);
    let found = match provider {
        Provider::Local => step_key(start, "response"),
        Provider::OpenAI => step_key(step_key(step_pos(step_key(start, "choices"), 0), "message"), "content"),
        Provider::Gemini => step_key(
            step_pos(step_key(step_key(step_pos(step_key(start, "candidates"), 0), "content"), "parts"), 0),
            "text",
        ),
    };
    let text = match found {
        Some(v) => v.as_str(),
        None => None,
    };
    match text {
        Some(t) => Ok(String::from_str(t)),
        None => {
            let m = match provider {
                Provider::Local => "Missing 'response' field in Ollama output",
                Provider::OpenAI => "Missing content in OpenAI response",
                Provider::Gemini => "Missing text in Gemini response",
            };
            Err(LlmError::ParseError(String::from_str(m)))
        },
    }
}

/// The timeout error names the timeout that requests to that provider are
/// given.
pub proof fn lemma_timeout_text_states_timeout(provider: Provider)
    ensures
        timeout_text(provider) == provider_label(provider) + " timeout after "@ + decimal(
            timeout_secs_of(provider) as nat,
        ) + "s"@,
{
    reveal_strlit("Ollama timeout after 60s");
    reveal_strlit("OpenAI timeout after 30s");
    reveal_strlit("Gemini timeout after 30s");
    reveal_strlit("Ollama");
    reveal_strlit("OpenAI");
    reveal_strlit("Gemini");
    reveal_strlit(" timeout after ");
    reveal_strlit("s");
    reveal_with_fuel(decimal, 2);
    assert(timeout_text(provider) =~= provider_label(provider) + " timeout after "@ + decimal(
        timeout_secs_of(provider) as nat,
    ) + "s"@);
}

/// Ollama's answer is the text of the reply's `response` member, wherever
/// that member stands among the reply's other members.
pub proof fn lemma_ollama_answer(fields: Seq<(Seq<char>, Json)>, i: int, text: Seq<char>)
    requires
        first_member(fields, "response"@, i),
        fields[i].1 == Json::Str(text),
    ensures
        reply_text(Provider::Local, Json::Object(fields)) == Some(text),
{
    lemma_lookup_finds(fields, "response"@, i);
}

/// An Ollama reply without a `response` member has no answer.
pub proof fn lemma_ollama_no_answer(fields: Seq<(Seq<char>, Json)>)
    requires
        forall|j: int| 0 <= j < fields.len() ==> fields[j].0 != "response"@,
    ensures
        reply_text(Provider::Local, Json::Object(fields)) is None,
{
    lemma_lookup_absent(fields, "response"@);
}

/// OpenAI's answer is the text at `choices[0].message.content`, wherever
/// each of those members stands in its object.
pub proof fn lemma_openai_answer(
    top: Seq<(Seq<char>, Json)>,
    i: int,
    choices: Seq<Json>,
    choice: Seq<(Seq<char>, Json)>,
    j: int,
    message: Seq<(Seq<char>, Json)>,
    k: int,
    text: Seq<char>,
)
    requires
        first_member(top, "choices"@, i),
        top[i].1 == Json::Array(choices),
        choices.len() > 0,
        choices[0] == Json::Object(choice),
        first_member(choice, "message"@, j),
        choice[j].1 == Json::Object(message),
        first_member(message, "content"@, k),
        message[k].1 == Json::Str(text),
    ensures
        reply_text(Provider::OpenAI, Json::Object(top)) == Some(text),
{
    lemma_lookup_finds(top, "choices"@, i);
    lemma_lookup_finds(choice, "message"@, j);
    lemma_lookup_finds(message, "content"@, k);
}

/// Gemini's answer is the text at `candidates[0].content.parts[0].text`,
/// wherever each of those members stands in its object.
pub proof fn lemma_gemini_answer(
    top: Seq<(Seq<char>, Json)>,
    i: int,
    candidates: Seq<Json>,
    candidate: Seq<(Seq<char>, Json)>,
    j: int,
    content: Seq<(Seq<char>, Json)>,
    k: int,
    parts: Seq<Json>,
    part: Seq<(Seq<char>, Json)>,
    l: int,
    text: Seq<char>,
)
    requires
        first_member(top, "candidates"@, i),
        top[i].1 == Json::Array(candidates),
        candidates.len() > 0,
        candidates[0] == Json::Object(candidate),
        first_member(candidate, "content"@, j),
        candidate[j].1 == Json::Object(content),
        first_member(content, "parts"@, k),
        content[k].1 == Json::Array(parts),
        parts.len() > 0,
        parts[0] == Json::Object(part),
        first_member(part, "text"@, l),
        part[l].1 == Json::Str(text),
    ensures
        reply_text(Provider::Gemini, Json::Object(top)) == Some(text),
{
    lemma_lookup_finds(top, "candidates"@, i);
    lemma_lookup_finds(candidate, "content"@, j);
    lemma_lookup_finds(content, "parts"@, k);
    lemma_lookup_finds(part, "text"@, l);
}

/// The Ollama request carries the prompt and the model unchanged.
pub proof fn lemma_ollama_body_carries(model: Seq<char>, prompt: Seq<char>)
    ensures
        get_key(ollama_body(model, prompt), "prompt"@) == Some(Json::Str(prompt)),
        get_key(ollama_body(model, prompt), "model"@) == Some(Json::Str(model)),
        get_key(ollama_body(model, prompt), "system"@) == Some(Json::Str(SYSTEM_PROMPT@)),
        get_key(ollama_body(model, prompt), "stream"@) == Some(Json::Bool(false)),
{
    reveal_strlit("model");
    reveal_strlit("prompt");
    reveal_strlit("stream");
    reveal_strlit("system");
    assert("model"@.len() == 5 && "prompt"@.len() == 6 && "stream"@.len() == 6 && "system"@.len() == 6);
    assert("prompt"@[0] != "stream"@[0] && "prompt"@[0] != "system"@[0] && "stream"@[1] != "system"@[1]);
    let fs = seq![
        ("model"@, Json::Str(model)),
        ("prompt"@, Json::Str(prompt)),
        ("stream"@, Json::Bool(false)),
        ("system"@, Json::Str(SYSTEM_PROMPT@)),
    ];
    lemma_lookup_finds(fs, "model"@, 0);
    lemma_lookup_finds(fs, "prompt"@, 1);
    lemma_lookup_finds(fs, "stream"@, 2);
    lemma_lookup_finds(fs, "system"@, 3);
}

/// The OpenAI request sends the instructions and then the prompt, unchanged,
/// as the user's message.
pub proof fn lemma_openai_body_carries(model: Seq<char>, prompt: Seq<char>)
    ensures
        get_key(openai_body(model, prompt), "model"@) == Some(Json::Str(model)),
        get_key(openai_body(model, prompt), "messages"@) == Some(
            Json::Array(
                seq![
                    Json::Object(seq![("content"@, Json::Str(SYSTEM_PROMPT@)), ("role"@, Json::Str("system"@))]),
                    Json::Object(seq![("content"@, Json::Str(prompt)), ("role"@, Json::Str("user"@))]),
                ],
            ),
        ),
{
    reveal_strlit("model");
    reveal_strlit("messages");
    assert("model"@.len() == 5 && "messages"@.len() == 8);
    assert(openai_body(model, prompt) matches Json::Object(f) && f[0].0 == "messages"@ && f[1] == ("model"@, Json::Str(model)));
    if let Json::Object(f) = openai_body(model, prompt) {
        lemma_lookup_finds(f, "messages"@, 0);
        lemma_lookup_finds(f, "model"@, 1);
    }
}

/// The Gemini request's only text is the instructions, a blank line, and the
/// prompt unchanged.
pub proof fn lemma_gemini_text_carries(prompt: Seq<char>)
    ensures
        gemini_text(prompt).len() == SYSTEM_PROMPT@.len() + 2 + prompt.len(),
        gemini_text(prompt).subrange(0, SYSTEM_PROMPT@.len() as int) == SYSTEM_PROMPT@,
        gemini_text(prompt).subrange(
            gemini_text(prompt).len() - prompt.len(),
            gemini_text(prompt).len() as int,
        ) == prompt,
{
    reveal_strlit("\n\n");
    let t = gemini_text(prompt);
    assert(t.subrange(0, SYSTEM_PROMPT@.len() as int) =~= SYSTEM_PROMPT@);
    assert(t.subrange(t.len() - prompt.len(), t.len() as int) =~= prompt);
}

/// A local model is given a minute; the cloud providers half a minute.
pub proof fn lemma_timeouts()
    ensures
        timeout_secs_of(Provider::Local) == 60,
        timeout_secs_of(Provider::OpenAI) == 30,
        timeout_secs_of(Provider::Gemini) == 30,
{
}

/// Where requests go: Ollama on this machine, OpenAI's chat completions,
/// and Gemini's `generateContent` for the configured model, with the key as
/// the last part of the URL.
pub proof fn lemma_request_targets(model: Seq<char>, api_key: Seq<char>)
    ensures
        ollama_url() == "http://localhost:11434/api/generate"@,
        openai_url() == "https://api.openai.com/v1/chat/completions"@,
        ({
            let prefix = "https://generativelanguage.googleapis.com/v1beta/models/"@;
            let u = gemini_url(model, api_key);
            &&& u.subrange(0, prefix.len() as int) == prefix
            &&& u.subrange(prefix.len() as int, (prefix.len() + model.len()) as int) == model
            &&& u.subrange(u.len() - api_key.len(), u.len() as int) == api_key
            &&& u.subrange((prefix.len() + model.len()) as int, u.len() - api_key.len())
                == ":generateContent?key="@
        }),
{
    let prefix = "https://generativelanguage.googleapis.com/v1beta/models/"@;
    let u = gemini_url(model, api_key);
    let mid = ":generateContent?key="@;
    assert(u =~= prefix + model + mid + api_key);
    assert(u.subrange(0, prefix.len() as int) =~= prefix);
    assert(u.subrange(prefix.len() as int, (prefix.len() + model.len()) as int) =~= model);
    assert(u.subrange(u.len() - api_key.len(), u.len() as int) =~= api_key);
    assert(u.subrange((prefix.len() + model.len()) as int, u.len() - api_key.len()) =~= mid);
}

/// The texts of the provider errors: the name each provider goes by, the
/// refusal without a key, and the complaint about a reply without an answer.
pub proof fn lemma_error_texts()
    ensures
        provider_label(Provider::Local) == "Ollama"@,
        provider_label(Provider::OpenAI) == "OpenAI"@,
        provider_label(Provider::Gemini) == "Gemini"@,
        missing_key_text(Provider::OpenAI) == "OpenAI provider requires api_key"@,
        missing_key_text(Provider::Gemini) == "Gemini provider requires api_key"@,
        missing_reply_text(Provider::Local) == "Missing 'response' field in Ollama output"@,
        missing_reply_text(Provider::OpenAI) == "Missing content in OpenAI response"@,
        missing_reply_text(Provider::Gemini) == "Missing text in Gemini response"@,
        timeout_text(Provider::Local) == "Ollama timeout after 60s"@,
        timeout_text(Provider::OpenAI) == "OpenAI timeout after 30s"@,
        timeout_text(Provider::Gemini) == "Gemini timeout after 30s"@,
{
}

/// An error's text names its kind and keeps its detail unchanged.
pub proof fn lemma_llm_error_text(detail: String)
    ensures
        llm_error_text(LlmError::ConfigError(detail)) == "Configuration error: "@ + detail@,
        llm_error_text(LlmError::ProviderUnavailable(detail)) == "Provider unavailable: "@ + detail@,
        llm_error_text(LlmError::ParseError(detail)) == "Failed to parse LLM response: "@ + detail@,
{
}

} // verus!
