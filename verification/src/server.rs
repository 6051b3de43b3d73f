//! The daemon's request handling as a sequence of decisions. Each function
//! takes the outcome of the previous piece of outside work and says what to
//! do next: answer, ask the model, decode its answer, or store the module.
use vstd::prelude::*;
use vstd::string::StringExecFns;
use vstd::string::to_string_from_display_ensures;

use crate::json::{
    first_member, get_key, lemma_lookup_absent, lemma_lookup_finds, lemma_object_members, members_view,
    str_of, Json, JsonValue,
};
use crate::llm::client::{llm_error_text, LlmError};
use crate::nix::generator::{generate_nix, nix_module};
use crate::nix::parser::{parse_llm_output, plan_is_empty, NixPlan, ParseError};
use crate::nix::validator::ValidationError;
use crate::rpc::JsonRpcRequest;
use crate::text::{is_blank, lemma_trim_empty_iff_blank, trim, trim_of};

verus! {

/// The Unix socket that the daemon listens on.
pub const SOCKET_PATH: &'static str = "/run/chai-core/chai.sock";

/// The name under which generated modules are stored.
pub const GENERATION_NAME: &'static str = "chai-generation";

/// The model of a JSON-RPC error reply.
pub open spec fn error_response(code: Seq<char>, message: Seq<char>, id: Json) -> Json {
    Json::Object(
        seq![
            (
                "error"@,
                Json::Object(
                    seq![("code"@, Json::Number(code)), ("message"@, Json::Str(message))],
                ),
            ),
            ("id"@, id),
            ("jsonrpc"@, Json::Str("2.0"@)),
        ],
    )
}

/// The model of the reply to a successful `execute_intent`.
pub open spec fn success_response(nix_file: Seq<char>, content: Seq<char>, id: Json) -> Json {
    Json::Object(
        seq![
            ("id"@, id),
            ("jsonrpc"@, Json::Str("2.0"@)),
            (
                "result"@,
                Json::Object(
                    seq![
                        ("content"@, Json::Str(content)),
                        ("nix_file"@, Json::Str(nix_file)),
                        ("status"@, Json::Str("success"@)),
                    ],
                ),
            ),
        ],
    )
}

pub open spec fn parse_error_code() -> Seq<char> {
    "-32700"@
}

pub open spec fn method_not_found_code() -> Seq<char> {
    "-32601"@
}

pub open spec fn invalid_params_code() -> Seq<char> {
    "-32602"@
}

pub open spec fn server_error_code() -> Seq<char> {
    "-32000"@
}

/// A request whose model or module work is under way.
#[derive(Debug)]
pub struct Pending {
    /// The id to echo (`null` for a notification).
    pub id: JsonValue,
    /// Whether the caller expects a reply.
    pub reply: bool,
    /// The generated module, once there is one.
    pub nix_content: String,
}

/// What the caller of the decision functions must do next.
#[derive(Debug)]
pub enum Step {
    /// Send this reply, or nothing for a notification.
    Done(Option<JsonValue>),
    /// Ask the language model with this prompt, then call [`after_generate`].
    Generate(Pending, String),
    /// Decode the model's answer as a plan, then call [`after_decode`].
    DecodePlan(Pending, String),
    /// Store and check `nix_content` under [`GENERATION_NAME`], then call
    /// [`after_write`].
    WriteModule(Pending),
}

/// The model of an optional JSON value.
pub open spec fn opt_view(v: Option<JsonValue>) -> Option<Json> {
    match v {
        Some(x) => Some(x@),
        None => None,
    }
}

/// The id that replies echo: the request's, or `null`.
pub open spec fn id_of(id: Option<JsonValue>) -> Json {
    match id {
        Some(x) => x@,
        None => Json::Null,
    }
}

/// The reply actually sent: none for a notification.
pub open spec fn sent(reply: bool, response: Json) -> Option<Json> {
    if reply {
        Some(response)
    } else {
        None
    }
}

/// Whether a step finishes with the given reply.
pub open spec fn finishes_with(step: Step, expected: Option<Json>) -> bool {
    step matches Step::Done(r) && opt_view(r) == expected
}

/// Whether `response` answers the call with the given id: it echoes the id
/// and names JSON-RPC 2.0.
pub open spec fn answers(response: Json, id: Json) -> bool {
    get_key(response, "id"@) == Some(id) && get_key(response, "jsonrpc"@) == Some(
        Json::Str("2.0"@),
    )
}

/// Whether a step stays with the call: a reply, when one is sent, answers the
/// call's id, a notification gets none, and work under way keeps both.
pub open spec fn keeps_call(step: Step, reply: bool, id: Json) -> bool {
    match step {
        Step::Done(r) => if reply {
            r matches Some(x) && answers(x@, id)
        } else {
            r is None
        },
        Step::Generate(p, _) => p.reply == reply && p.id@ == id,
        Step::DecodePlan(p, _) => p.reply == reply && p.id@ == id,
        Step::WriteModule(p) => p.reply == reply && p.id@ == id,
    }
}

/// Every error reply answers the call whose id it carries.
pub proof fn lemma_error_response_answers(code: Seq<char>, message: Seq<char>, id: Json)
    ensures
        answers(error_response(code, message, id), id),
{
    reveal_strlit("error");
    reveal_strlit("id");
    reveal_strlit("jsonrpc");
    let fs = seq![
        ("error"@, Json::Object(seq![("code"@, Json::Number(code)), ("message"@, Json::Str(message))])),
        ("id"@, id),
        ("jsonrpc"@, Json::Str("2.0"@)),
    ];
    assert(fs.drop_first()[0] == ("id"@, id));
    assert(fs.drop_first().drop_first()[0] == ("jsonrpc"@, Json::Str("2.0"@)));
    assert("error"@.len() == 5 && "id"@.len() == 2 && "jsonrpc"@.len() == 7);
    reveal_with_fuel(crate::json::lookup, 3);
}

/// Every success reply answers the call whose id it carries.
pub proof fn lemma_success_response_answers(nix_file: Seq<char>, content: Seq<char>, id: Json)
    ensures
        answers(success_response(nix_file, content, id), id),
{
    reveal_strlit("id");
    reveal_strlit("jsonrpc");
    assert("id"@.len() == 2 && "jsonrpc"@.len() == 7);
    let r = success_response(nix_file, content, id);
    if let Json::Object(f) = r {
        assert(f[0] == ("id"@, id));
        assert(f.drop_first()[0] == ("jsonrpc"@, Json::Str("2.0"@)));
        reveal_with_fuel(crate::json::lookup, 2);
    }
}

/// The `prompt` parameter, or the empty text where it is absent or not a string.
pub open spec fn prompt_of(params: Option<JsonValue>) -> Seq<char> {
    match params {
        Some(p) => match get_key(p@, "prompt"@) {
            Some(v) => match str_of(v) {
                Some(s) => s,
                None => Seq::empty(),
            },
            None => Seq::empty(),
        },
        None => Seq::empty(),
    }
}

/// A reply `{"jsonrpc": "2.0", "error": {"code": .., "message": ..}, "id": ..}`.
pub fn error_reply(code: &str, message: String, id: JsonValue) -> (res: JsonValue)
    ensures
        res@ == error_response(code@, message@, id@),
{
    let inner = vec![
        JsonValue::member("code", JsonValue::Number(String::from_str(code))),
        JsonValue::member("message", JsonValue::String(message)),
    ];
    proof {
        lemma_object_members(inner);
        assert(members_view(inner@) =~= seq![
            ("code"@, Json::Number(code@)),
            ("message"@, Json::Str(message@)),
        ]);
    }
    let fields = vec![
        JsonValue::member("error", JsonValue::Object(inner)),
        JsonValue::member("id", id),
        JsonValue::member("jsonrpc", JsonValue::text("2.0")),
    ];
    proof {
        lemma_object_members(fields);
        assert(members_view(fields@) =~= seq![
            ("error"@, fields@[0].1@),
            ("id"@, id@),
            ("jsonrpc"@, Json::Str("2.0"@)),
        ]);
    }
    JsonValue::Object(fields)
}

/// The reply to a successful `execute_intent`.
pub fn success_reply(nix_file: String, content: String, id: JsonValue) -> (res: JsonValue)
    ensures
        res@ == success_response(nix_file@, content@, id@),
{
    let inner = vec![
        JsonValue::member("content", JsonValue::String(content)),
        JsonValue::member("nix_file", JsonValue::String(nix_file)),
        JsonValue::member("status", JsonValue::text("success")),
    ];
    proof {
        lemma_object_members(inner);
        assert(members_view(inner@) =~= seq![
            ("content"@, Json::Str(content@)),
            ("nix_file"@, Json::Str(nix_file@)),
            ("status"@, Json::Str("success"@)),
        ]);
    }
    let fields = vec![
        JsonValue::member("id", id),
        JsonValue::member("jsonrpc", JsonValue::text("2.0")),
        JsonValue::member("result", JsonValue::Object(inner)),
    ];
    proof {
        lemma_object_members(fields);
        assert(members_view(fields@) =~= seq![
            ("id"@, id@),
            ("jsonrpc"@, Json::Str("2.0"@)),
            ("result"@, fields@[2].1@),
        ]);
    }
    JsonValue::Object(fields)
}

/// Ends a request with a reply, which a notification does not get.
fn finish(reply: bool, response: JsonValue) -> (res: Step)
    ensures
        finishes_with(res, sent(reply, response@)),
{
    if reply {
        Step::Done(Some(response))
    } else {
        Step::Done(None)
    }
}

/// Ends a request with an error reply.
fn fail(p: Pending, code: &str, message: String) -> (res: Step)
    ensures
        finishes_with(res, sent(p.reply, error_response(code@, message@, p.id@))),
        keeps_call(res, p.reply, p.id@),
{
    proof {
        lemma_error_response_answers(code@, message@, p.id@);
    }
    let r = error_reply(code, message, p.id);
    finish(p.reply, r)
}

/// The reply to a message that is not a valid request: a parse error that
/// echoes the message's `id` member when the message is a JSON object that
/// has one, and `null` otherwise.
pub fn parse_error_reply(message: Option<JsonValue>) -> (res: JsonValue)
    ensures
        res@ == error_response(
            parse_error_code(),
            "Parse error"@,
            match message {
                Some(m) => match get_key(m@, "id"@) {
                    Some(id) => id,
                    None => Json::Null,
                },
                None => Json::Null,
            },
        ),
{
    let id = match message {
        Some(m) => match m.take_key("id") {
            Some(id) => id,
            None => JsonValue::Null,
        },
        None => JsonValue::Null,
    };
    error_reply("-32700", String::from_str("Parse error"), id)
}

/// The first decision on a request. Only `execute_intent` is known; it needs
/// a non-empty `prompt` parameter and a configured language model, and then
/// goes on to ask the model.
pub fn route_request(request: JsonRpcRequest, llm_available: bool) -> (res: Step)
    ensures
        ({
            let id = id_of(request.id);
            let reply = request.id is Some;
            if request.method@ != "execute_intent"@ {
                finishes_with(
                    res,
                    sent(reply, error_response(method_not_found_code(), "Method not found"@, id)),
                )
            } else if prompt_of(request.params).len() == 0 {
                finishes_with(
                    res,
                    sent(
                        reply,
                        error_response(invalid_params_code(), "Missing 'prompt' parameter"@, id),
                    ),
                )
            } else if !llm_available {
                finishes_with(
                    res,
                    sent(reply, error_response(server_error_code(), "LLM client not available"@, id)),
                )
            } else {
                res matches Step::Generate(p, prompt) && p.id@ == id && p.reply == reply
                    && prompt@ == prompt_of(request.params)
            }
        }),
        keeps_call(res, request.id is Some, id_of(request.id)),
{
    let reply = request.id.is_some();
    let id = match request.id {
        Some(v) => v,
        None => JsonValue::Null,
    };
    let p = Pending { id, reply, nix_content: String::new() };
    if !crate::text::str_eq(request.method.as_str(), "execute_intent") {
        return fail(p, "-32601", String::from_str("Method not found"));
    }
    let prompt = match &request.params {
        Some(params) => match params.get("prompt") {
            Some(v) => match v.as_str() {
                Some(s) => String::from_str(s),
                None => String::new(),
            },
            None => String::new(),
        },
        None => String::new(),
    };
    if prompt.as_str().is_empty() {
        return fail(p, "-32602", String::from_str("Missing 'prompt' parameter"));
    }
    if !llm_available {
        return fail(p, "-32000", String::from_str("LLM client not available"));
    }
    Step::Generate(p, prompt)
}

/// The decision once the model has answered or failed.
pub fn after_generate(p: Pending, answer: Result<String, LlmError>) -> (res: Step)
    ensures
        match answer {
            Err(e) => finishes_with(
                res,
                sent(
                    p.reply,
                    error_response(server_error_code(), "LLM error: "@ + llm_error_text(e), p.id@),
                ),
            ),
            Ok(text) => res matches Step::DecodePlan(q, t) && q == p && t@ == text@,
        },
        keeps_call(res, p.reply, p.id@),
{
    match answer {
        Err(e) => {
            let m = String::from_str("LLM error: ").concat(e.message().as_str());
            fail(p, "-32000", m)
        },
        Ok(text) => Step::DecodePlan(p, text),
    }
}

/// Whether `m` is the text of a [`ParseError`], as [`ParseError::message`]
/// gives it.
pub open spec fn parse_error_text(e: ParseError, m: Seq<char>) -> bool {
    match e {
        ParseError::Json(j) => exists|t: String|
            to_string_from_display_ensures::<serde_json::Error>(&j, t) && m == "JSON parse error: "@
                + t@,
        ParseError::EmptyPlan => m == "LLM returned empty plan: no packages or services"@,
    }
}

/// The decision once the model's answer has been decoded as a plan (or not):
/// an unusable plan ends the request, a usable one is rendered as a module
/// that is then to be stored.
pub fn after_decode(p: Pending, decoded: Result<NixPlan, serde_json::Error>) -> (res: Step)
    ensures
        match decoded {
            Err(j) => exists|m: Seq<char>|
                parse_error_text(ParseError::Json(j), m) && finishes_with(
                    res,
                    sent(
                        p.reply,
                        error_response(server_error_code(), "Failed to parse LLM output: "@ + m, p.id@),
                    ),
                ),
            Ok(plan) => if plan_is_empty(plan@) {
                finishes_with(
                    res,
                    sent(
                        p.reply,
                        error_response(
                            server_error_code(),
                            "Failed to parse LLM output: LLM returned empty plan: no packages or services"@,
                            p.id@,
                        ),
                    ),
                )
            } else {
                res matches Step::WriteModule(q) && q.id == p.id && q.reply == p.reply
                    && q.nix_content@ == nix_module(plan@)
            },
        },
        keeps_call(res, p.reply, p.id@),
{
    match parse_llm_output(decoded) {
        Err(e) => {
            let text = e.message();
            proof {
                assert(parse_error_text(e, text@));
                if !(decoded is Err) {
                    reveal_strlit("Failed to parse LLM output: ");
                    reveal_strlit("Failed to parse LLM output: LLM returned empty plan: no packages or services");
                    reveal_strlit("LLM returned empty plan: no packages or services");
                    assert("Failed to parse LLM output: "@ + text@
                        =~= "Failed to parse LLM output: LLM returned empty plan: no packages or services"@);
                }
            }
            let m = String::from_str("Failed to parse LLM output: ").concat(text.as_str());
            fail(p, "-32000", m)
        },
        Ok(plan) => {
            let content = generate_nix(&plan);
            Step::WriteModule(Pending { id: p.id, reply: p.reply, nix_content: content })
        },
    }
}

/// Whether `m` is the text of a [`ValidationError`], as
/// [`ValidationError::message`] gives it.
pub open spec fn validation_error_text(e: ValidationError, m: Seq<char>) -> bool {
    match e {
        ValidationError::Io(io) => exists|t: String|
            to_string_from_display_ensures::<std::io::Error>(&io, t) && m == "I/O error: "@ + t@,
        ValidationError::NixParse(s) => m == "Nix parse error: "@ + s@,
        ValidationError::NixNotFound => m == "nix-instantiate binary not found"@,
    }
}

/// The decision once the module has been stored and checked: a success reply
/// with the file's path and the module, or an error reply.
pub fn after_write(p: Pending, written: Result<String, ValidationError>) -> (res: Step)
    ensures
        match written {
            Ok(path) => finishes_with(
                res,
                sent(p.reply, success_response(path@, p.nix_content@, p.id@)),
            ),
            Err(e) => exists|m: Seq<char>|
                validation_error_text(e, m) && finishes_with(
                    res,
                    sent(
                        p.reply,
                        error_response(server_error_code(), "Nix generation error: "@ + m, p.id@),
                    ),
                ),
        },
        keeps_call(res, p.reply, p.id@),
{
    match written {
        Ok(path) => {
            proof {
                lemma_success_response_answers(path@, p.nix_content@, p.id@);
            }
            let r = success_reply(path, p.nix_content, p.id);
            finish(p.reply, r)
        },
        Err(e) => {
            let text = e.message();
            proof {
                assert(validation_error_text(e, text@));
            }
            let m = String::from_str("Nix generation error: ").concat(text.as_str());
            fail(p, "-32000", m)
        },
    }
}

/// What to do with one line read from a connection.
#[derive(Debug, PartialEq)]
pub enum LineAction {
    /// The peer closed the connection.
    Stop,
    /// A blank line: read the next one.
    Skip,
    /// A message to handle, without surrounding white space.
    Handle(String),
}

/// Decides on a line read from a connection: nothing read means the peer has
/// gone, a line of white space is passed over, and any other line is handled
/// with its surrounding white space removed.
pub fn classify_line(bytes_read: usize, line: &str) -> (res: LineAction)
    ensures
        bytes_read == 0 ==> res is Stop,
        bytes_read != 0 && is_blank(line@) ==> res is Skip,
        bytes_read != 0 && !is_blank(line@) ==> (res matches LineAction::Handle(t) && t@ == trim_of(
            line@,
        ) && t@.len() > 0),
{
    if bytes_read == 0 {
        return LineAction::Stop;
    }
    let t = trim(line);
    proof {
        lemma_trim_empty_iff_blank(line@);
    }
    if t.is_empty() {
        LineAction::Skip
    } else {
        LineAction::Handle(String::from_str(t))
    }
}

/// The prompt handed to the model is the `prompt` parameter's text, whole,
/// wherever that member stands among the parameters.
pub proof fn lemma_prompt_is_parameter(
    params: JsonValue,
    fields: Seq<(Seq<char>, Json)>,
    i: int,
    text: Seq<char>,
)
    requires
        params@ == Json::Object(fields),
        first_member(fields, "prompt"@, i),
        fields[i].1 == Json::Str(text),
    ensures
        prompt_of(Some(params)) == text,
{
    lemma_lookup_finds(fields, "prompt"@, i);
}

/// Without a `prompt` member, or without parameters, the prompt is empty.
pub proof fn lemma_prompt_absent(params: Option<JsonValue>, fields: Seq<(Seq<char>, Json)>)
    requires
        params matches Some(p) ==> p@ == Json::Object(fields),
        forall|j: int| 0 <= j < fields.len() ==> fields[j].0 != "prompt"@,
    ensures
        prompt_of(params).len() == 0,
{
    lemma_lookup_absent(fields, "prompt"@);
}

/// The member named `key` of a member that is itself an object.
pub open spec fn nested(v: Json, outer: Seq<char>, inner: Seq<char>) -> Option<Json> {
    match get_key(v, outer) {
        Some(x) => get_key(x, inner),
        None => None,
    }
}

/// A success reply carries the stored file's path and the module text
/// unchanged, whatever their length, with status `success`.
pub proof fn lemma_success_reply_carries(nix_file: Seq<char>, content: Seq<char>, id: Json)
    ensures
        nested(success_response(nix_file, content, id), "result"@, "content"@) == Some(Json::Str(content)),
        nested(success_response(nix_file, content, id), "result"@, "nix_file"@) == Some(
            Json::Str(nix_file),
        ),
        nested(success_response(nix_file, content, id), "result"@, "status"@) == Some(
            Json::Str("success"@),
        ),
{
    reveal_strlit("id");
    reveal_strlit("jsonrpc");
    reveal_strlit("result");
    reveal_strlit("content");
    reveal_strlit("nix_file");
    reveal_strlit("status");
    assert("id"@.len() == 2 && "jsonrpc"@.len() == 7 && "result"@.len() == 6);
    assert("content"@.len() == 7 && "nix_file"@.len() == 8 && "status"@.len() == 6);
    assert("content"@[0] != "nix_file"@[0] && "content"@[0] != "status"@[0] && "nix_file"@[0] != "status"@[0]);
    let inner = seq![
        ("content"@, Json::Str(content)),
        ("nix_file"@, Json::Str(nix_file)),
        ("status"@, Json::Str("success"@)),
    ];
    let outer = seq![("id"@, id), ("jsonrpc"@, Json::Str("2.0"@)), ("result"@, Json::Object(inner))];
    assert(success_response(nix_file, content, id) == Json::Object(outer));
    lemma_lookup_finds(outer, "result"@, 2);
    lemma_lookup_finds(inner, "content"@, 0);
    lemma_lookup_finds(inner, "nix_file"@, 1);
    lemma_lookup_finds(inner, "status"@, 2);
}

/// An error reply carries its code and its message unchanged.
pub proof fn lemma_error_reply_carries(code: Seq<char>, message: Seq<char>, id: Json)
    ensures
        nested(error_response(code, message, id), "error"@, "code"@) == Some(Json::Number(code)),
        nested(error_response(code, message, id), "error"@, "message"@) == Some(Json::Str(message)),
{
    reveal_strlit("error");
    reveal_strlit("code");
    reveal_strlit("message");
    assert("error"@.len() == 5 && "code"@.len() == 4 && "message"@.len() == 7);
    let inner = seq![("code"@, Json::Number(code)), ("message"@, Json::Str(message))];
    let outer = seq![("error"@, Json::Object(inner)), ("id"@, id), ("jsonrpc"@, Json::Str("2.0"@))];
    assert(error_response(code, message, id) == Json::Object(outer));
    lemma_lookup_finds(outer, "error"@, 0);
    lemma_lookup_finds(inner, "code"@, 0);
    lemma_lookup_finds(inner, "message"@, 1);
}

/// The JSON-RPC error codes used: parse error, method not found, invalid
/// parameters, and the server error for everything that fails later.
pub proof fn lemma_error_codes()
    ensures
        parse_error_code() == "-32700"@,
        method_not_found_code() == "-32601"@,
        invalid_params_code() == "-32602"@,
        server_error_code() == "-32000"@,
{
}

} // verus!
