//! The four operations on the server: what each asks of it, and what each
//! makes of its answer.

use vstd::prelude::*;
use serde_json::Value;
use crate::json::{JsonModel, json_model, json_parsed, json_text};
use crate::json::{parse, render, member, as_text, as_flag, duplicate, null_value, flag_value,
    text_value, object_value, array_value, no_members, with_member};
use crate::http::{HttpCall, CallModel, endpoint, endpoint_url, post_json, get_json};

verus! {

/// The operations that end in a request to the server.
#[derive(Clone, Copy, Debug, PartialEq, Eq, Structural)]
pub enum Kind {
    Chat,
    Generate,
    Embeddings,
    ListModels,
}

/// What is kept of a request while the server answers: the operation, and the
/// model that the answer falls back to.
#[derive(Debug)]
pub struct Pending {
    pub kind: Kind,
    pub model: String,
}

/// A fault that ends the invocation instead of giving a result.
#[derive(Clone, Copy, Debug, PartialEq, Eq, Structural)]
pub enum Fault {
    /// The request body could not be written as JSON.
    Encode,
    /// The server's answer was not JSON.
    Decode,
}

/// What the caller does next.
#[derive(Debug)]
pub enum Step {
    /// The result is known; nothing is sent.
    Reply(Value),
    /// Send the call, and hand the answer to `complete` with what is pending.
    Fetch(HttpCall, Pending),
    /// Drain the queue of inbound messages.
    Poll,
}

/// A `Step` as mathematics.
pub enum StepModel {
    Reply(JsonModel),
    Fetch(CallModel, Kind, Seq<char>),
    Poll,
}

impl View for Step {
    type V = StepModel;

    open spec fn view(&self) -> StepModel {
        match self {
            Step::Reply(v) => StepModel::Reply(json_model(*v)),
            Step::Fetch(call, pending) => StepModel::Fetch(call@, pending.kind, pending.model@),
            Step::Poll => StepModel::Poll,
        }
    }
}

/// The view of a step that may have failed.
pub open spec fn outcome(r: Result<Step, Fault>) -> Result<StepModel, Fault> {
    match r {
        Ok(s) => Ok(s@),
        Err(f) => Err(f),
    }
}

/// The result that reports a mistake in the request: one member, `error`.
pub open spec fn error_reply(message: Seq<char>) -> JsonModel {
    JsonModel::Object(JsonModel::no_members().insert("error"@, JsonModel::Str(message)))
}

/// The system prompt of a chat that brings none.
pub open spec fn default_system() -> Seq<char> {
    "You are a helpful assistant."@
}

/// One chat message.
pub open spec fn chat_message(role: Seq<char>, content: Seq<char>) -> JsonModel {
    JsonModel::Object(
        JsonModel::no_members().insert("role"@, JsonModel::Str(role)).insert(
            "content"@,
            JsonModel::Str(content),
        ),
    )
}

/// The two messages made from a prompt: the system's, then the user's.
pub open spec fn prompt_messages(system: Seq<char>, prompt: Seq<char>) -> JsonModel {
    JsonModel::Array(seq![chat_message("system"@, system), chat_message("user"@, prompt)])
}

/// The string member `key`, or the empty string.
pub open spec fn text_or_empty(v: JsonModel, key: Seq<char>) -> Seq<char> {
    match v.text_at(key) {
        Some(s) => s,
        None => Seq::empty(),
    }
}

/// The string member `key`, or `fallback`.
pub open spec fn text_or(v: JsonModel, key: Seq<char>, fallback: Seq<char>) -> Seq<char> {
    match v.text_at(key) {
        Some(s) => s,
        None => fallback,
    }
}

/// The messages of a chat request: `messages` as it stands where the request
/// has that member, else two messages made from a non-empty `prompt`, else
/// none.
pub open spec fn chat_messages(input: JsonModel) -> Option<JsonModel> {
    match input.get("messages"@) {
        Some(m) => Some(m),
        None => if text_or_empty(input, "prompt"@).len() > 0 {
            Some(
                prompt_messages(
                    text_or(input, "system"@, default_system()),
                    text_or_empty(input, "prompt"@),
                ),
            )
        } else {
            None
        },
    }
}

/// The body of a chat request.
pub open spec fn chat_body(model: Seq<char>, messages: JsonModel) -> JsonModel {
    JsonModel::Object(
        JsonModel::no_members().insert("model"@, JsonModel::Str(model)).insert(
            "messages"@,
            messages,
        ).insert("stream"@, JsonModel::Bool(false)),
    )
}

/// The body of a generate request.
pub open spec fn generate_body(model: Seq<char>, prompt: Seq<char>) -> JsonModel {
    JsonModel::Object(
        JsonModel::no_members().insert("model"@, JsonModel::Str(model)).insert(
            "prompt"@,
            JsonModel::Str(prompt),
        ).insert("stream"@, JsonModel::Bool(false)),
    )
}

/// The body of an embeddings request.
pub open spec fn embeddings_body(model: Seq<char>, text: Seq<char>) -> JsonModel {
    JsonModel::Object(
        JsonModel::no_members().insert("model"@, JsonModel::Str(model)).insert(
            "input"@,
            JsonModel::Str(text),
        ),
    )
}

/// A `POST` of `text` where the body could be written, the fault where not.
pub open spec fn post_outcome(
    url: Seq<char>,
    kind: Kind,
    model: Seq<char>,
    text: Option<Seq<char>>,
) -> Result<StepModel, Fault> {
    match text {
        Some(t) => Ok(StepModel::Fetch(post_json(url, t), kind, model)),
        None => Err(Fault::Encode),
    }
}

/// What a chat request leads to.
pub open spec fn chat_plan(base_url: Seq<char>, model: Seq<char>, input: JsonModel) -> Result<
    StepModel,
    Fault,
> {
    match chat_messages(input) {
        None => Ok(StepModel::Reply(error_reply("prompt or messages required"@))),
        Some(messages) => post_outcome(
            endpoint(base_url, "/api/chat"@),
            Kind::Chat,
            text_or(input, "model"@, model),
            json_text(chat_body(text_or(input, "model"@, model), messages)),
        ),
    }
}

/// What a generate request leads to.
pub open spec fn generate_plan(base_url: Seq<char>, model: Seq<char>, input: JsonModel) -> Result<
    StepModel,
    Fault,
> {
    if text_or_empty(input, "prompt"@).len() == 0 {
        Ok(StepModel::Reply(error_reply("prompt is required"@)))
    } else {
        post_outcome(
            endpoint(base_url, "/api/generate"@),
            Kind::Generate,
            text_or(input, "model"@, model),
            json_text(
                generate_body(text_or(input, "model"@, model), text_or_empty(input, "prompt"@)),
            ),
        )
    }
}

/// What an embeddings request leads to.
pub open spec fn embeddings_plan(
    base_url: Seq<char>,
    model: Seq<char>,
    input: JsonModel,
) -> Result<StepModel, Fault> {
    if text_or_empty(input, "text"@).len() == 0 {
        Ok(StepModel::Reply(error_reply("text is required"@)))
    } else {
        post_outcome(
            endpoint(base_url, "/api/embed"@),
            Kind::Embeddings,
            model,
            json_text(embeddings_body(model, text_or_empty(input, "text"@))),
        )
    }
}

/// What a request for the list of models leads to.
pub open spec fn list_models_plan(base_url: Seq<char>) -> StepModel {
    StepModel::Fetch(get_json(endpoint(base_url, "/api/tags"@)), Kind::ListModels, Seq::empty())
}

/// The text that the server's chat answer holds under `message`, `content`.
pub open spec fn chat_content(data: JsonModel) -> Seq<char> {
    match data.get("message"@) {
        Some(m) => text_or_empty(m, "content"@),
        None => Seq::empty(),
    }
}

/// The boolean member `done`, or `true`.
pub open spec fn done_or_true(data: JsonModel) -> bool {
    match data.flag_at("done"@) {
        Some(b) => b,
        None => true,
    }
}

/// The result of a chat.
pub open spec fn chat_result(model: Seq<char>, data: JsonModel) -> JsonModel {
    JsonModel::Object(
        JsonModel::no_members().insert("content"@, JsonModel::Str(chat_content(data))).insert(
            "model"@,
            JsonModel::Str(text_or(data, "model"@, model)),
        ).insert("done"@, JsonModel::Bool(done_or_true(data))).insert(
            "total_duration"@,
            data.get_or_null("total_duration"@),
        ).insert("eval_count"@, data.get_or_null("eval_count"@)),
    )
}

/// The result of a generate.
pub open spec fn generate_result(model: Seq<char>, data: JsonModel) -> JsonModel {
    JsonModel::Object(
        JsonModel::no_members().insert(
            "response"@,
            JsonModel::Str(text_or_empty(data, "response"@)),
        ).insert("model"@, JsonModel::Str(text_or(data, "model"@, model))).insert(
            "done"@,
            JsonModel::Bool(done_or_true(data)),
        ),
    )
}

/// The result of an embeddings request.
pub open spec fn embeddings_result(model: Seq<char>, data: JsonModel) -> JsonModel {
    JsonModel::Object(
        JsonModel::no_members().insert("embeddings"@, data.get_or_null("embeddings"@)).insert(
            "model"@,
            JsonModel::Str(text_or(data, "model"@, model)),
        ),
    )
}

/// The result that an operation makes of the server's answer.
pub open spec fn normalized(kind: Kind, model: Seq<char>, data: JsonModel) -> JsonModel {
    match kind {
        Kind::Chat => chat_result(model, data),
        Kind::Generate => generate_result(model, data),
        Kind::Embeddings => embeddings_result(model, data),
        Kind::ListModels => data,
    }
}

/// The string member `key` of `v`, where it has one.
pub fn text_member<'a>(v: &'a Value, key: &str) -> (r: Option<&'a str>)
    ensures
        match r {
            Some(s) => json_model(*v).text_at(key@) == Some(s@),
            None => json_model(*v).text_at(key@) is None,
        },
{
    match member(v, key) {
        Some(x) => as_text(x),
        None => None,
    }
}

/// The string member `key` of `v`, or `fallback`.
pub fn text_member_or<'a>(v: &'a Value, key: &str, fallback: &'a str) -> (r: &'a str)
    ensures
        r@ == text_or(json_model(*v), key@, fallback@),
{
    match text_member(v, key) {
        Some(s) => s,
        None => fallback,
    }
}

/// The string member `key` of `v`, or the empty string.
pub fn text_member_or_empty<'a>(v: &'a Value, key: &str) -> (r: &'a str)
    ensures
        r@ == text_or_empty(json_model(*v), key@),
{
    match text_member(v, key) {
        Some(s) => s,
        None => {
            proof {
                reveal_strlit("");
                assert(""@ =~= Seq::<char>::empty());
            }
            ""
        },
    }
}

/// A copy of the member `key` of `v`, or JSON `null`.
pub fn member_or_null(v: &Value, key: &str) -> (r: Value)
    ensures
        json_model(r) == json_model(*v).get_or_null(key@),
{
    match member(v, key) {
        Some(x) => duplicate(x),
        None => null_value(),
    }
}

/// The result that reports `message` as an error.
pub fn error_value(message: &str) -> (r: Value)
    ensures
        json_model(r) == error_reply(message@),
{
    object_value(with_member(no_members(), "error", text_value(message)))
}

/// The step after the body of a `POST` was written: the call, or the fault
/// where there is no text.
pub fn post_step(url: String, pending: Pending, text: Option<String>) -> (r: Result<Step, Fault>)
    ensures
        outcome(r) == post_outcome(
            url@,
            pending.kind,
            pending.model@,
            match text {
                Some(t) => Some(t@),
                None => None,
            },
        ),
{
    match text {
        Some(t) => Ok(Step::Fetch(HttpCall::post(url, t), pending)),
        None => Err(Fault::Encode),
    }
}

/// Writes `body` as JSON text and makes the `POST` that carries it.
fn post_body(url: String, pending: Pending, body: &Value) -> (r: Result<Step, Fault>)
    ensures
        outcome(r) == post_outcome(
            url@,
            pending.kind,
            pending.model@,
            json_text(json_model(*body)),
        ),
{
    let text = match render(body) {
        Ok(t) => Some(t),
        Err(_) => None,
    };
    post_step(url, pending, text)
}

/// The two messages made from a prompt.
fn prompt_messages_value(system: &str, prompt: &str) -> (r: Value)
    ensures
        json_model(r) == prompt_messages(system@, prompt@),
{
    let first = object_value(
        with_member(
            with_member(no_members(), "role", text_value("system")),
            "content",
            text_value(system),
        ),
    );
    let second = object_value(
        with_member(
            with_member(no_members(), "role", text_value("user")),
            "content",
            text_value(prompt),
        ),
    );
    let mut items: Vec<Value> = Vec::new();
    items.push(first);
    items.push(second);
    proof {
        assert(items@.map_values(|v: Value| json_model(v)) =~= seq![
            chat_message("system"@, system@),
            chat_message("user"@, prompt@),
        ]);
    }
    array_value(items)
}

/// Chat: answers with the request for `/api/chat`, or with the error result
/// where the request brings neither `messages` nor a non-empty `prompt`.
///
/// `messages` goes before `prompt`; the request's `model` goes before the
/// configured one.
pub fn chat(base_url: &str, model: &str, input: &Value) -> (r: Result<Step, Fault>)
    ensures
        outcome(r) == chat_plan(base_url@, model@, json_model(*input)),
{
    let messages = match member(input, "messages") {
        Some(m) => duplicate(m),
        None => {
            let prompt = text_member_or_empty(input, "prompt");
            if prompt.is_empty() {
                return Ok(Step::Reply(error_value("prompt or messages required")));
            }
            let system = text_member_or(input, "system", "You are a helpful assistant.");
            prompt_messages_value(system, prompt)
        },
    };
    let use_model = text_member_or(input, "model", model);
    let body = object_value(
        with_member(
            with_member(with_member(no_members(), "model", text_value(use_model)), "messages", messages),
            "stream",
            flag_value(false),
        ),
    );
    let pending = Pending { kind: Kind::Chat, model: String::from_str(use_model) };
    post_body(endpoint_url(base_url, "/api/chat"), pending, &body)
}

/// Generate: answers with the request for `/api/generate`, or with the error
/// result where the request brings no non-empty `prompt`.
pub fn generate(base_url: &str, model: &str, input: &Value) -> (r: Result<Step, Fault>)
    ensures
        outcome(r) == generate_plan(base_url@, model@, json_model(*input)),
{
    let prompt = text_member_or_empty(input, "prompt");
    if prompt.is_empty() {
        return Ok(Step::Reply(error_value("prompt is required")));
    }
    let use_model = text_member_or(input, "model", model);
    let body = object_value(
        with_member(
            with_member(
                with_member(no_members(), "model", text_value(use_model)),
                "prompt",
                text_value(prompt),
            ),
            "stream",
            flag_value(false),
        ),
    );
    let pending = Pending { kind: Kind::Generate, model: String::from_str(use_model) };
    post_body(endpoint_url(base_url, "/api/generate"), pending, &body)
}

/// Embeddings: answers with the request for `/api/embed`, or with the error
/// result where the request brings no non-empty `text`. The model is always
/// the configured one.
pub fn embeddings(base_url: &str, model: &str, input: &Value) -> (r: Result<Step, Fault>)
    ensures
        outcome(r) == embeddings_plan(base_url@, model@, json_model(*input)),
{
    let text = text_member_or_empty(input, "text");
    if text.is_empty() {
        return Ok(Step::Reply(error_value("text is required")));
    }
    let body = object_value(
        with_member(
            with_member(no_members(), "model", text_value(model)),
            "input",
            text_value(text),
        ),
    );
    let pending = Pending { kind: Kind::Embeddings, model: String::from_str(model) };
    post_body(endpoint_url(base_url, "/api/embed"), pending, &body)
}

/// List-models: answers with the request for `/api/tags`.
pub fn list_models(base_url: &str) -> (r: Step)
    ensures
        r@ == list_models_plan(base_url@),
{
    let pending = Pending { kind: Kind::ListModels, model: String::new() };
    Step::Fetch(HttpCall::get(endpoint_url(base_url, "/api/tags")), pending)
}

/// The boolean member `done` of the server's answer, or `true`.
fn done_member(data: &Value) -> (r: bool)
    ensures
        r == done_or_true(json_model(*data)),
{
    match member(data, "done") {
        Some(x) => match as_flag(x) {
            Some(b) => b,
            None => true,
        },
        None => true,
    }
}

/// The text under `message`, `content` of the server's chat answer.
fn content_member<'a>(data: &'a Value) -> (r: &'a str)
    ensures
        r@ == chat_content(json_model(*data)),
{
    match member(data, "message") {
        Some(m) => text_member_or_empty(m, "content"),
        None => {
            proof {
                reveal_strlit("");
                assert(""@ =~= Seq::<char>::empty());
            }
            ""
        },
    }
}

/// Brings the server's answer into the result of the pending operation.
///
/// A member that the answer lacks, or holds with another type, gets its
/// default: the empty string, the pending model, `true`, or `null`. The list
/// of models is the answer itself.
pub fn normalize(pending: &Pending, data: &Value) -> (r: Value)
    ensures
        json_model(r) == normalized(pending.kind, pending.model@, json_model(*data)),
{
    let model = text_member_or(data, "model", pending.model.as_str());
    match pending.kind {
        Kind::Chat => object_value(
            with_member(
                with_member(
                    with_member(
                        with_member(
                            with_member(no_members(), "content", text_value(content_member(data))),
                            "model",
                            text_value(model),
                        ),
                        "done",
                        flag_value(done_member(data)),
                    ),
                    "total_duration",
                    member_or_null(data, "total_duration"),
                ),
                "eval_count",
                member_or_null(data, "eval_count"),
            ),
        ),
        Kind::Generate => object_value(
            with_member(
                with_member(
                    with_member(
                        no_members(),
                        "response",
                        text_value(text_member_or_empty(data, "response")),
                    ),
                    "model",
                    text_value(model),
                ),
                "done",
                flag_value(done_member(data)),
            ),
        ),
        Kind::Embeddings => object_value(
            with_member(
                with_member(no_members(), "embeddings", member_or_null(data, "embeddings")),
                "model",
                text_value(model),
            ),
        ),
        Kind::ListModels => duplicate(data),
    }
}

/// The result for the body of the server's answer, where it reads as JSON.
pub open spec fn completed(kind: Kind, model: Seq<char>, body: Seq<u8>) -> Result<
    JsonModel,
    Fault,
> {
    match json_parsed(body) {
        Some(data) => Ok(normalized(kind, model, data)),
        None => Err(Fault::Decode),
    }
}

/// Reads the body of the server's answer and brings it into the result of the
/// pending operation; a body that is not JSON is a fault.
pub fn complete(pending: &Pending, body: &[u8]) -> (r: Result<Value, Fault>)
    ensures
        match r {
            Ok(v) => completed(pending.kind, pending.model@, body@) == Ok::<JsonModel, Fault>(
                json_model(v),
            ),
            Err(f) => completed(pending.kind, pending.model@, body@) == Err::<JsonModel, Fault>(f),
        },
{
    match parse(body) {
        Ok(data) => Ok(normalize(pending, &data)),
        Err(_) => Err(Fault::Decode),
    }
}

/// The names of the members that requests and results are read by are all
/// different from one another, as far as one object holds them together.
pub proof fn lemma_member_names()
    ensures
        "content"@ != "model"@,
        "content"@ != "done"@,
        "content"@ != "total_duration"@,
        "content"@ != "eval_count"@,
        "model"@ != "done"@,
        "model"@ != "total_duration"@,
        "model"@ != "eval_count"@,
        "done"@ != "total_duration"@,
        "done"@ != "eval_count"@,
        "total_duration"@ != "eval_count"@,
        "response"@ != "model"@,
        "response"@ != "done"@,
        "action"@ != "messages"@,
        "action"@ != "prompt"@,
        "action"@ != "system"@,
        "action"@ != "model"@,
        "prompt"@ != "messages"@,
        "prompt"@ != "system"@,
        "prompt"@ != "model"@,
{
    reveal_strlit("content");
    reveal_strlit("model");
    reveal_strlit("done");
    reveal_strlit("total_duration");
    reveal_strlit("eval_count");
    reveal_strlit("response");
    reveal_strlit("action");
    reveal_strlit("messages");
    reveal_strlit("prompt");
    reveal_strlit("system");
    assert("content"@.len() == 7);
    assert("model"@.len() == 5);
    assert("done"@.len() == 4);
    assert("total_duration"@.len() == 14);
    assert("eval_count"@.len() == 10);
    assert("response"@.len() == 8);
    assert("messages"@.len() == 8);
    assert("action"@.len() == 6 && "action"@[0] == 'a');
    assert("prompt"@.len() == 6 && "prompt"@[0] == 'p');
    assert("system"@.len() == 6 && "system"@[0] == 's');
}

} // verus!
