use ollama_agent::dispatch::{process, Action, Config};
use ollama_agent::http::{endpoint_url, HttpCall, Method};
use ollama_agent::ops::{
    chat, complete, embeddings, error_value, generate, list_models, member_or_null, normalize,
    post_step, text_member, text_member_or, text_member_or_empty, Fault, Kind, Pending, Step,
};
use serde_json::Value;

fn json(text: &str) -> Value {
    serde_json::from_str(text).unwrap()
}

fn config() -> Config {
    Config {
        base_url: String::from("http://localhost:11434"),
        default_model: String::from("llama3.2"),
    }
}

fn fetch(step: Result<Step, Fault>) -> (HttpCall, Pending) {
    match step {
        Ok(Step::Fetch(call, pending)) => (call, pending),
        other => panic!("expected a request, got {:?}", other),
    }
}

fn reply(step: Result<Step, Fault>) -> Value {
    match step {
        Ok(Step::Reply(v)) => v,
        other => panic!("expected a result, got {:?}", other),
    }
}

fn body_of(call: &HttpCall) -> Value {
    json(call.body.as_ref().unwrap())
}

#[test]
fn absent_action_behaves_as_chat() {
    let without = json(r#"{"prompt": "Hi", "model": "m1"}"#);
    let with = json(r#"{"action": "chat", "prompt": "Hi", "model": "m1"}"#);
    let (a, pa) = fetch(process(&without, &config()));
    let (b, pb) = fetch(process(&with, &config()));
    assert_eq!(a.method, b.method);
    assert_eq!(a.url, b.url);
    assert_eq!(a.url, "http://localhost:11434/api/chat");
    assert_eq!(a.header_name, b.header_name);
    assert_eq!(a.header_value, b.header_value);
    assert_eq!(a.body, b.body);
    assert_eq!(pa.kind, pb.kind);
    assert_eq!(pa.kind, Kind::Chat);
    assert_eq!(pa.model, pb.model);
}

#[test]
fn absent_action_without_input_gives_the_chat_error() {
    let out = reply(process(&json("{}"), &config()));
    assert_eq!(out, json(r#"{"error": "prompt or messages required"}"#));
}

#[test]
fn action_that_is_no_string_is_a_chat() {
    let (call, pending) = fetch(process(&json(r#"{"action": 7, "prompt": "Hi"}"#), &config()));
    assert_eq!(call.url, "http://localhost:11434/api/chat");
    assert_eq!(pending.kind, Kind::Chat);
}

#[test]
fn unknown_action_is_echoed() {
    let out = reply(process(&json(r#"{"action": "dance"}"#), &config()));
    assert_eq!(out, json(r#"{"error": "unknown action: dance"}"#));
    let out = reply(process(&json(r#"{"action": ""}"#), &config()));
    assert_eq!(out, json(r#"{"error": "unknown action: "}"#));
    let out = reply(process(&json(r#"{"action": "Chat"}"#), &config()));
    assert_eq!(out, json(r#"{"error": "unknown action: Chat"}"#));
}

#[test]
fn action_names_are_parsed() {
    assert_eq!(Action::parse("chat"), Action::Chat);
    assert_eq!(Action::parse("generate"), Action::Generate);
    assert_eq!(Action::parse("embeddings"), Action::Embeddings);
    assert_eq!(Action::parse("list_models"), Action::ListModels);
    assert_eq!(Action::parse("poll"), Action::Poll);
    assert_eq!(Action::parse("polls"), Action::Unknown);
    assert_eq!(Action::parse(""), Action::Unknown);
}

#[test]
fn process_routes_each_action() {
    let (call, pending) =
        fetch(process(&json(r#"{"action": "generate", "prompt": "x"}"#), &config()));
    assert_eq!(call.url, "http://localhost:11434/api/generate");
    assert_eq!(pending.kind, Kind::Generate);
    let (call, pending) =
        fetch(process(&json(r#"{"action": "embeddings", "text": "x"}"#), &config()));
    assert_eq!(call.url, "http://localhost:11434/api/embed");
    assert_eq!(pending.kind, Kind::Embeddings);
    let (call, pending) = fetch(process(&json(r#"{"action": "list_models"}"#), &config()));
    assert_eq!(call.url, "http://localhost:11434/api/tags");
    assert_eq!(pending.kind, Kind::ListModels);
    assert!(matches!(process(&json(r#"{"action": "poll"}"#), &config()), Ok(Step::Poll)));
}

#[test]
fn chat_prompt_alone_synthesizes_two_messages() {
    let (call, pending) = fetch(chat("http://h:1", "llama3.2", &json(r#"{"prompt": "Hi"}"#)));
    assert_eq!(call.method, Method::Post);
    assert_eq!(call.url, "http://h:1/api/chat");
    assert_eq!(call.header_name, "Content-Type");
    assert_eq!(call.header_value, "application/json");
    assert_eq!(
        body_of(&call),
        json(
            r#"{"model": "llama3.2", "stream": false, "messages": [
                {"role": "system", "content": "You are a helpful assistant."},
                {"role": "user", "content": "Hi"}]}"#
        )
    );
    assert_eq!(pending.kind, Kind::Chat);
    assert_eq!(pending.model, "llama3.2");
}

#[test]
fn chat_takes_the_system_prompt_of_the_request() {
    let (call, _) =
        fetch(chat("http://h:1", "m", &json(r#"{"prompt": "Hi", "system": "Be brief."}"#)));
    assert_eq!(
        body_of(&call),
        json(
            r#"{"model": "m", "stream": false, "messages": [
                {"role": "system", "content": "Be brief."},
                {"role": "user", "content": "Hi"}]}"#
        )
    );
}

#[test]
fn chat_messages_go_before_prompt() {
    let input = json(
        r#"{"messages": [{"role": "user", "content": "from messages"}], "prompt": "ignored",
            "system": "ignored too"}"#,
    );
    let (call, _) = fetch(chat("http://h:1", "m", &input));
    assert_eq!(
        body_of(&call),
        json(
            r#"{"model": "m", "stream": false,
                "messages": [{"role": "user", "content": "from messages"}]}"#
        )
    );
}

#[test]
fn chat_model_of_the_request_goes_before_the_default() {
    let (call, pending) =
        fetch(chat("http://h:1", "llama3.2", &json(r#"{"prompt": "Hi", "model": "phi"}"#)));
    assert_eq!(body_of(&call)["model"], json(r#""phi""#));
    assert_eq!(pending.model, "phi");
}

#[test]
fn chat_without_input_is_an_error_result() {
    let expected = json(r#"{"error": "prompt or messages required"}"#);
    assert_eq!(reply(chat("http://h:1", "m", &json("{}"))), expected);
    assert_eq!(reply(chat("http://h:1", "m", &json(r#"{"prompt": ""}"#))), expected);
    assert_eq!(reply(chat("http://h:1", "m", &json(r#"{"prompt": 3}"#))), expected);
    assert_eq!(reply(chat("http://h:1", "m", &json("null"))), expected);
}

#[test]
fn generate_without_prompt_is_an_error_result() {
    let expected = json(r#"{"error": "prompt is required"}"#);
    assert_eq!(reply(generate("http://h:1", "m", &json("{}"))), expected);
    assert_eq!(reply(generate("http://h:1", "m", &json(r#"{"prompt": ""}"#))), expected);
    assert_eq!(
        reply(generate("http://h:1", "m", &json(r#"{"messages": [], "prompt": false}"#))),
        expected
    );
}

#[test]
fn generate_builds_its_request() {
    let (call, pending) =
        fetch(generate("http://h:1", "llama3.2", &json(r#"{"prompt": "Once", "model": "phi"}"#)));
    assert_eq!(call.method, Method::Post);
    assert_eq!(call.url, "http://h:1/api/generate");
    assert_eq!(call.header_name, "Content-Type");
    assert_eq!(call.header_value, "application/json");
    assert_eq!(body_of(&call), json(r#"{"model": "phi", "prompt": "Once", "stream": false}"#));
    assert_eq!(pending.kind, Kind::Generate);
    assert_eq!(pending.model, "phi");
}

#[test]
fn embeddings_with_empty_text_is_an_error_result() {
    let expected = json(r#"{"error": "text is required"}"#);
    assert_eq!(reply(embeddings("http://h:1", "m", &json(r#"{"text": ""}"#))), expected);
    assert_eq!(reply(embeddings("http://h:1", "m", &json("{}"))), expected);
}

#[test]
fn embeddings_always_uses_the_configured_model() {
    let (call, pending) =
        fetch(embeddings("http://h:1", "llama3.2", &json(r#"{"text": "abc", "model": "phi"}"#)));
    assert_eq!(call.method, Method::Post);
    assert_eq!(call.url, "http://h:1/api/embed");
    assert_eq!(body_of(&call), json(r#"{"model": "llama3.2", "input": "abc"}"#));
    assert_eq!(pending.kind, Kind::Embeddings);
    assert_eq!(pending.model, "llama3.2");
}

#[test]
fn list_models_is_a_get_without_body() {
    match list_models("http://h:1") {
        Step::Fetch(call, pending) => {
            assert_eq!(call.method, Method::Get);
            assert_eq!(call.url, "http://h:1/api/tags");
            assert_eq!(call.header_name, "Accept");
            assert_eq!(call.header_value, "application/json");
            assert_eq!(call.body, None);
            assert_eq!(pending.kind, Kind::ListModels);
        }
        other => panic!("expected a request, got {:?}", other),
    }
}

#[test]
fn chat_answer_is_normalized() {
    let pending = Pending { kind: Kind::Chat, model: String::from("asked") };
    let data = json(
        r#"{"message": {"role": "assistant", "content": "Hello!"}, "model": "served",
            "done": false, "total_duration": 1234, "eval_count": 5, "extra": 1}"#,
    );
    assert_eq!(
        normalize(&pending, &data),
        json(
            r#"{"content": "Hello!", "model": "served", "done": false,
                "total_duration": 1234, "eval_count": 5}"#
        )
    );
}

#[test]
fn chat_answer_falls_back() {
    let pending = Pending { kind: Kind::Chat, model: String::from("asked") };
    assert_eq!(
        normalize(&pending, &json("{}")),
        json(
            r#"{"content": "", "model": "asked", "done": true,
                "total_duration": null, "eval_count": null}"#
        )
    );
    let odd = json(r#"{"message": ["content"], "model": 3, "done": "no"}"#);
    assert_eq!(
        normalize(&pending, &odd),
        json(
            r#"{"content": "", "model": "asked", "done": true,
                "total_duration": null, "eval_count": null}"#
        )
    );
    let only_done = json(r#"{"message": {"content": "x"}, "model": "served"}"#);
    assert_eq!(normalize(&pending, &only_done)["done"], json("true"));
    let only_model = json(r#"{"message": {"content": "x"}, "done": false}"#);
    assert_eq!(normalize(&pending, &only_model)["model"], json(r#""asked""#));
    assert_eq!(normalize(&pending, &only_model)["done"], json("false"));
}

#[test]
fn generate_answer_is_normalized() {
    let pending = Pending { kind: Kind::Generate, model: String::from("asked") };
    assert_eq!(
        normalize(&pending, &json(r#"{"response": "text", "model": "served", "done": false}"#)),
        json(r#"{"response": "text", "model": "served", "done": false}"#)
    );
    assert_eq!(
        normalize(&pending, &json(r#"{"total_duration": 4}"#)),
        json(r#"{"response": "", "model": "asked", "done": true}"#)
    );
}

#[test]
fn embeddings_answer_is_normalized() {
    let pending = Pending { kind: Kind::Embeddings, model: String::from("asked") };
    assert_eq!(
        normalize(&pending, &json(r#"{"embeddings": [[1, 2], [3]], "model": "served"}"#)),
        json(r#"{"embeddings": [[1, 2], [3]], "model": "served"}"#)
    );
    assert_eq!(
        normalize(&pending, &json("{}")),
        json(r#"{"embeddings": null, "model": "asked"}"#)
    );
}

#[test]
fn list_of_models_is_passed_through() {
    let pending = Pending { kind: Kind::ListModels, model: String::new() };
    let raw = r#"{"models": [{"name": "llama3.2", "size": 2019393189}], "n": [1, "a", null]}"#;
    assert_eq!(normalize(&pending, &json(raw)), json(raw));
    assert_eq!(complete(&pending, raw.as_bytes()), Ok(json(raw)));
    assert_eq!(complete(&pending, b"[1, 2]"), Ok(json("[1, 2]")));
}

#[test]
fn complete_reads_the_body() {
    let pending = Pending { kind: Kind::Chat, model: String::from("asked") };
    let out = complete(&pending, br#"{"message": {"content": "Hi there"}, "eval_count": 9}"#);
    assert_eq!(
        out,
        Ok(json(
            r#"{"content": "Hi there", "model": "asked", "done": true,
                "total_duration": null, "eval_count": 9}"#
        ))
    );
}

#[test]
fn body_that_is_no_json_is_a_decode_fault() {
    let pending = Pending { kind: Kind::Chat, model: String::from("asked") };
    assert_eq!(complete(&pending, b"<html>"), Err(Fault::Decode));
    assert_eq!(complete(&pending, b""), Err(Fault::Decode));
}

#[test]
fn missing_body_text_is_an_encode_fault() {
    let pending = Pending { kind: Kind::Generate, model: String::from("m") };
    assert!(matches!(post_step(String::from("http://h/api/generate"), pending, None), Err(Fault::Encode)));
    let pending = Pending { kind: Kind::Generate, model: String::from("m") };
    let (call, pending) =
        fetch(post_step(String::from("http://h/api/generate"), pending, Some(String::from("{}"))));
    assert_eq!(call.method, Method::Post);
    assert_eq!(call.url, "http://h/api/generate");
    assert_eq!(call.body, Some(String::from("{}")));
    assert_eq!(pending.model, "m");
}

#[test]
fn members_are_read_with_their_defaults() {
    let v = json(r#"{"a": "x", "b": 1, "c": {"d": true}}"#);
    assert_eq!(text_member(&v, "a"), Some("x"));
    assert_eq!(text_member(&v, "b"), None);
    assert_eq!(text_member(&v, "z"), None);
    assert_eq!(text_member_or(&v, "a", "f"), "x");
    assert_eq!(text_member_or(&v, "b", "f"), "f");
    assert_eq!(text_member_or_empty(&v, "z"), "");
    assert_eq!(member_or_null(&v, "c"), json(r#"{"d": true}"#));
    assert_eq!(member_or_null(&v, "z"), Value::Null);
    assert_eq!(text_member(&json("[1]"), "a"), None);
}

#[test]
fn error_value_has_one_member() {
    assert_eq!(error_value("boom"), json(r#"{"error": "boom"}"#));
}

#[test]
fn endpoint_is_base_then_path() {
    assert_eq!(endpoint_url("http://localhost:11434", "/api/chat"), "http://localhost:11434/api/chat");
    assert_eq!(endpoint_url("", "/api/tags"), "/api/tags");
}

#[test]
fn config_falls_back_to_the_defaults() {
    let c = Config::resolve(&json("{}"));
    assert_eq!(c.base_url, "http://localhost:11434");
    assert_eq!(c.default_model, "llama3.2");
    let c = Config::resolve(&Value::Null);
    assert_eq!(c.base_url, "http://localhost:11434");
    assert_eq!(c.default_model, "llama3.2");
    let c = Config::resolve(&json(r#"{"ollama_url": "http://box:9", "model": 5}"#));
    assert_eq!(c.base_url, "http://box:9");
    assert_eq!(c.default_model, "llama3.2");
    let c = Config::resolve(&json(r#"{"model": "phi"}"#));
    assert_eq!(c.base_url, "http://localhost:11434");
    assert_eq!(c.default_model, "phi");
}

#[test]
fn configured_values_reach_the_request() {
    let c = Config { base_url: String::from("http://box:9"), default_model: String::from("phi") };
    let (call, pending) = fetch(process(&json(r#"{"prompt": "Hi"}"#), &c));
    assert_eq!(call.url, "http://box:9/api/chat");
    assert_eq!(body_of(&call)["model"], json(r#""phi""#));
    assert_eq!(pending.model, "phi");
}
