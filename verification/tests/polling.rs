use ollama_agent::http::Method;
use ollama_agent::ops::Kind;
use ollama_agent::poll::{
    ask, poll_messages, summary_value, PollRun, PollStep, Relay, POLL_BATCH,
};
use serde_json::Value;

fn json(text: &str) -> Value {
    serde_json::from_str(text).unwrap()
}

/// Runs a poll to its end; `answer` stands for the server, and what it
/// gives for a prompt is the body of the reply, or `None` for a failed call.
fn run(messages: Vec<Value>, answer: fn(&str) -> Option<Vec<u8>>) -> (Value, Vec<(String, Value)>) {
    let mut poll = PollRun::new(messages, "http://h:1", "llama3.2");
    let mut sent: Vec<(String, Value)> = Vec::new();
    loop {
        match poll.advance() {
            PollStep::Ask { from, call, pending } => {
                assert_eq!(call.method, Method::Post);
                assert_eq!(call.url, "http://h:1/api/chat");
                assert_eq!(pending.kind, Kind::Chat);
                let body: Value = serde_json::from_str(call.body.as_ref().unwrap()).unwrap();
                let prompt = body["messages"][1]["content"].as_str().unwrap().to_string();
                let reply = answer(&prompt);
                if let Some(relay) = poll.settle(from, reply.as_deref()) {
                    sent.push((relay.from.clone(), relay.payload()));
                }
            }
            PollStep::Finished(summary) => return (summary, sent),
        }
    }
}

fn echo_unless_bad(prompt: &str) -> Option<Vec<u8>> {
    if prompt == "bad" {
        None
    } else {
        let mut content = String::from("re: ");
        content.push_str(prompt);
        let mut message = serde_json::Map::new();
        message.insert(String::from("content"), Value::String(content));
        let mut data = serde_json::Map::new();
        data.insert(String::from("message"), Value::Object(message));
        Some(serde_json::to_vec(&Value::Object(data)).unwrap())
    }
}

fn garbage(_prompt: &str) -> Option<Vec<u8>> {
    Some(b"not json".to_vec())
}

#[test]
fn poll_counts_only_the_message_that_succeeded() {
    let messages = vec![
        json(r#"{"from": "a", "payload": {"prompt": ""}}"#),
        json(r#"{"from": "b", "payload": {"prompt": "bad"}}"#),
        json(r#"{"from": "c", "payload": {"prompt": "hello"}}"#),
    ];
    let (summary, sent) = run(messages, echo_unless_bad);
    assert_eq!(
        summary,
        json(r#"{"processed": 1, "results": [{"from": "c", "response": "re: hello"}]}"#)
    );
    assert_eq!(sent, vec![(String::from("c"), json(r#"{"response": "re: hello"}"#))]);
}

#[test]
fn poll_relays_once_per_answered_message_in_order() {
    let messages = vec![
        json(r#"{"from": "a", "payload": {"prompt": "one"}}"#),
        json(r#"{"payload": {"prompt": "two"}}"#),
        json(r#"{"from": "c", "payload": {"text": "no prompt"}}"#),
        json(r#"{"from": "d"}"#),
        json(r#"{"from": "e", "payload": {"prompt": "bad"}}"#),
        json(r#"{"from": 5, "payload": {"prompt": "three"}}"#),
    ];
    let (summary, sent) = run(messages, echo_unless_bad);
    assert_eq!(
        summary,
        json(
            r#"{"processed": 3, "results": [
                {"from": "a", "response": "re: one"},
                {"from": "unknown", "response": "re: two"},
                {"from": "unknown", "response": "re: three"}]}"#
        )
    );
    assert_eq!(
        sent,
        vec![
            (String::from("a"), json(r#"{"response": "re: one"}"#)),
            (String::from("unknown"), json(r#"{"response": "re: two"}"#)),
            (String::from("unknown"), json(r#"{"response": "re: three"}"#)),
        ]
    );
}

#[test]
fn poll_of_an_empty_batch_is_an_empty_summary() {
    let (summary, sent) = run(Vec::new(), echo_unless_bad);
    assert_eq!(summary, json(r#"{"processed": 0, "results": []}"#));
    assert!(sent.is_empty());
}

#[test]
fn poll_skips_replies_that_are_no_json() {
    let messages = vec![
        json(r#"{"from": "a", "payload": {"prompt": "one"}}"#),
        json(r#"{"from": "b", "payload": {"prompt": "two"}}"#),
    ];
    let (summary, sent) = run(messages, garbage);
    assert_eq!(summary, json(r#"{"processed": 0, "results": []}"#));
    assert!(sent.is_empty());
}

#[test]
fn answer_without_content_relays_the_empty_string() {
    let mut poll = PollRun::new(
        vec![json(r#"{"from": "a", "payload": {"prompt": "one"}}"#)],
        "http://h:1",
        "m",
    );
    let from = match poll.advance() {
        PollStep::Ask { from, .. } => from,
        other => panic!("expected a request, got {:?}", other),
    };
    let relay = poll.settle(from, Some(b"{}")).unwrap();
    assert_eq!(relay.from, "a");
    assert_eq!(relay.response, "");
    assert_eq!(poll.results().len(), 1);
    assert_eq!(poll.results()[0].from, "a");
    match poll.advance() {
        PollStep::Finished(summary) => assert_eq!(
            summary,
            json(r#"{"processed": 1, "results": [{"from": "a", "response": ""}]}"#)
        ),
        other => panic!("expected the summary, got {:?}", other),
    }
}

#[test]
fn failed_call_records_nothing() {
    let mut poll = PollRun::new(
        vec![json(r#"{"from": "a", "payload": {"prompt": "one"}}"#)],
        "http://h:1",
        "m",
    );
    let from = match poll.advance() {
        PollStep::Ask { from, .. } => from,
        other => panic!("expected a request, got {:?}", other),
    };
    assert!(poll.settle(from, None).is_none());
    assert!(poll.results().is_empty());
}

#[test]
fn ask_builds_the_chat_of_the_prompt() {
    let message = json(r#"{"from": "a", "payload": {"prompt": "Hi", "model": "other"}}"#);
    let (from, call, pending) = ask(&message, "http://h:1", "llama3.2").unwrap();
    assert_eq!(from, "a");
    assert_eq!(call.url, "http://h:1/api/chat");
    assert_eq!(pending.model, "llama3.2");
    let body: Value = serde_json::from_str(call.body.as_ref().unwrap()).unwrap();
    assert_eq!(
        body,
        json(
            r#"{"model": "llama3.2", "stream": false, "messages": [
                {"role": "system", "content": "You are a helpful assistant."},
                {"role": "user", "content": "Hi"}]}"#
        )
    );
    assert!(ask(&json(r#"{"from": "a", "payload": null}"#), "http://h:1", "m").is_none());
    assert!(ask(&json(r#"{"from": "a", "payload": {"prompt": 1}}"#), "http://h:1", "m").is_none());
}

#[test]
fn summary_lists_the_relays() {
    let relays = vec![
        Relay { from: String::from("a"), response: String::from("x") },
        Relay { from: String::from("b"), response: String::from("y") },
    ];
    assert_eq!(
        summary_value(&relays),
        json(
            r#"{"processed": 2, "results": [
                {"from": "a", "response": "x"}, {"from": "b", "response": "y"}]}"#
        )
    );
    assert_eq!(relays[0].payload(), json(r#"{"response": "x"}"#));
    assert_eq!(relays[1].entry(), json(r#"{"from": "b", "response": "y"}"#));
}

#[test]
fn one_poll_asks_for_ten_messages() {
    assert_eq!(POLL_BATCH, 10);
}

#[test]
fn poll_messages_counts_only_the_message_that_succeeded() {
    let messages = vec![
        json(r#"{"from": "a", "payload": {"prompt": ""}}"#),
        json(r#"{"from": "b", "payload": {"prompt": "bad"}}"#),
        json(r#"{"from": "c", "payload": {"prompt": "hello"}}"#),
    ];
    let replies = vec![
        Some(br#"{"message": {"content": "never asked"}}"#.to_vec()),
        None,
        Some(br#"{"message": {"content": "hi c"}}"#.to_vec()),
    ];
    assert_eq!(
        poll_messages(messages, &replies, "http://h:1", "llama3.2"),
        json(r#"{"processed": 1, "results": [{"from": "c", "response": "hi c"}]}"#)
    );
}

#[test]
fn poll_messages_takes_a_missing_reply_as_a_failed_call() {
    let messages = vec![
        json(r#"{"from": "a", "payload": {"prompt": "one"}}"#),
        json(r#"{"from": "b", "payload": {"prompt": "two"}}"#),
        json(r#"{"from": "c", "payload": {"prompt": "three"}}"#),
    ];
    let replies = vec![Some(br#"{"message": {"content": "1"}}"#.to_vec()), Some(b"oops".to_vec())];
    assert_eq!(
        poll_messages(messages, &replies, "http://h:1", "llama3.2"),
        json(r#"{"processed": 1, "results": [{"from": "a", "response": "1"}]}"#)
    );
    assert_eq!(
        poll_messages(Vec::new(), &replies, "http://h:1", "llama3.2"),
        json(r#"{"processed": 0, "results": []}"#)
    );
}

#[test]
fn looked_at_follows_the_batch() {
    let mut poll = PollRun::new(
        vec![
            json(r#"{"from": "a", "payload": {}}"#),
            json(r#"{"from": "b", "payload": {"prompt": "two"}}"#),
            json(r#"{"from": "c"}"#),
        ],
        "http://h:1",
        "m",
    );
    assert_eq!(poll.looked_at(), 0);
    assert!(matches!(poll.advance(), PollStep::Ask { .. }));
    assert_eq!(poll.looked_at(), 2);
    assert!(matches!(poll.advance(), PollStep::Finished(_)));
    assert_eq!(poll.looked_at(), 3);
}
