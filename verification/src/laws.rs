//! What holds of the operations together, proved from their definitions.

use vstd::prelude::*;
use crate::json::{JsonModel, json_text, json_parsed};
use crate::http::endpoint;
use crate::ops::{Kind, StepModel, Fault, error_reply, default_system, prompt_messages,
    chat_messages, chat_body, chat_plan, generate_plan, embeddings_plan, post_outcome, text_or,
    text_or_empty, chat_result, generate_result, embeddings_result, normalized, completed, lemma_member_names};
use crate::dispatch::{Action, action_named, action_name, process_plan, unknown_action};
use crate::poll::{message_ask, next_ask, prompt_request, relay_for, reply_at, poll_relays};

verus! {

/// A request without the member `action` is handled as a chat.
pub proof fn absent_action_is_chat(input: JsonModel, base_url: Seq<char>, model: Seq<char>)
    requires
        input.get("action"@) is None,
    ensures
        process_plan(input, base_url, model) == chat_plan(base_url, model, input),
{
}

/// A request whose `action` is the string `chat` is handled as a chat.
pub proof fn chat_action_is_chat(input: JsonModel, base_url: Seq<char>, model: Seq<char>)
    requires
        input.text_at("action"@) == Some("chat"@),
    ensures
        process_plan(input, base_url, model) == chat_plan(base_url, model, input),
{
}

/// A request without `action` leads to what the same request leads to with
/// `action` set to `chat`.
pub proof fn absent_action_is_as_chat_action(
    members: Map<Seq<char>, JsonModel>,
    base_url: Seq<char>,
    model: Seq<char>,
)
    requires
        !members.contains_key("action"@),
    ensures
        process_plan(JsonModel::Object(members), base_url, model) == process_plan(
            JsonModel::Object(members.insert("action"@, JsonModel::Str("chat"@))),
            base_url,
            model,
        ),
{
    lemma_member_names();
    let a = JsonModel::Object(members);
    let b = JsonModel::Object(members.insert("action"@, JsonModel::Str("chat"@)));
    assert(a.get("messages"@) == b.get("messages"@));
    assert(a.get("prompt"@) == b.get("prompt"@));
    assert(a.get("system"@) == b.get("system"@));
    assert(a.get("model"@) == b.get("model"@));
    assert(b.text_at("action"@) == Some("chat"@));
    assert(chat_messages(a) == chat_messages(b));
}

/// A name that stands for none of the five actions gives the error result
/// with the name in it, and nothing is sent.
pub proof fn unknown_action_is_reported(input: JsonModel, base_url: Seq<char>, model: Seq<char>)
    requires
        action_named(action_name(input)) == Action::Unknown,
    ensures
        process_plan(input, base_url, model) == Ok::<StepModel, Fault>(
            StepModel::Reply(error_reply("unknown action: "@ + action_name(input))),
        ),
        unknown_action(action_name(input)) == error_reply("unknown action: "@ + action_name(input)),
{
}

/// A chat with a non-empty `prompt`, without `messages` and without a string
/// `system`, sends two messages: the default system prompt, then the prompt
/// as the user's.
pub proof fn prompt_alone_gives_two_messages(input: JsonModel, prompt: Seq<char>)
    requires
        input.get("messages"@) is None,
        input.text_at("prompt"@) == Some(prompt),
        prompt.len() > 0,
        input.text_at("system"@) is None,
    ensures
        chat_messages(input) == Some(prompt_messages(default_system(), prompt)),
{
}

/// Where a chat request has `messages`, they are sent as they stand, whatever
/// `prompt` and `system` hold.
pub proof fn messages_go_before_prompt(
    input: JsonModel,
    messages: JsonModel,
    base_url: Seq<char>,
    model: Seq<char>,
)
    requires
        input.get("messages"@) == Some(messages),
    ensures
        chat_messages(input) == Some(messages),
        chat_plan(base_url, model, input) == post_outcome(
            endpoint(base_url, "/api/chat"@),
            Kind::Chat,
            text_or(input, "model"@, model),
            json_text(chat_body(text_or(input, "model"@, model), messages)),
        ),
{
}

/// A chat with neither `messages` nor a non-empty `prompt`, a generate
/// without a non-empty `prompt`, and an embeddings request without a
/// non-empty `text` each give their error result, and nothing is sent.
pub proof fn missing_input_is_reported(input: JsonModel, base_url: Seq<char>, model: Seq<char>)
    ensures
        input.get("messages"@) is None && text_or_empty(input, "prompt"@).len() == 0
            ==> chat_plan(base_url, model, input) == Ok::<StepModel, Fault>(
            StepModel::Reply(error_reply("prompt or messages required"@)),
        ),
        text_or_empty(input, "prompt"@).len() == 0 ==> generate_plan(base_url, model, input) == Ok::<
            StepModel,
            Fault,
        >(StepModel::Reply(error_reply("prompt is required"@))),
        text_or_empty(input, "text"@).len() == 0 ==> embeddings_plan(base_url, model, input) == Ok::<
            StepModel,
            Fault,
        >(StepModel::Reply(error_reply("text is required"@))),
{
}

/// Where the server's chat answer has no boolean `done`, the result's `done`
/// is `true`; where it has no string `model`, the result's `model` is the
/// model that was asked for. The same holds of a generate, and of the `model`
/// of an embeddings result.
pub proof fn answers_fall_back(model: Seq<char>, data: JsonModel)
    ensures
        data.flag_at("done"@) is None ==> chat_result(model, data).get("done"@) == Some(
            JsonModel::Bool(true),
        ),
        data.text_at("model"@) is None ==> chat_result(model, data).get("model"@) == Some(
            JsonModel::Str(model),
        ),
        data.flag_at("done"@) is None ==> generate_result(model, data).get("done"@) == Some(
            JsonModel::Bool(true),
        ),
        data.text_at("model"@) is None ==> generate_result(model, data).get("model"@) == Some(
            JsonModel::Str(model),
        ),
        data.text_at("model"@) is None ==> embeddings_result(model, data).get("model"@) == Some(
            JsonModel::Str(model),
        ),
{
    lemma_member_names();
}

/// The result of list-models is the server's answer, member for member.
pub proof fn list_of_models_is_the_answer(model: Seq<char>, data: JsonModel, body: Seq<u8>)
    ensures
        normalized(Kind::ListModels, model, data) == data,
        json_parsed(body) == Some(data) ==> completed(Kind::ListModels, model, body) == Ok::<
            JsonModel,
            Fault,
        >(data),
{
}

/// The chat that a poll makes of a non-empty prompt: the default system
/// prompt, the prompt as the user's message, and the poll's model.
pub proof fn polled_prompt_is_a_plain_chat(
    base_url: Seq<char>,
    model: Seq<char>,
    prompt: Seq<char>,
)
    requires
        prompt.len() > 0,
    ensures
        chat_plan(base_url, model, prompt_request(prompt)) == post_outcome(
            endpoint(base_url, "/api/chat"@),
            Kind::Chat,
            model,
            json_text(chat_body(model, prompt_messages(default_system(), prompt))),
        ),
{
    lemma_member_names();
    let input = prompt_request(prompt);
    assert(input.get("messages"@) is None);
    assert(input.get("system"@) is None);
    assert(input.get("model"@) is None);
    assert(input.text_at("prompt"@) == Some(prompt));
}

/// A poll passes over exactly the messages that ask for nothing: every
/// message before the one it stops at is skipped, and the one it stops at is
/// not.
pub proof fn poll_skips_what_asks_nothing(
    messages: Seq<JsonModel>,
    start: int,
    base_url: Seq<char>,
    model: Seq<char>,
)
    requires
        0 <= start <= messages.len(),
    ensures
        start <= next_ask(messages, start, base_url, model) <= messages.len(),
        forall|i: int|
            start <= i < next_ask(messages, start, base_url, model) ==> message_ask(
                #[trigger] messages[i],
                base_url,
                model,
            ) is None,
        next_ask(messages, start, base_url, model) < messages.len() ==> message_ask(
            messages[next_ask(messages, start, base_url, model)],
            base_url,
            model,
        ) is Some,
    decreases messages.len() - start,
{
    if start < messages.len() && message_ask(messages[start], base_url, model) is None {
        poll_skips_what_asks_nothing(messages, start + 1, base_url, model);
    }
}

/// No relay is made for a call that failed or for a reply that is not JSON,
/// and a reply that is JSON gives the one relay to its sender.
pub proof fn relay_only_for_an_answer(from: Seq<char>, reply: Option<Seq<u8>>)
    ensures
        relay_for(from, None) is None,
        reply matches Some(body) && json_parsed(body) is None ==> relay_for(from, reply) is None,
        relay_for(from, reply) matches Some(relay) ==> relay.from == from && reply is Some,
{
}

/// A poll makes at most one relay for each message: a message that is
/// skipped, whose call failed or whose reply is not JSON adds none, and any
/// other adds exactly one, to its sender, behind those made before.
pub proof fn poll_relays_one_per_answer(
    messages: Seq<JsonModel>,
    replies: Seq<Option<Seq<u8>>>,
    base_url: Seq<char>,
    model: Seq<char>,
    n: nat,
)
    requires
        n <= messages.len(),
    ensures
        poll_relays(messages, replies, base_url, model, n).len() <= n,
        n > 0 && (message_ask(messages[n - 1], base_url, model) is None || reply_at(
            replies,
            n - 1,
        ) is None || json_parsed(reply_at(replies, n - 1).unwrap()) is None) ==> poll_relays(
            messages,
            replies,
            base_url,
            model,
            n,
        ) == poll_relays(messages, replies, base_url, model, (n - 1) as nat),
        n > 0 && message_ask(messages[n - 1], base_url, model) is Some && reply_at(
            replies,
            n - 1,
        ) is Some && json_parsed(reply_at(replies, n - 1).unwrap()) is Some ==> poll_relays(
            messages,
            replies,
            base_url,
            model,
            n,
        ).len() == poll_relays(messages, replies, base_url, model, (n - 1) as nat).len() + 1
            && poll_relays(messages, replies, base_url, model, n).last().from
            == message_ask(messages[n - 1], base_url, model).unwrap().from,
    decreases n,
{
    if n > 0 {
        poll_relays_one_per_answer(messages, replies, base_url, model, (n - 1) as nat);
    }
}

} // verus!
