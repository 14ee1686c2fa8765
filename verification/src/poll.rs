//! The poll-and-relay loop as a machine: it says which request to send next,
//! takes the answer, and says what to relay to the sender.
//!
//! The caller fetches the batch, sends each request, relays each answer and
//! calls back in; the machine keeps the order and the results.

use vstd::prelude::*;
use serde_json::Value;
use crate::json::{JsonModel, json_model, json_parsed};
use crate::json::{member, text_value, count_value, object_value, array_value, no_members,
    with_member};
use crate::http::{HttpCall, CallModel};
use crate::ops::{Step, StepModel, Kind, Pending, chat_plan, chat, complete, chat_content,
    chat_result, lemma_member_names, text_or, text_or_empty, text_member_or,
    text_member_or_empty};

verus! {

/// How many inbound messages one poll asks the host for.
pub const POLL_BATCH: u32 = 10;

/// An answer on its way back to the sender of a message.
#[derive(Debug)]
pub struct Relay {
    pub from: String,
    pub response: String,
}

/// A `Relay` as mathematics.
pub struct RelayModel {
    pub from: Seq<char>,
    pub response: Seq<char>,
}

impl View for Relay {
    type V = RelayModel;

    open spec fn view(&self) -> RelayModel {
        RelayModel { from: self.from@, response: self.response@ }
    }
}

/// The sender of an inbound message: its string member `from`, or `unknown`.
pub open spec fn sender(message: JsonModel) -> Seq<char> {
    text_or(message, "from"@, "unknown"@)
}

/// The prompt of an inbound message: the string member `prompt` of its
/// `payload`, or the empty string.
pub open spec fn message_prompt(message: JsonModel) -> Seq<char> {
    match message.get("payload"@) {
        Some(p) => text_or_empty(p, "prompt"@),
        None => Seq::empty(),
    }
}

/// The chat request that stands for a prompt.
pub open spec fn prompt_request(prompt: Seq<char>) -> JsonModel {
    JsonModel::Object(JsonModel::no_members().insert("prompt"@, JsonModel::Str(prompt)))
}

/// What is sent for an inbound message: to whom the answer goes, the call,
/// and the model that the answer falls back to.
pub struct AskModel {
    pub from: Seq<char>,
    pub call: CallModel,
    pub model: Seq<char>,
}

/// The request for an inbound message, or `None` where the message is
/// skipped: its prompt is empty, or the chat does not come to a request.
pub open spec fn message_ask(message: JsonModel, base_url: Seq<char>, model: Seq<char>) -> Option<
    AskModel,
> {
    if message_prompt(message).len() == 0 {
        None
    } else {
        match chat_plan(base_url, model, prompt_request(message_prompt(message))) {
            Ok(StepModel::Fetch(call, _, m)) => Some(
                AskModel { from: sender(message), call, model: m },
            ),
            _ => None,
        }
    }
}

/// The place of the first message from `start` on that is not skipped, or the
/// length of the batch where every one is.
pub open spec fn next_ask(
    messages: Seq<JsonModel>,
    start: int,
    base_url: Seq<char>,
    model: Seq<char>,
) -> int
    decreases messages.len() - start,
{
    if start < 0 || start >= messages.len() {
        messages.len() as int
    } else if message_ask(messages[start], base_url, model) is Some {
        start
    } else {
        next_ask(messages, start + 1, base_url, model)
    }
}

/// The answer to relay for the body of the server's reply, or `None` where
/// the chat failed: no reply came, or it was not JSON.
pub open spec fn relay_for(from: Seq<char>, reply: Option<Seq<u8>>) -> Option<RelayModel> {
    match reply {
        Some(body) => match json_parsed(body) {
            Some(data) => Some(RelayModel { from, response: chat_content(data) }),
            None => None,
        },
        None => None,
    }
}

/// What is sent to the sender of a message: `response`, the answer.
pub open spec fn relay_payload(relay: RelayModel) -> JsonModel {
    JsonModel::Object(
        JsonModel::no_members().insert("response"@, JsonModel::Str(relay.response)),
    )
}

/// The entry of a relay in the summary of a poll.
pub open spec fn relay_entry(relay: RelayModel) -> JsonModel {
    JsonModel::Object(
        JsonModel::no_members().insert("from"@, JsonModel::Str(relay.from)).insert(
            "response"@,
            JsonModel::Str(relay.response),
        ),
    )
}

/// The summary of a poll: how many messages were answered, and the answers in
/// the order of the messages.
pub open spec fn summary(results: Seq<RelayModel>) -> JsonModel {
    JsonModel::Object(
        JsonModel::no_members().insert(
            "processed"@,
            JsonModel::Integer(results.len() as int),
        ).insert(
            "results"@,
            JsonModel::Array(Seq::new(results.len(), |i: int| relay_entry(results[i]))),
        ),
    )
}

/// What the caller of a poll does next.
#[derive(Debug)]
pub enum PollStep {
    /// Send the call for the message of the sender `from`, then `settle`.
    Ask { from: String, call: HttpCall, pending: Pending },
    /// The batch is done: the summary.
    Finished(Value),
}

/// One poll over a batch of inbound messages.
#[derive(Debug)]
pub struct PollRun {
    messages: Vec<Value>,
    cursor: usize,
    base_url: String,
    model: String,
    results: Vec<Relay>,
}

impl Relay {
    /// What is sent to the sender.
    pub fn payload(&self) -> (r: Value)
        ensures
            json_model(r) == relay_payload(self@),
    {
        object_value(with_member(no_members(), "response", text_value(self.response.as_str())))
    }

    /// The entry in the summary.
    pub fn entry(&self) -> (r: Value)
        ensures
            json_model(r) == relay_entry(self@),
    {
        object_value(
            with_member(
                with_member(no_members(), "from", text_value(self.from.as_str())),
                "response",
                text_value(self.response.as_str()),
            ),
        )
    }
}

/// The summary of the relays made so far.
pub fn summary_value(results: &Vec<Relay>) -> (r: Value)
    ensures
        json_model(r) == summary(results@.map_values(|x: Relay| x@)),
{
    let ghost relays = results@.map_values(|x: Relay| x@);
    let mut entries: Vec<Value> = Vec::new();
    let mut i: usize = 0;
    while i < results.len()
        invariant
            i <= results.len(),
            entries.len() == i,
            relays == results@.map_values(|x: Relay| x@),
            forall|j: int| 0 <= j < i ==> json_model(#[trigger] entries[j]) == relay_entry(relays[j]),
        decreases results.len() - i,
    {
        entries.push(results[i].entry());
        i += 1;
    }
    proof {
        assert(entries@.map_values(|v: Value| json_model(v)) =~= Seq::new(
            relays.len(),
            |i: int| relay_entry(relays[i]),
        ));
    }
    object_value(
        with_member(
            with_member(no_members(), "processed", count_value(results.len())),
            "results",
            array_value(entries),
        ),
    )
}

/// The request for one inbound message, or `None` where it is skipped.
pub fn ask(message: &Value, base_url: &str, model: &str) -> (r: Option<(String, HttpCall, Pending)>)
    ensures
        match r {
            Some((from, call, pending)) => pending.kind == Kind::Chat && message_ask(
                json_model(*message),
                base_url@,
                model@,
            ) == Some(AskModel { from: from@, call: call@, model: pending.model@ }),
            None => message_ask(json_model(*message), base_url@, model@) is None,
        },
{
    let prompt = match member(message, "payload") {
        Some(p) => text_member_or_empty(p, "prompt"),
        None => {
            proof {
                reveal_strlit("");
                assert(""@ =~= Seq::<char>::empty());
            }
            ""
        },
    };
    if prompt.is_empty() {
        return None;
    }
    let from = text_member_or(message, "from", "unknown");
    let input = object_value(with_member(no_members(), "prompt", text_value(prompt)));
    match chat(base_url, model, &input) {
        Ok(Step::Fetch(call, pending)) => {
            Some((String::from_str(from), call, pending))
        },
        _ => None,
    }
}

impl PollRun {
    /// The messages of the batch.
    pub closed spec fn batch(&self) -> Seq<JsonModel> {
        self.messages@.map_values(|v: Value| json_model(v))
    }

    /// How many messages of the batch have been looked at.
    pub closed spec fn position(&self) -> int {
        self.cursor as int
    }

    /// The server's address.
    pub closed spec fn base(&self) -> Seq<char> {
        self.base_url@
    }

    /// The model that the chats ask for.
    pub closed spec fn chat_model(&self) -> Seq<char> {
        self.model@
    }

    /// The relays made so far, in the order of their messages.
    pub closed spec fn relays(&self) -> Seq<RelayModel> {
        self.results@.map_values(|x: Relay| x@)
    }

    /// The position stands inside the batch or at its end.
    pub closed spec fn wf(&self) -> bool {
        self.cursor <= self.messages.len()
    }

    /// A poll that has looked at none of `messages` yet.
    pub fn new(messages: Vec<Value>, base_url: &str, model: &str) -> (r: PollRun)
        ensures
            r.wf(),
            r.position() <= messages@.len(),
            r.batch() == messages@.map_values(|v: Value| json_model(v)),
            r.position() == 0,
            r.base() == base_url@,
            r.chat_model() == model@,
            r.relays() == Seq::<RelayModel>::empty(),
    {
        let r = PollRun {
            messages,
            cursor: 0,
            base_url: String::from_str(base_url),
            model: String::from_str(model),
            results: Vec::new(),
        };
        proof {
            assert(r.relays() =~= Seq::<RelayModel>::empty());
        }
        r
    }

    /// How many messages of the batch have been looked at.
    pub fn looked_at(&self) -> (r: usize)
        ensures
            r == self.position(),
    {
        self.cursor
    }

    /// The relays made so far.
    pub fn results(&self) -> (r: &Vec<Relay>)
        ensures
            r@.map_values(|x: Relay| x@) == self.relays(),
    {
        &self.results
    }

    /// Goes on to the next message that is not skipped and gives its request,
    /// or the summary where no such message is left.
    ///
    /// The messages are taken in their order, each once. Nothing is asked for
    /// a skipped message, and no relay is made here.
    pub fn advance(&mut self) -> (r: PollStep)
        requires
            old(self).wf(),
        ensures
            final(self).wf(),
            final(self).batch() == old(self).batch(),
            final(self).base() == old(self).base(),
            final(self).chat_model() == old(self).chat_model(),
            final(self).relays() == old(self).relays(),
            old(self).position() <= final(self).position() <= old(self).batch().len(),
            match r {
                PollStep::Ask { from, call, pending } => {
                    &&& final(self).position() == next_ask(
                        old(self).batch(),
                        old(self).position(),
                        old(self).base(),
                        old(self).chat_model(),
                    ) + 1
                    &&& final(self).position() <= old(self).batch().len()
                    &&& pending.kind == Kind::Chat
                    &&& message_ask(
                        old(self).batch()[final(self).position() - 1],
                        old(self).base(),
                        old(self).chat_model(),
                    ) == Some(AskModel { from: from@, call: call@, model: pending.model@ })
                },
                PollStep::Finished(v) => {
                    &&& next_ask(
                        old(self).batch(),
                        old(self).position(),
                        old(self).base(),
                        old(self).chat_model(),
                    ) == old(self).batch().len()
                    &&& final(self).position() == old(self).batch().len()
                    &&& json_model(v) == summary(old(self).relays())
                },
            },
    {
        while self.cursor < self.messages.len()
            invariant
                self.wf(),
                self.messages == old(self).messages,
                self.base_url == old(self).base_url,
                self.model == old(self).model,
                self.results == old(self).results,
                old(self).cursor <= self.cursor,
                next_ask(self.batch(), self.cursor as int, self.base_url@, self.model@) == next_ask(
                    old(self).batch(),
                    old(self).cursor as int,
                    old(self).base_url@,
                    old(self).model@,
                ),
            decreases self.messages.len() - self.cursor,
        {
            let found = ask(&self.messages[self.cursor], self.base_url.as_str(), self.model.as_str());
            self.cursor = self.cursor + 1;
            match found {
                Some((from, call, pending)) => {
                    return PollStep::Ask { from, call, pending };
                },
                None => {},
            }
        }
        PollStep::Finished(summary_value(&self.results))
    }

    /// Takes the answer to the request made for the sender `from`: the body
    /// of the server's reply, or `None` where the call failed.
    ///
    /// A reply that reads as JSON gives one relay, which is recorded and
    /// handed back to be sent. Any other outcome gives none and records none.
    pub fn settle(&mut self, from: String, reply: Option<&[u8]>) -> (r: Option<Relay>)
        requires
            old(self).wf(),
        ensures
            final(self).wf(),
            final(self).batch() == old(self).batch(),
            final(self).position() == old(self).position(),
            final(self).base() == old(self).base(),
            final(self).chat_model() == old(self).chat_model(),
            match r {
                Some(relay) => {
                    &&& relay_for(
                        from@,
                        match reply {
                            Some(b) => Some(b@),
                            None => None,
                        },
                    ) == Some(relay@)
                    &&& final(self).relays() == old(self).relays().push(relay@)
                },
                None => {
                    &&& relay_for(
                        from@,
                        match reply {
                            Some(b) => Some(b@),
                            None => None,
                        },
                    ) is None
                    &&& final(self).relays() == old(self).relays()
                },
            },
    {
        let body = match reply {
            Some(b) => b,
            None => {
                return None;
            },
        };
        let pending = Pending { kind: Kind::Chat, model: self.model.clone() };
        match complete(&pending, body) {
            Ok(result) => {
                let content = text_member_or_empty(&result, "content");
                proof {
                    lemma_content_of_result(pending.model@, json_parsed(body@).unwrap());
                }
                let kept = Relay { from: from.clone(), response: String::from_str(content) };
                let sent = Relay { from, response: String::from_str(content) };
                self.results.push(kept);
                proof {
                    assert(self.relays() =~= old(self).relays().push(sent@));
                }
                Some(sent)
            },
            Err(_) => None,
        }
    }
}

/// The reply to the message at place `i`: a missing one counts as a call that
/// failed.
pub open spec fn reply_at(replies: Seq<Option<Seq<u8>>>, i: int) -> Option<Seq<u8>> {
    if 0 <= i < replies.len() {
        replies[i]
    } else {
        None
    }
}

/// The relays of the first `n` messages of a batch, in their order: one for
/// each message that is not skipped and whose reply reads as JSON.
pub open spec fn poll_relays(
    messages: Seq<JsonModel>,
    replies: Seq<Option<Seq<u8>>>,
    base_url: Seq<char>,
    model: Seq<char>,
    n: nat,
) -> Seq<RelayModel>
    decreases n,
{
    if n == 0 {
        Seq::empty()
    } else {
        let before = poll_relays(messages, replies, base_url, model, (n - 1) as nat);
        match message_ask(messages[n - 1], base_url, model) {
            Some(asked) => match relay_for(asked.from, reply_at(replies, n - 1)) {
                Some(relay) => before.push(relay),
                None => before,
            },
            None => before,
        }
    }
}

/// Messages that are skipped add no relay.
pub proof fn lemma_skipped_add_nothing(
    messages: Seq<JsonModel>,
    replies: Seq<Option<Seq<u8>>>,
    base_url: Seq<char>,
    model: Seq<char>,
    start: nat,
    end: nat,
)
    requires
        start <= end <= messages.len(),
        forall|i: int|
            start <= i < end ==> message_ask(#[trigger] messages[i], base_url, model) is None,
    ensures
        poll_relays(messages, replies, base_url, model, end) == poll_relays(
            messages,
            replies,
            base_url,
            model,
            start,
        ),
    decreases end - start,
{
    if start < end {
        lemma_skipped_add_nothing(messages, replies, base_url, model, start, (end - 1) as nat);
    }
}

/// The views of the replies to a batch.
pub open spec fn reply_views(replies: Seq<Option<Vec<u8>>>) -> Seq<Option<Seq<u8>>> {
    replies.map_values(
        |r: Option<Vec<u8>>|
            match r {
                Some(b) => Some(b@),
                None => None,
            },
    )
}

/// Runs a poll over `messages` where the replies are at hand: `replies[i]`
/// is the body of the server's reply to the request made for message `i`, or
/// `None` where that call failed; a missing one counts as failed.
///
/// The summary counts and lists one relay for each message that is not
/// skipped and whose reply reads as JSON, in the order of the messages.
pub fn poll_messages(
    messages: Vec<Value>,
    replies: &Vec<Option<Vec<u8>>>,
    base_url: &str,
    model: &str,
) -> (r: Value)
    ensures
        json_model(r) == summary(
            poll_relays(
                messages@.map_values(|v: Value| json_model(v)),
                reply_views(replies@),
                base_url@,
                model@,
                messages@.len(),
            ),
        ),
{
    let ghost batch = messages@.map_values(|v: Value| json_model(v));
    let ghost given = reply_views(replies@);
    let mut run = PollRun::new(messages, base_url, model);
    loop
        invariant
            run.wf(),
            run.batch() == batch,
            batch == messages@.map_values(|v: Value| json_model(v)),
            run.base() == base_url@,
            run.chat_model() == model@,
            0 <= run.position() <= batch.len(),
            given == reply_views(replies@),
            run.relays() == poll_relays(batch, given, base_url@, model@, run.position() as nat),
        decreases batch.len() - run.position(),
    {
        let ghost start = run.position();
        proof {
            crate::laws::poll_skips_what_asks_nothing(batch, start, base_url@, model@);
            let stop = next_ask(batch, start, base_url@, model@);
            lemma_skipped_add_nothing(batch, given, base_url@, model@, start as nat, stop as nat);
        }
        match run.advance() {
            PollStep::Ask { from, call, pending } => {
                let i = run.looked_at() - 1;
                let reply: Option<&[u8]> = if i < replies.len() {
                    match &replies[i] {
                        Some(b) => Some(b.as_slice()),
                        None => None,
                    }
                } else {
                    None
                };
                assert(match reply {
                    Some(b) => Some(b@),
                    None => None,
                } == reply_at(given, i as int));
                let _ = run.settle(from, reply);
            },
            PollStep::Finished(v) => {
                return v;
            },
        }
    }
}

/// The `content` of a chat result is the text that the server's answer holds
/// under `message`, `content`.
pub proof fn lemma_content_of_result(model: Seq<char>, data: JsonModel)
    ensures
        text_or_empty(chat_result(model, data), "content"@) == chat_content(data),
{
    lemma_member_names();
}

} // verus!
