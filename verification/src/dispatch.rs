//! The configuration of one invocation, and the choice of the operation that
//! a request asks for.

use vstd::prelude::*;
use serde_json::Value;
use crate::json::{JsonModel, json_model};
use crate::ops::{Step, StepModel, Fault, outcome, error_reply, text_or, chat_plan, generate_plan,
    embeddings_plan, list_models_plan, chat, generate, embeddings, list_models, error_value,
    text_member_or};

verus! {

/// The server's address and the model to use where a request names none.
#[derive(Debug)]
pub struct Config {
    pub base_url: String,
    pub default_model: String,
}

/// The address used where the settings give none.
pub open spec fn default_base_url() -> Seq<char> {
    "http://localhost:11434"@
}

/// The model used where the settings give none.
pub open spec fn default_model_name() -> Seq<char> {
    "llama3.2"@
}

impl Config {
    /// Reads `ollama_url` and `model` from the host's settings; a member that
    /// is missing or no string gets its default.
    pub fn resolve(settings: &Value) -> (r: Config)
        ensures
            r.base_url@ == text_or(json_model(*settings), "ollama_url"@, default_base_url()),
            r.default_model@ == text_or(json_model(*settings), "model"@, default_model_name()),
    {
        Config {
            base_url: String::from_str(
                text_member_or(settings, "ollama_url", "http://localhost:11434"),
            ),
            default_model: String::from_str(text_member_or(settings, "model", "llama3.2")),
        }
    }
}

/// What a request can ask for.
#[derive(Clone, Copy, Debug, PartialEq, Eq, Structural)]
pub enum Action {
    Chat,
    Generate,
    Embeddings,
    ListModels,
    Poll,
    /// A name that stands for none of the five.
    Unknown,
}

/// The action that a name stands for.
pub open spec fn action_named(name: Seq<char>) -> Action {
    if name == "chat"@ {
        Action::Chat
    } else if name == "generate"@ {
        Action::Generate
    } else if name == "embeddings"@ {
        Action::Embeddings
    } else if name == "list_models"@ {
        Action::ListModels
    } else if name == "poll"@ {
        Action::Poll
    } else {
        Action::Unknown
    }
}

/// The name of the action of a request: its string member `action`, or
/// `chat`.
pub open spec fn action_name(input: JsonModel) -> Seq<char> {
    text_or(input, "action"@, "chat"@)
}

/// The result for a name that stands for no action.
pub open spec fn unknown_action(name: Seq<char>) -> JsonModel {
    error_reply("unknown action: "@ + name)
}

/// What a request leads to.
pub open spec fn process_plan(input: JsonModel, base_url: Seq<char>, model: Seq<char>) -> Result<
    StepModel,
    Fault,
> {
    match action_named(action_name(input)) {
        Action::Chat => chat_plan(base_url, model, input),
        Action::Generate => generate_plan(base_url, model, input),
        Action::Embeddings => embeddings_plan(base_url, model, input),
        Action::ListModels => Ok(list_models_plan(base_url)),
        Action::Poll => Ok(StepModel::Poll),
        Action::Unknown => Ok(StepModel::Reply(unknown_action(action_name(input)))),
    }
}

/// Whether two strings hold the same characters.
fn same_text(a: &str, b: &str) -> (r: bool)
    ensures
        r == (a@ == b@),
{
    String::from_str(a) == String::from_str(b)
}

impl Action {
    /// The action that `name` stands for.
    pub fn parse(name: &str) -> (r: Action)
        ensures
            r == action_named(name@),
    {
        if same_text(name, "chat") {
            Action::Chat
        } else if same_text(name, "generate") {
            Action::Generate
        } else if same_text(name, "embeddings") {
            Action::Embeddings
        } else if same_text(name, "list_models") {
            Action::ListModels
        } else if same_text(name, "poll") {
            Action::Poll
        } else {
            Action::Unknown
        }
    }
}

/// Chooses the operation by the request's `action` and starts it.
///
/// A request without a string `action` is a chat. A name that stands for no
/// action gives the error result with the name in it. A mistake in the
/// request is a result, never a fault.
pub fn process(input: &Value, config: &Config) -> (r: Result<Step, Fault>)
    ensures
        outcome(r) == process_plan(json_model(*input), config.base_url@, config.default_model@),
{
    let name = text_member_or(input, "action", "chat");
    let base_url = config.base_url.as_str();
    let model = config.default_model.as_str();
    match Action::parse(name) {
        Action::Chat => chat(base_url, model, input),
        Action::Generate => generate(base_url, model, input),
        Action::Embeddings => embeddings(base_url, model, input),
        Action::ListModels => Ok(list_models(base_url)),
        Action::Poll => Ok(Step::Poll),
        Action::Unknown => {
            let message = String::from_str("unknown action: ").concat(name);
            Ok(Step::Reply(error_value(message.as_str())))
        },
    }
}

} // verus!
