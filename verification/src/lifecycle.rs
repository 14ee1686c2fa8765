//! What the plugin tells its host about itself, and what it answers when the
//! host starts and stops it.

use vstd::prelude::*;
use serde_json::Value;
use crate::json::{JsonModel, json_model};
use crate::json::{text_value, flag_value, object_value, array_value, no_members, with_member};

verus! {

/// One capability: its name and what it is for.
pub open spec fn capability(name: Seq<char>, description: Seq<char>) -> JsonModel {
    JsonModel::Object(
        JsonModel::no_members().insert("name"@, JsonModel::Str(name)).insert(
            "description"@,
            JsonModel::Str(description),
        ),
    )
}

/// The three capabilities of the agent.
pub open spec fn capabilities() -> JsonModel {
    JsonModel::Array(
        seq![
            capability("chat-completion"@, "Generate chat responses via local Ollama models"@),
            capability("code-generation"@, "Generate code with local models"@),
            capability("embeddings"@, "Generate text embeddings"@),
        ],
    )
}

/// The plugin's description of itself.
pub open spec fn description() -> JsonModel {
    JsonModel::Object(
        JsonModel::no_members().insert("name"@, JsonModel::Str("ollama"@)).insert(
            "version"@,
            JsonModel::Str("0.1.0"@),
        ).insert(
            "description"@,
            JsonModel::Str("ACP agent for local LLM inference via Ollama"@),
        ).insert("label"@, JsonModel::Str("acp"@)).insert("capabilities"@, capabilities()),
    )
}

/// The schema of one setting: a string with a description and a default.
pub open spec fn string_setting(description: Seq<char>, default: Seq<char>) -> JsonModel {
    JsonModel::Object(
        JsonModel::no_members().insert("type"@, JsonModel::Str("string"@)).insert(
            "description"@,
            JsonModel::Str(description),
        ).insert("default"@, JsonModel::Str(default)),
    )
}

/// The schema of the settings: the server's address and the default model.
pub open spec fn settings_schema() -> JsonModel {
    JsonModel::Object(
        JsonModel::no_members().insert("type"@, JsonModel::Str("object"@)).insert(
            "properties"@,
            JsonModel::Object(
                JsonModel::no_members().insert(
                    "ollama_url"@,
                    string_setting("Ollama API base URL"@, "http://localhost:11434"@),
                ).insert("model"@, string_setting("Default model to use"@, "llama3.2"@)),
            ),
        ),
    )
}

/// An object with the one member `status`.
pub open spec fn status(word: Seq<char>) -> JsonModel {
    JsonModel::Object(JsonModel::no_members().insert("status"@, JsonModel::Str(word)))
}

/// The answer to a successful `init`.
pub open spec fn initialized() -> JsonModel {
    JsonModel::Object(JsonModel::no_members().insert("success"@, JsonModel::Bool(true)))
}

fn capability_value(name: &str, description: &str) -> (r: Value)
    ensures
        json_model(r) == capability(name@, description@),
{
    object_value(
        with_member(
            with_member(no_members(), "name", text_value(name)),
            "description",
            text_value(description),
        ),
    )
}

fn string_setting_value(description: &str, default: &str) -> (r: Value)
    ensures
        json_model(r) == string_setting(description@, default@),
{
    object_value(
        with_member(
            with_member(
                with_member(no_members(), "type", text_value("string")),
                "description",
                text_value(description),
            ),
            "default",
            text_value(default),
        ),
    )
}

fn status_value(word: &str) -> (r: Value)
    ensures
        json_model(r) == status(word@),
{
    object_value(with_member(no_members(), "status", text_value(word)))
}

/// The plugin's name, version, label and capabilities.
pub fn describe() -> (r: Value)
    ensures
        json_model(r) == description(),
{
    let mut items: Vec<Value> = Vec::new();
    items.push(
        capability_value("chat-completion", "Generate chat responses via local Ollama models"),
    );
    items.push(capability_value("code-generation", "Generate code with local models"));
    items.push(capability_value("embeddings", "Generate text embeddings"));
    proof {
        assert(items@.map_values(|v: Value| json_model(v)) =~= seq![
            capability("chat-completion"@, "Generate chat responses via local Ollama models"@),
            capability("code-generation"@, "Generate code with local models"@),
            capability("embeddings"@, "Generate text embeddings"@),
        ]);
    }
    let m = with_member(no_members(), "name", text_value("ollama"));
    let m = with_member(m, "version", text_value("0.1.0"));
    let m = with_member(
        m,
        "description",
        text_value("ACP agent for local LLM inference via Ollama"),
    );
    let m = with_member(m, "label", text_value("acp"));
    object_value(with_member(m, "capabilities", array_value(items)))
}

/// The schema of the settings that the plugin reads.
pub fn config_schema() -> (r: Value)
    ensures
        json_model(r) == settings_schema(),
{
    let settings = object_value(
        with_member(
            with_member(
                no_members(),
                "ollama_url",
                string_setting_value("Ollama API base URL", "http://localhost:11434"),
            ),
            "model",
            string_setting_value("Default model to use", "llama3.2"),
        ),
    );
    object_value(
        with_member(with_member(no_members(), "type", text_value("object")), "properties", settings),
    )
}

/// The answer to `init`: success.
pub fn init() -> (r: Value)
    ensures
        json_model(r) == initialized(),
{
    object_value(with_member(no_members(), "success", flag_value(true)))
}

/// The answer to `start`: the agent is running.
pub fn start() -> (r: Value)
    ensures
        json_model(r) == status("running"@),
{
    status_value("running")
}

/// The answer to `stop`: the agent is stopped.
pub fn stop() -> (r: Value)
    ensures
        json_model(r) == status("stopped"@),
{
    status_value("stopped")
}

} // verus!
