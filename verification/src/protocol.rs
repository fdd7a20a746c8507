//! The upstream endpoint table and the request payload of each
//! operation kind.

use vstd::prelude::*;
use vstd::string::StrSliceExecFns;
use vstd::string::StringExecFns;
use crate::model_name::normalize_model_name;
use crate::model_name::normalized_name;

verus! {

/// One row of the upstream protocol table.
#[derive(Clone, Copy, PartialEq, Eq, Structural, Debug)]
pub enum OperationKind {
    GenerateText,
    Chat,
    ListModels,
    ModelDetails,
    Embeddings,
    RunningModels,
}

#[derive(Clone, Copy, PartialEq, Eq, Structural, Debug)]
pub enum HttpMethod {
    Get,
    Post,
}

/// The HTTP method of each operation kind.
pub open spec fn spec_method(kind: OperationKind) -> HttpMethod {
    match kind {
        OperationKind::GenerateText => HttpMethod::Post,
        OperationKind::Chat => HttpMethod::Post,
        OperationKind::ListModels => HttpMethod::Get,
        OperationKind::ModelDetails => HttpMethod::Post,
        OperationKind::Embeddings => HttpMethod::Post,
        OperationKind::RunningModels => HttpMethod::Get,
    }
}

/// The path of each operation kind; the model-listing path also serves
/// the liveness probe.
pub open spec fn spec_path(kind: OperationKind) -> Seq<char> {
    match kind {
        OperationKind::GenerateText => "/api/generate"@,
        OperationKind::Chat => "/api/chat"@,
        OperationKind::ListModels => "/api/tags"@,
        OperationKind::ModelDetails => "/api/show"@,
        OperationKind::Embeddings => "/api/embed"@,
        OperationKind::RunningModels => "/api/ps"@,
    }
}

pub fn endpoint_method(kind: OperationKind) -> (m: HttpMethod)
    ensures
        m == spec_method(kind),
{
    match kind {
        OperationKind::GenerateText => HttpMethod::Post,
        OperationKind::Chat => HttpMethod::Post,
        OperationKind::ListModels => HttpMethod::Get,
        OperationKind::ModelDetails => HttpMethod::Post,
        OperationKind::Embeddings => HttpMethod::Post,
        OperationKind::RunningModels => HttpMethod::Get,
    }
}

pub fn endpoint_path(kind: OperationKind) -> (p: &'static str)
    ensures
        p@ == spec_path(kind),
{
    match kind {
        OperationKind::GenerateText => "/api/generate",
        OperationKind::Chat => "/api/chat",
        OperationKind::ListModels => "/api/tags",
        OperationKind::ModelDetails => "/api/show",
        OperationKind::Embeddings => "/api/embed",
        OperationKind::RunningModels => "/api/ps",
    }
}

/// The full request address: the configured base address followed by
/// the operation's path.
pub fn request_url(base_url: &str, kind: OperationKind) -> (u: String)
    ensures
        u@ == base_url@ + spec_path(kind),
{
    let mut u = base_url.to_owned();
    u.append(endpoint_path(kind));
    u
}

/// One message of an ordered chat transcript.
pub struct ChatMessage {
    pub role: String,
    pub content: String,
}

/// Payload of a single-shot, non-streamed text generation.
pub struct GenerateRequest {
    pub model: String,
    pub prompt: String,
    pub stream: Option<bool>,
    pub system: Option<String>,
    pub template: Option<String>,
    pub context: Option<Vec<i32>>,
}

/// Payload of a chat completion over an ordered message list.
pub struct ChatRequest {
    pub model: String,
    pub messages: Vec<ChatMessage>,
    pub stream: Option<bool>,
}

/// Payload of a model-details lookup.
pub struct ShowRequest {
    pub name: String,
}

/// The embeddings input: one string or an array of strings.
pub enum EmbedInput {
    Single(String),
    Batch(Vec<String>),
}

/// Payload of an embeddings request.
pub struct EmbedRequest {
    pub model: String,
    pub input: EmbedInput,
    pub truncate: Option<bool>,
}

/// The body a dispatched request carries upstream.
pub enum RequestBody {
    Empty,
    Generate(GenerateRequest),
    Chat(ChatRequest),
    Show(ShowRequest),
    Embed(EmbedRequest),
}

/// Everything the transport layer needs to perform one round trip.
pub struct HttpRequest {
    pub method: HttpMethod,
    pub url: String,
    pub timeout_secs: u64,
    pub body: RequestBody,
}

pub fn build_generate_request(model: &str, prompt: String, system: Option<String>) -> (r: GenerateRequest)
    ensures
        r.model@ == normalized_name(model@),
        r.prompt == prompt,
        r.stream == Some(false),
        r.system == system,
        r.template is None,
        r.context is None,
{
    GenerateRequest {
        model: normalize_model_name(model),
        prompt,
        stream: Some(false),
        system,
        template: None,
        context: None,
    }
}

pub fn build_chat_request(model: &str, messages: Vec<ChatMessage>) -> (r: ChatRequest)
    ensures
        r.model@ == normalized_name(model@),
        r.messages == messages,
        r.stream == Some(false),
{
    ChatRequest { model: normalize_model_name(model), messages, stream: Some(false) }
}

pub fn build_show_request(model: &str) -> (r: ShowRequest)
    ensures
        r.name@ == normalized_name(model@),
{
    ShowRequest { name: normalize_model_name(model) }
}

pub fn build_embed_request(model: &str, input: EmbedInput) -> (r: EmbedRequest)
    ensures
        r.model@ == normalized_name(model@),
        r.input == input,
        r.truncate == Some(true),
{
    EmbedRequest { model: normalize_model_name(model), input, truncate: Some(true) }
}

} // verus!
