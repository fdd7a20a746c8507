//! Typed outcomes of completed operations, and the mapping from each
//! upstream reply to the outcome its continuation receives.

use vstd::prelude::*;
use vstd::string::StringExecFns;

verus! {

/// One entry of the model listing.
pub struct ModelSummary {
    pub name: String,
    pub modified_at: String,
    pub size: u64,
    pub digest: String,
}

/// One entry of the running-model listing.
pub struct RunningModelSummary {
    pub name: String,
    pub model: String,
    pub size: u64,
    pub digest: String,
    pub expires_at: Option<String>,
    pub size_vram: Option<u64>,
}

/// Decoded reply of a text generation.
pub struct GenerateReply {
    pub model: String,
    pub response: String,
}

/// Decoded reply of a chat completion.
pub struct ChatReply {
    pub model: String,
    pub content: String,
    pub role: String,
}

/// Decoded reply of a model-details lookup; every field is optional
/// upstream.
pub struct ShowReply {
    pub license: Option<String>,
    pub modelfile: Option<String>,
    pub parameters: Option<String>,
    pub template: Option<String>,
}

/// Decoded reply of an embeddings request.  Each inner value is the
/// IEEE-754 bit pattern of one vector component; the host converts
/// between bit patterns and its own number representation.
pub struct EmbedReply {
    pub model: String,
    pub embeddings_bits: Vec<Vec<u64>>,
}

/// The tagged outcome a continuation is invoked with: one success shape
/// per operation kind, or a single generic failure carrying a
/// human-readable message.
#[allow(inconsistent_fields)]
pub enum Outcome {
    Generate { response: String, model: String },
    Chat { content: String, role: String, model: String },
    ListModels { models: Vec<ModelSummary> },
    ModelInfo { license: String, modelfile: String, parameters: String, template: String },
    ModelAvailable { is_available: bool },
    Embeddings { model: String, embeddings_bits: Vec<Vec<u64>> },
    RunningModels { models: Vec<RunningModelSummary> },
    Failure { message: String },
}

/// The message delivered for a transport failure whose description is
/// `e`.
pub open spec fn failure_text(e: Seq<char>) -> Seq<char> {
    "Error: "@ + e
}

/// Wraps a transport-error description as the failure outcome.
pub fn failure_outcome(e: String) -> (o: Outcome)
    ensures
        o matches Outcome::Failure { message } && message@ == failure_text(e@),
{
    let mut message = String::from_str("Error: ");
    message.append(e.as_str());
    Outcome::Failure { message }
}

pub fn generate_outcome(result: Result<GenerateReply, String>) -> (o: Outcome)
    ensures
        match result {
            Ok(rep) => o == (Outcome::Generate { response: rep.response, model: rep.model }),
            Err(e) => o matches Outcome::Failure { message } && message@ == failure_text(e@),
        },
{
    match result {
        Ok(rep) => Outcome::Generate { response: rep.response, model: rep.model },
        Err(e) => failure_outcome(e),
    }
}

pub fn chat_outcome(result: Result<ChatReply, String>) -> (o: Outcome)
    ensures
        match result {
            Ok(rep) => o == (Outcome::Chat { content: rep.content, role: rep.role, model: rep.model }),
            Err(e) => o matches Outcome::Failure { message } && message@ == failure_text(e@),
        },
{
    match result {
        Ok(rep) => Outcome::Chat { content: rep.content, role: rep.role, model: rep.model },
        Err(e) => failure_outcome(e),
    }
}

pub fn list_models_outcome(result: Result<Vec<ModelSummary>, String>) -> (o: Outcome)
    ensures
        match result {
            Ok(models) => o == (Outcome::ListModels { models }),
            Err(e) => o matches Outcome::Failure { message } && message@ == failure_text(e@),
        },
{
    match result {
        Ok(models) => Outcome::ListModels { models },
        Err(e) => failure_outcome(e),
    }
}

/// The text of an optional reply field: the field itself, or empty when
/// the reply omits it.
pub open spec fn or_empty(field: Option<String>) -> Seq<char> {
    match field {
        Some(s) => s@,
        None => Seq::<char>::empty(),
    }
}

fn text_or_empty(field: Option<String>) -> (r: String)
    ensures
        r@ == or_empty(field),
{
    match field {
        Some(s) => s,
        None => String::new(),
    }
}

pub fn model_info_outcome(result: Result<ShowReply, String>) -> (o: Outcome)
    ensures
        match result {
            Ok(rep) => o matches Outcome::ModelInfo { license, modelfile, parameters, template }
                && license@ == or_empty(rep.license)
                && modelfile@ == or_empty(rep.modelfile)
                && parameters@ == or_empty(rep.parameters)
                && template@ == or_empty(rep.template),
            Err(e) => o matches Outcome::Failure { message } && message@ == failure_text(e@),
        },
{
    match result {
        Ok(rep) => Outcome::ModelInfo {
            license: text_or_empty(rep.license),
            modelfile: text_or_empty(rep.modelfile),
            parameters: text_or_empty(rep.parameters),
            template: text_or_empty(rep.template),
        },
        Err(e) => failure_outcome(e),
    }
}

/// True when the listing names a model called `name`.
pub open spec fn model_listed(models: Seq<ModelSummary>, name: Seq<char>) -> bool {
    exists|i: int| 0 <= i < models.len() && models[i].name@ == name
}

/// Whether the listing names a model called `target`.
pub fn is_model_listed(models: &Vec<ModelSummary>, target: &String) -> (b: bool)
    ensures
        b == model_listed(models@, target@),
{
    let n = models.len();
    let mut i: usize = 0;
    let mut found = false;
    while i < n
        invariant
            i <= n,
            n == models@.len(),
            found <==> exists|j: int| 0 <= j < i && models@[j].name@ == target@,
        decreases n - i,
    {
        if models[i].name == *target {
            found = true;
        }
        i += 1;
    }
    found
}

/// The outcome of an availability check for the (already normalized)
/// model name `target`: whether the fetched listing names it.
pub fn availability_outcome(result: Result<Vec<ModelSummary>, String>, target: &String) -> (o: Outcome)
    ensures
        match result {
            Ok(models) => o == (Outcome::ModelAvailable { is_available: model_listed(models@, target@) }),
            Err(e) => o matches Outcome::Failure { message } && message@ == failure_text(e@),
        },
{
    match result {
        Ok(models) => {
            let is_available = is_model_listed(&models, target);
            Outcome::ModelAvailable { is_available }
        },
        Err(e) => failure_outcome(e),
    }
}

pub fn embeddings_outcome(result: Result<EmbedReply, String>) -> (o: Outcome)
    ensures
        match result {
            Ok(rep) => o == (Outcome::Embeddings { model: rep.model, embeddings_bits: rep.embeddings_bits }),
            Err(e) => o matches Outcome::Failure { message } && message@ == failure_text(e@),
        },
{
    match result {
        Ok(rep) => Outcome::Embeddings { model: rep.model, embeddings_bits: rep.embeddings_bits },
        Err(e) => failure_outcome(e),
    }
}

pub fn running_models_outcome(result: Result<Vec<RunningModelSummary>, String>) -> (o: Outcome)
    ensures
        match result {
            Ok(models) => o == (Outcome::RunningModels { models }),
            Err(e) => o matches Outcome::Failure { message } && message@ == failure_text(e@),
        },
{
    match result {
        Ok(models) => Outcome::RunningModels { models },
        Err(e) => failure_outcome(e),
    }
}

/// The argument pair a continuation is invoked with: the failure
/// message and no payload for a failure, no message and the success
/// payload otherwise.
pub fn continuation_args(outcome: Outcome) -> (r: (Option<String>, Option<Outcome>))
    ensures
        outcome matches Outcome::Failure { message } ==> r == (Some(message), None::<Outcome>),
        !(outcome is Failure) ==> r == (None::<String>, Some(outcome)),
{
    match outcome {
        Outcome::Failure { message } => (Some(message), None),
        other => (None, Some(other)),
    }
}

} // verus!
