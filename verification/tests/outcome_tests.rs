use ollama_bridge::outcome::EmbedReply;
use ollama_bridge::outcome::GenerateReply;
use ollama_bridge::outcome::ModelSummary;
use ollama_bridge::outcome::Outcome;
use ollama_bridge::outcome::ShowReply;
use ollama_bridge::outcome::availability_outcome;
use ollama_bridge::outcome::continuation_args;
use ollama_bridge::outcome::embeddings_outcome;
use ollama_bridge::outcome::generate_outcome;
use ollama_bridge::outcome::model_info_outcome;

fn summary(name: &str) -> ModelSummary {
    ModelSummary {
        name: String::from(name),
        modified_at: String::from("2024-01-01T00:00:00Z"),
        size: 42,
        digest: String::from("sha256:abc"),
    }
}

#[test]
fn generate_success_keeps_reply_fields() {
    let o = generate_outcome(Ok(GenerateReply {
        model: String::from("llama3:latest"),
        response: String::from("hi there"),
    }));
    match o {
        Outcome::Generate { response, model } => {
            assert_eq!(response, "hi there");
            assert_eq!(model, "llama3:latest");
        },
        _ => panic!("success outcome expected"),
    }
}

#[test]
fn transport_failure_message_is_prefixed() {
    let o = generate_outcome(Err(String::from("connection refused")));
    match o {
        Outcome::Failure { message } => assert_eq!(message, "Error: connection refused"),
        _ => panic!("failure outcome expected"),
    }
}

#[test]
fn model_info_missing_fields_become_empty() {
    let o = model_info_outcome(Ok(ShowReply {
        license: None,
        modelfile: Some(String::from("FROM llama3")),
        parameters: None,
        template: None,
    }));
    match o {
        Outcome::ModelInfo { license, modelfile, parameters, template } => {
            assert_eq!(license, "");
            assert_eq!(modelfile, "FROM llama3");
            assert_eq!(parameters, "");
            assert_eq!(template, "");
        },
        _ => panic!("model info expected"),
    }
}

#[test]
fn availability_found_and_missing() {
    let listing = vec![summary("llama3:latest"), summary("mistral:7b")];
    let o = availability_outcome(Ok(listing), &String::from("mistral:7b"));
    assert!(matches!(o, Outcome::ModelAvailable { is_available: true }));

    let listing = vec![summary("llama3:latest")];
    let o = availability_outcome(Ok(listing), &String::from("mistral:7b"));
    assert!(matches!(o, Outcome::ModelAvailable { is_available: false }));
}

#[test]
fn availability_of_empty_listing() {
    let o = availability_outcome(Ok(Vec::new()), &String::from("llama3:latest"));
    assert!(matches!(o, Outcome::ModelAvailable { is_available: false }));
}

#[test]
fn embedding_bit_patterns_survive_the_round_trip() {
    let values = vec![1.5f64, -0.25f64, 0.0f64];
    let bits: Vec<u64> = values.iter().map(|v| v.to_bits()).collect();
    let o = embeddings_outcome(Ok(EmbedReply {
        model: String::from("m:latest"),
        embeddings_bits: vec![bits],
    }));
    match o {
        Outcome::Embeddings { model, embeddings_bits } => {
            assert_eq!(model, "m:latest");
            let back: Vec<f64> = embeddings_bits[0].iter().map(|b| f64::from_bits(*b)).collect();
            assert_eq!(back, values);
        },
        _ => panic!("embeddings outcome expected"),
    }
}

#[test]
fn continuation_args_follow_the_error_first_convention() {
    let (err, payload) = continuation_args(Outcome::Failure {
        message: String::from("Error: timed out"),
    });
    assert_eq!(err, Some(String::from("Error: timed out")));
    assert!(payload.is_none());

    let (err, payload) = continuation_args(Outcome::ModelAvailable { is_available: true });
    assert!(err.is_none());
    assert!(matches!(payload, Some(Outcome::ModelAvailable { is_available: true })));
}
