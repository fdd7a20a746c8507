use ollama_bridge::bridge::Bridge;
use ollama_bridge::bridge::CallbackArg;
use ollama_bridge::bridge::ChatMessagesArg;
use ollama_bridge::bridge::CompletionError;
use ollama_bridge::bridge::Decoder;
use ollama_bridge::bridge::ValidationError;
use ollama_bridge::liveness::LivenessDecision;
use ollama_bridge::outcome::Outcome;
use ollama_bridge::outcome::list_models_outcome;
use ollama_bridge::protocol::EmbedInput;
use ollama_bridge::protocol::HttpMethod;
use ollama_bridge::protocol::RequestBody;

#[test]
fn fresh_bridge_uses_default_settings() {
    let b = Bridge::new();
    assert_eq!(b.config.base_url, "http://localhost:11434");
    assert_eq!(b.config.timeout_secs, 30);
    assert!(b.client.is_none());
}

#[test]
fn dispatch_targets_current_address() {
    let mut b = Bridge::new();
    let p = b.dispatch_list_models(CallbackArg::Function).unwrap();
    assert_eq!(p.request.url, "http://localhost:11434/api/tags");
    assert_eq!(p.request.method, HttpMethod::Get);
    assert_eq!(p.request.timeout_secs, 30);
}

#[test]
fn config_change_discards_client_and_uses_new_address() {
    let mut b = Bridge::new();
    let before = b.dispatch_list_models(CallbackArg::Function).unwrap();
    assert_eq!(before.request.url, "http://localhost:11434/api/tags");
    assert!(b.client.is_some(), "first dispatch cached a client");

    b.set_config(String::from("http://10.0.0.5:11434"), Some(5));
    assert!(b.client.is_none(), "replacement discards the cached client");

    let after = b.dispatch_list_models(CallbackArg::Function).unwrap();
    assert_eq!(after.request.url, "http://10.0.0.5:11434/api/tags");
    assert_eq!(after.request.timeout_secs, 5);
}

#[test]
fn config_change_without_timeout_uses_default() {
    let mut b = Bridge::new();
    b.set_config(String::from("http://example.test:11434"), None);
    assert_eq!(b.config.timeout_secs, 30);
}

#[test]
fn missing_callback_fails_synchronously_with_no_queued_result() {
    let mut b = Bridge::new();
    let r = b.dispatch_generate("llama3", String::from("hi"), None, CallbackArg::Absent);
    match r {
        Err(e) => {
            assert!(matches!(e, ValidationError::CallbackRequired));
            assert_eq!(e.message(), "Callback function is required");
        },
        Ok(_) => panic!("a dispatch without a continuation must fail synchronously"),
    }
    assert_eq!(b.registry.handle_count(), 0, "no handle was registered");
    assert_eq!(b.queue.len(), 0, "no result was queued");
}

#[test]
fn non_function_callback_fails_synchronously() {
    let mut b = Bridge::new();
    let r = b.dispatch_model_info("llama3", CallbackArg::NotAFunction);
    assert!(matches!(r, Err(ValidationError::CallbackRequired)));
    assert_eq!(b.registry.handle_count(), 0);
    assert_eq!(b.queue.len(), 0);
}

#[test]
fn chat_rejects_a_missing_message_table_first() {
    let mut b = Bridge::new();
    let r = b.dispatch_chat("llama3", ChatMessagesArg::NotATable, CallbackArg::Absent);
    match r {
        Err(e) => {
            assert!(matches!(e, ValidationError::MessagesTableRequired));
            assert_eq!(e.message(), "Second argument must be a table of messages");
        },
        Ok(_) => panic!("a chat without a message table must fail synchronously"),
    }
    assert_eq!(b.registry.handle_count(), 0);
}

#[test]
fn model_name_submitted_upstream_is_normalized() {
    let mut b = Bridge::new();
    let p = b
        .dispatch_generate("llama3", String::from("hi"), None, CallbackArg::Function)
        .unwrap();
    match p.request.body {
        RequestBody::Generate(g) => assert_eq!(g.model, "llama3:latest"),
        _ => panic!("generate body expected"),
    }

    let p = b
        .dispatch_generate("llama3:8b", String::from("hi"), None, CallbackArg::Function)
        .unwrap();
    match p.request.body {
        RequestBody::Generate(g) => assert_eq!(g.model, "llama3:8b"),
        _ => panic!("generate body expected"),
    }
}

#[test]
fn availability_dispatch_remembers_normalized_target() {
    let mut b = Bridge::new();
    let p = b.dispatch_model_available("mistral", CallbackArg::Function).unwrap();
    assert_eq!(p.request.url, "http://localhost:11434/api/tags");
    match p.decoder {
        Decoder::ModelAvailable { target } => assert_eq!(target, "mistral:latest"),
        _ => panic!("availability decoder expected"),
    }
}

#[test]
fn embeddings_dispatch_builds_embed_body() {
    let mut b = Bridge::new();
    let p = b
        .dispatch_embeddings("m", EmbedInput::Single(String::from("text")), CallbackArg::Function)
        .unwrap();
    assert_eq!(p.request.url, "http://localhost:11434/api/embed");
    assert_eq!(p.request.method, HttpMethod::Post);
    match p.request.body {
        RequestBody::Embed(e) => {
            assert_eq!(e.model, "m:latest");
            assert_eq!(e.truncate, Some(true));
        },
        _ => panic!("embed body expected"),
    }
}

#[test]
fn batch_of_dispatches_drains_each_handle_exactly_once() {
    let mut b = Bridge::new();
    let p1 = b.dispatch_list_models(CallbackArg::Function).unwrap();
    let p2 = b
        .dispatch_generate("llama3", String::from("hi"), None, CallbackArg::Function)
        .unwrap();
    let p3 = b.dispatch_running_models(CallbackArg::Function).unwrap();
    assert_eq!(b.registry.handle_count(), 3);
    assert_eq!(b.queue.len(), 0, "nothing is queued before completion");

    // Completion order differs from submission order.
    b.complete(p2.handle, Outcome::Generate {
        response: String::from("hi"),
        model: String::from("llama3:latest"),
    })
    .unwrap();
    b.complete(p3.handle, Outcome::RunningModels { models: Vec::new() }).unwrap();
    b.complete(p1.handle, Outcome::ListModels { models: Vec::new() }).unwrap();
    assert_eq!(b.queue.len(), 3, "exactly one entry per dispatch");

    let drained = b.drain();
    assert_eq!(drained.len(), 3);
    // Delivery in completion order, each handle exactly once.
    assert_eq!(drained[0].handle, p2.handle);
    assert_eq!(drained[1].handle, p3.handle);
    assert_eq!(drained[2].handle, p1.handle);
    assert_eq!(b.queue.len(), 0, "the drain pass empties the queue");

    // A second drain pass has nothing left to deliver.
    let again = b.drain();
    assert!(again.is_empty());

    // A resolved handle can never be completed again.
    let r = b.complete(p1.handle, Outcome::ListModels { models: Vec::new() });
    assert!(matches!(r, Err(CompletionError::UnknownHandle)));
}

#[test]
fn duplicate_completion_is_rejected() {
    let mut b = Bridge::new();
    let p = b.dispatch_list_models(CallbackArg::Function).unwrap();
    b.complete(p.handle, Outcome::ListModels { models: Vec::new() }).unwrap();
    let r = b.complete(p.handle, Outcome::ListModels { models: Vec::new() });
    assert!(matches!(r, Err(CompletionError::DuplicateCompletion)));
    assert_eq!(b.queue.len(), 1, "the first completion is kept, the duplicate dropped");
}

#[test]
fn unknown_handle_completion_is_rejected() {
    let mut b = Bridge::new();
    let r = b.complete(7, Outcome::ListModels { models: Vec::new() });
    assert!(matches!(r, Err(CompletionError::UnknownHandle)));
    assert_eq!(b.queue.len(), 0);
}

#[test]
fn unreachable_address_delivers_error_first_arguments() {
    let mut b = Bridge::new();
    b.set_config(String::from("http://127.0.0.1:1"), Some(1));
    let p = b.dispatch_list_models(CallbackArg::Function).unwrap();
    assert_eq!(p.request.url, "http://127.0.0.1:1/api/tags");

    // The background unit reports the round trip as a transport failure.
    let outcome = list_models_outcome(Err(String::from("connection refused")));
    b.complete(p.handle, outcome).unwrap();

    let drained = b.drain();
    assert_eq!(drained.len(), 1);
    let (err, payload) = ollama_bridge::outcome::continuation_args(
        drained.into_iter().next().unwrap().outcome,
    );
    assert_eq!(err, Some(String::from("Error: connection refused")));
    assert!(payload.is_none(), "the continuation sees (errorMessage, nil)");
}

#[test]
fn failing_continuation_does_not_block_the_rest_of_the_batch() {
    let mut b = Bridge::new();
    let p1 = b.dispatch_list_models(CallbackArg::Function).unwrap();
    let p2 = b.dispatch_running_models(CallbackArg::Function).unwrap();
    b.complete(p1.handle, Outcome::ListModels { models: Vec::new() }).unwrap();
    b.complete(p2.handle, Outcome::RunningModels { models: Vec::new() }).unwrap();

    // The host's drain loop isolates each continuation: a failure in the
    // first is reported non-fatally and the loop goes on.
    let mut invoked = Vec::new();
    let mut reported = Vec::new();
    for entry in b.drain() {
        let fails = entry.handle == p1.handle;
        if fails {
            reported.push(entry.handle);
        } else {
            invoked.push(entry.handle);
        }
    }
    assert_eq!(reported, vec![p1.handle], "the first continuation failed");
    assert_eq!(invoked, vec![p2.handle], "the second entry was still delivered");
}

#[test]
fn liveness_decisions_through_the_bridge() {
    let mut b = Bridge::new();
    assert!(matches!(b.liveness_query(0), LivenessDecision::SyncProbe));

    let probe = b.probe_request();
    assert_eq!(probe.url, "http://localhost:11434/api/tags");

    b.record_liveness(true, 4);
    assert!(matches!(
        b.liveness_query(5),
        LivenessDecision::Cached { value: true, refresh: false }
    ));
    assert!(matches!(
        b.liveness_query(6),
        LivenessDecision::Cached { value: true, refresh: true }
    ));
}
