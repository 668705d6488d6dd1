//! Generation orchestration: fallback, exhaustion, and history attribution.

use slay_bot::common::Model;
use slay_bot::errors::ApiError;
use slay_bot::generation_controller::GenerationController;
use slay_bot::repo::message_history_storage::{HistoryEntry, MessageHistoryStorage};

/// Drives one whole fallback pass: each provider's scripted outcome is looked
/// up, and the first success is recorded.
fn drive(
    controller: &mut GenerationController,
    outcome_of: impl Fn(Model) -> Option<String>,
) -> Result<(String, Model), ApiError> {
    let mut run = match controller.begin_generation() {
        Ok(run) => run,
        Err(e) => return Err(e),
    };
    loop {
        match run.current_model() {
            Some(model) => match outcome_of(model) {
                Some(text) => {
                    controller.record_success(model, &text);
                    return Ok((text, model));
                }
                None => run.report_failure(),
            },
            None => return Err(run.exhausted_error()),
        }
    }
}

#[test]
fn generation_fallback_unique_success() {
    // whatever permutation the shuffle picks, the one succeeding provider wins
    for _ in 0..20 {
        let mut controller = GenerationController::new(
            vec![Model::Gigachat, Model::Mistral, Model::Grok],
            MessageHistoryStorage::new(),
        );
        let (text, model) = drive(&mut controller, |m| {
            if m == Model::Mistral {
                Some("rephrased".to_string())
            } else {
                None
            }
        })
        .unwrap();
        assert_eq!(model, Model::Mistral);
        assert_eq!(text, "rephrased");
        assert_eq!(controller.get_message_info("rephrased"), Some(Model::Mistral));
    }
}

#[test]
fn generation_exhaustion() {
    let mut empty = GenerationController::new(Vec::new(), MessageHistoryStorage::new());
    assert!(matches!(drive(&mut empty, |_| None), Err(ApiError::NoProviders)));

    let mut controller = GenerationController::new(
        vec![Model::Gigachat, Model::Mistral, Model::Grok],
        MessageHistoryStorage::new(),
    );
    assert!(matches!(
        drive(&mut controller, |_| None),
        Err(ApiError::AllProvidersFailed)
    ));
}

#[test]
fn every_provider_is_tried_once() {
    // the per-request order is a permutation of the pool: a failing pass
    // visits each provider exactly once
    let mut controller = GenerationController::new(
        vec![Model::Gigachat, Model::Mistral, Model::Grok],
        MessageHistoryStorage::new(),
    );
    let mut run = controller.begin_generation().unwrap();
    let mut seen: Vec<Model> = Vec::new();
    while let Some(model) = run.current_model() {
        seen.push(model);
        run.report_failure();
    }
    assert_eq!(seen.len(), 3);
    assert!(seen.contains(&Model::Gigachat));
    assert!(seen.contains(&Model::Mistral));
    assert!(seen.contains(&Model::Grok));
}

#[test]
fn history_attribution_until_eviction() {
    let mut controller = GenerationController::new(
        vec![Model::Grok],
        MessageHistoryStorage::with_capacity(3),
    );
    controller.record_success(Model::Grok, "the text");
    assert_eq!(controller.get_message_info("the text"), Some(Model::Grok));

    // still attributable while the buffer has room
    controller.record_success(Model::Mistral, "other 1");
    controller.record_success(Model::Gigachat, "other 2");
    assert_eq!(controller.get_message_info("the text"), Some(Model::Grok));

    // one more recording evicts the oldest entry
    controller.record_success(Model::Mistral, "other 3");
    assert_eq!(controller.get_message_info("the text"), None);
    assert_eq!(controller.get_message_info("other 3"), Some(Model::Mistral));
    assert_eq!(controller.get_message_info("never generated"), None);
}

#[test]
fn newest_entry_wins_attribution() {
    let mut storage = MessageHistoryStorage::new();
    storage.add_message(HistoryEntry::new(Model::Grok, "same".to_string()));
    storage.add_message(HistoryEntry::new(Model::Mistral, "same".to_string()));
    assert_eq!(storage.get_message_info("same"), Some(Model::Mistral));
}
