use news_classifier::batcher::{TextClassificationBatch, TextClassificationBatcher};
use news_classifier::serving::{
    accepts_requests, batcher_for, check_sequence_length, classes_from_predictions, next_state,
    prepare_batch, validate_texts, InvariantViolation, ServeError, ServingState, StartupError,
    StartupEvent,
};

fn loaded(
    max_seq_length: usize,
    n_classes: usize,
    vocab_size: usize,
    model_vocab_size: usize,
    model_max_seq_length: usize,
) -> StartupEvent {
    StartupEvent::ArtifactLoaded {
        max_seq_length,
        n_classes,
        vocab_size,
        model_vocab_size,
        model_max_seq_length,
    }
}

#[test]
fn same_request_batched_twice_is_identical() {
    let batcher = TextClassificationBatcher::new(3, 0);
    let encoded = vec![vec![4, 5], vec![6, 7, 8, 9]];
    let a = prepare_batch(&batcher, &encoded).unwrap();
    let b = prepare_batch(&batcher, &encoded).unwrap();
    assert_eq!(a.tokens, b.tokens);
    assert_eq!(a.mask_pad, b.mask_pad);
    assert_eq!(a.batch_size(), 2);
}

#[test]
fn empty_text_list_is_rejected() {
    assert_eq!(validate_texts(&vec![]), Err(ServeError::RequestValidation));
}

#[test]
fn non_empty_text_list_is_accepted() {
    assert_eq!(validate_texts(&vec!["Sports story about a championship game.".to_string()]), Ok(()));
}

#[test]
fn empty_request_never_reaches_batch() {
    let batcher = TextClassificationBatcher::new(4, 0);
    assert!(matches!(prepare_batch(&batcher, &vec![]), Err(ServeError::RequestValidation)));
}

#[test]
fn request_is_batched_in_order() {
    let batcher = TextClassificationBatcher::new(2, 0);
    let batch = prepare_batch(&batcher, &vec![vec![3, 4, 5], vec![6]]).unwrap();
    assert_eq!(batch.tokens, vec![vec![3, 4], vec![6, 0]]);
    assert_eq!(batch.mask_pad, vec![vec![false, false], vec![false, true]]);
}

#[test]
fn sports_prediction_is_named_sports() {
    assert_eq!(classes_from_predictions(1, &vec![1]), Ok(vec!["Sports".to_string()]));
}

#[test]
fn predictions_keep_row_order() {
    let names = classes_from_predictions(4, &vec![3, 0, 2, 0]).unwrap();
    assert_eq!(names, vec!["Technology", "World", "Business", "World"]);
}

#[test]
fn two_requests_answered_independently() {
    let a = classes_from_predictions(2, &vec![1, 2]).unwrap();
    let b = classes_from_predictions(3, &vec![0, 1, 3]).unwrap();
    assert_eq!(a, vec!["Sports", "Business"]);
    assert_eq!(b, vec!["World", "Sports", "Technology"]);
}

#[test]
fn out_of_range_prediction_is_invariant_error() {
    assert_eq!(
        classes_from_predictions(3, &vec![1, 4, 9]),
        Err(ServeError::InternalInvariant(InvariantViolation::ClassOutOfRange { index: 4 }))
    );
}

#[test]
fn wrong_row_count_is_invariant_error() {
    assert_eq!(
        classes_from_predictions(2, &vec![1]),
        Err(ServeError::InternalInvariant(InvariantViolation::RowCountMismatch {
            expected: 2,
            found: 1
        }))
    );
}

#[test]
fn batch_of_model_length_passes_check() {
    let batch = TextClassificationBatcher::new(3, 0).batch(&vec![vec![1], vec![2, 3, 4, 5]]);
    assert_eq!(check_sequence_length(&batch, 3), Ok(()));
}

#[test]
fn batch_of_other_length_fails_check() {
    let batch = TextClassificationBatcher::new(3, 0).batch(&vec![vec![1], vec![2]]);
    assert_eq!(
        check_sequence_length(&batch, 5),
        Err(ServeError::InternalInvariant(InvariantViolation::SequenceLengthMismatch {
            expected: 5,
            row: 0
        }))
    );
}

#[test]
fn ragged_batch_names_first_bad_row() {
    let batch = TextClassificationBatch {
        tokens: vec![vec![1, 0], vec![2, 3, 4]],
        mask_pad: vec![vec![false, true], vec![false, false, false]],
    };
    assert_eq!(
        check_sequence_length(&batch, 2),
        Err(ServeError::InternalInvariant(InvariantViolation::SequenceLengthMismatch {
            expected: 2,
            row: 1
        }))
    );
}

#[test]
fn startup_reaches_ready_with_consistent_artifact() {
    let s = next_state(ServingState::Uninitialized, StartupEvent::Begin);
    assert_eq!(s, ServingState::Loading);
    let s = next_state(s, loaded(256, 4, 28996, 28996, 256));
    assert_eq!(s, ServingState::Ready { max_seq_length: 256 });
    assert!(accepts_requests(s));
    let b = batcher_for(s, 0).unwrap();
    assert_eq!(b.max_seq_length, 256);
    assert_eq!(b.pad_token, 0);
}

#[test]
fn missing_artifact_never_reaches_ready() {
    let s = next_state(ServingState::Uninitialized, StartupEvent::Begin);
    let s = next_state(s, StartupEvent::LoadFailed(StartupError::ArtifactMissing));
    assert_eq!(s, ServingState::Failed(StartupError::ArtifactMissing));
    assert!(!accepts_requests(s));
    assert!(batcher_for(s, 0).is_none());
    let s = next_state(s, loaded(256, 4, 28996, 28996, 256));
    assert_eq!(s, ServingState::Failed(StartupError::ArtifactMissing));
}

#[test]
fn wrong_class_count_is_startup_error() {
    let s = next_state(ServingState::Loading, loaded(128, 14, 28996, 28996, 128));
    assert_eq!(s, ServingState::Failed(StartupError::ClassCountMismatch { n_classes: 14 }));
}

#[test]
fn wrong_vocab_size_is_startup_error() {
    let s = next_state(ServingState::Loading, loaded(128, 4, 28996, 30522, 128));
    assert_eq!(
        s,
        ServingState::Failed(StartupError::VocabSizeMismatch { expected: 28996, found: 30522 })
    );
}

#[test]
fn wrong_weight_sequence_length_is_startup_error() {
    let s = next_state(ServingState::Loading, loaded(128, 4, 28996, 28996, 512));
    assert_eq!(
        s,
        ServingState::Failed(StartupError::SequenceLengthMismatch { expected: 128, found: 512 })
    );
}

#[test]
fn ready_is_terminal() {
    let ready = ServingState::Ready { max_seq_length: 64 };
    assert_eq!(next_state(ready, StartupEvent::Begin), ready);
    assert_eq!(next_state(ready, StartupEvent::LoadFailed(StartupError::ConfigMalformed)), ready);
}

#[test]
fn uninitialized_is_not_serving() {
    assert!(!accepts_requests(ServingState::Uninitialized));
    assert!(!accepts_requests(ServingState::Loading));
}
