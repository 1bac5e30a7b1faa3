use vstd::prelude::*;

use crate::batcher::{spec_rows, TextClassificationBatch, TextClassificationBatcher};
use crate::labels::{
    class_enumeration, class_name, lemma_class_name_in_enumeration, num_classes, spec_class_name,
    spec_num_classes,
};

verus! {

/// A defect in the pipeline itself: it can only come from a training/serving artifact mismatch.
#[derive(Clone, Copy, Debug, PartialEq, Eq, Structural)]
pub enum InvariantViolation {
    /// The model predicted a class index outside the known enumeration.
    ClassOutOfRange { index: usize },
    /// The model returned a number of rows other than the number of input texts.
    RowCountMismatch { expected: usize, found: usize },
    /// Batch row `row` does not have the sequence length the model was configured with.
    SequenceLengthMismatch { expected: usize, row: usize },
}

/// Why one request was not answered with a list of classes.
#[derive(Clone, Copy, Debug, PartialEq, Eq, Structural)]
pub enum ServeError {
    /// The request was malformed, e.g. its list of texts was empty.
    RequestValidation,
    /// The pipeline broke one of its own invariants.
    InternalInvariant(InvariantViolation),
    /// The numeric computation failed or timed out.
    ComputeFailure,
}

/// Why the serving layer did not become ready.
#[derive(Clone, Copy, Debug, PartialEq, Eq, Structural)]
pub enum StartupError {
    /// The artifact directory or one of its files is absent.
    ArtifactMissing,
    /// The configuration could not be read.
    ConfigMalformed,
    /// The weights were trained for `n_classes` classes, not for the known enumeration.
    ClassCountMismatch { n_classes: usize },
    /// The weights' vocabulary size `found` differs from the tokenizer's, `expected`.
    VocabSizeMismatch { expected: usize, found: usize },
    /// The weights' sequence length `found` differs from the configured one, `expected`.
    SequenceLengthMismatch { expected: usize, found: usize },
}

/// The names of `predictions`, one per row, in row order.
pub open spec fn spec_classes(predictions: Seq<usize>) -> Seq<Seq<char>> {
    Seq::new(predictions.len(), |i: int| spec_class_name(predictions[i] as nat))
}

/// Every prediction lies inside the class enumeration.
pub open spec fn all_in_range(predictions: Seq<usize>) -> bool {
    forall|i: int| 0 <= i < predictions.len() ==> #[trigger] predictions[i] < spec_num_classes()
}

/// The first prediction, in row order, that lies outside the class enumeration.
pub open spec fn first_out_of_range(predictions: Seq<usize>) -> Option<usize>
    decreases predictions.len(),
{
    if predictions.len() == 0 {
        None
    } else if predictions[0] >= spec_num_classes() {
        Some(predictions[0])
    } else {
        first_out_of_range(predictions.drop_first())
    }
}

/// A list of predictions has no out-of-range entry exactly when all of them are in range.
proof fn lemma_first_out_of_range_none(predictions: Seq<usize>)
    ensures
        first_out_of_range(predictions) is None <==> all_in_range(predictions),
    decreases predictions.len(),
{
    if predictions.len() > 0 {
        lemma_first_out_of_range_none(predictions.drop_first());
        if predictions[0] < spec_num_classes() && all_in_range(predictions.drop_first()) {
            assert forall|i: int| 0 <= i < predictions.len() implies #[trigger] predictions[i]
                < spec_num_classes() by {
                if i > 0 {
                    assert(predictions[i] == predictions.drop_first()[i - 1]);
                }
            }
        }
        if all_in_range(predictions) {
            assert forall|i: int| 0 <= i < predictions.drop_first().len() implies
                #[trigger] predictions.drop_first()[i] < spec_num_classes() by {
                assert(predictions.drop_first()[i] == predictions[i + 1]);
            }
        }
    }
}

/// Checks a decoded request before any work is done: its list of texts must not be empty.
pub fn validate_texts(texts: &Vec<String>) -> (r: Result<(), ServeError>)
    ensures
        r is Ok <==> texts@.len() > 0,
        r is Err ==> r == Err::<(), ServeError>(ServeError::RequestValidation),
{
    if texts.len() == 0 {
        Err(ServeError::RequestValidation)
    } else {
        Ok(())
    }
}

/// Batches the tokenized texts of one request; an empty request is rejected and never reaches
/// the model.
pub fn prepare_batch(batcher: &TextClassificationBatcher, encoded: &Vec<Vec<usize>>) -> (r: Result<
    TextClassificationBatch,
    ServeError,
>)
    ensures
        r is Ok <==> encoded@.len() > 0,
        encoded@.len() == 0 <==> r == Err::<TextClassificationBatch, ServeError>(
            ServeError::RequestValidation,
        ),
        r matches Ok(b) ==> b.encodes(
            spec_rows(encoded@),
            batcher.max_seq_length as nat,
            batcher.pad_token,
        ),
{
    if encoded.len() == 0 {
        Err(ServeError::RequestValidation)
    } else {
        Ok(batcher.batch(encoded))
    }
}

/// Maps the predicted class index of each row to its name, keeping row order.
pub fn classes_from_predictions(n_texts: usize, predictions: &Vec<usize>) -> (r: Result<
    Vec<String>,
    ServeError,
>)
    ensures
        predictions@.len() != n_texts <==> r == Err::<Vec<String>, ServeError>(
            ServeError::InternalInvariant(
                InvariantViolation::RowCountMismatch {
                    expected: n_texts,
                    found: predictions@.len() as usize,
                },
            ),
        ),
        r is Ok <==> predictions@.len() == n_texts && all_in_range(predictions@),
        r matches Ok(names) ==> names@.len() == n_texts && forall|i: int|
            0 <= i < n_texts ==> #[trigger] names@[i]@ == spec_classes(predictions@)[i],
        predictions@.len() == n_texts ==> match first_out_of_range(predictions@) {
            Some(index) => r == Err::<Vec<String>, ServeError>(
                ServeError::InternalInvariant(InvariantViolation::ClassOutOfRange { index }),
            ),
            None => r is Ok,
        },
{
    if predictions.len() != n_texts {
        return Err(
            ServeError::InternalInvariant(
                InvariantViolation::RowCountMismatch { expected: n_texts, found: predictions.len() },
            ),
        );
    }
    let mut names: Vec<String> = Vec::with_capacity(n_texts);
    let mut i: usize = 0;
    proof {
        assert(predictions@.skip(0) =~= predictions@);
    }
    while i < predictions.len()
        invariant
            i <= predictions@.len(),
            predictions@.len() == n_texts,
            names@.len() == i,
            all_in_range(predictions@.take(i as int)),
            first_out_of_range(predictions@) == first_out_of_range(predictions@.skip(i as int)),
            forall|k: int|
                0 <= k < i ==> #[trigger] names@[k]@ == spec_class_name(predictions@[k] as nat),
        decreases predictions@.len() - i,
    {
        let label = predictions[i];
        proof {
            assert(predictions@.skip(i as int)[0] == label);
            assert(predictions@.skip(i as int).drop_first() =~= predictions@.skip(i + 1));
            lemma_first_out_of_range_none(predictions@);
        }
        if label >= num_classes() {
            return Err(
                ServeError::InternalInvariant(InvariantViolation::ClassOutOfRange { index: label }),
            );
        }
        names.push(class_name(label));
        proof {
            assert(all_in_range(predictions@.take(i + 1))) by {
                assert forall|k: int| 0 <= k < i + 1 implies #[trigger] predictions@.take(
                    i + 1,
                )[k] < spec_num_classes() by {
                    if k < i {
                        assert(predictions@.take(i as int)[k] == predictions@[k]);
                    }
                }
            }
        }
        i = i + 1;
    }
    proof {
        assert(predictions@.take(i as int) =~= predictions@);
        lemma_first_out_of_range_none(predictions@);
    }
    Ok(names)
}

/// Row `k` of `batch` is present both in the ids and in the mask, with `len` positions in each.
pub open spec fn row_has_length(batch: TextClassificationBatch, k: int, len: nat) -> bool {
    &&& k < batch.tokens@.len()
    &&& k < batch.mask_pad@.len()
    &&& batch.tokens@[k]@.len() == len
    &&& batch.mask_pad@[k]@.len() == len
}

/// Checks, before the forward pass, that every row of `batch` has the model's sequence length;
/// otherwise names the first row that does not.
pub fn check_sequence_length(batch: &TextClassificationBatch, expected: usize) -> (r: Result<
    (),
    ServeError,
>)
    ensures
        r is Ok <==> batch.is_rectangular(expected as nat),
        r matches Err(e) ==> exists|row: usize|
            e == ServeError::InternalInvariant(
                InvariantViolation::SequenceLengthMismatch { expected, row },
            ) && !row_has_length(*batch, row as int, expected as nat) && forall|k: int|
                0 <= k < row ==> #[trigger] row_has_length(*batch, k, expected as nat),
{
    let n: usize = if batch.tokens.len() >= batch.mask_pad.len() {
        batch.tokens.len()
    } else {
        batch.mask_pad.len()
    };
    let mut i: usize = 0;
    while i < n
        invariant
            i <= n,
            n == batch.tokens@.len() || n == batch.mask_pad@.len(),
            n >= batch.tokens@.len() && n >= batch.mask_pad@.len(),
            forall|k: int| 0 <= k < i ==> #[trigger] row_has_length(*batch, k, expected as nat),
        decreases n - i,
    {
        if i >= batch.tokens.len() || i >= batch.mask_pad.len() || batch.tokens[i].len() != expected
            || batch.mask_pad[i].len() != expected {
            let e = ServeError::InternalInvariant(
                InvariantViolation::SequenceLengthMismatch { expected, row: i },
            );
            proof {
                assert(!row_has_length(*batch, i as int, expected as nat));
                if batch.is_rectangular(expected as nat) {
                    assert(row_has_length(*batch, i as int, expected as nat));
                }
            }
            return Err(e);
        }
        i = i + 1;
    }
    proof {
        assert(batch.tokens@.len() == batch.mask_pad@.len()) by {
            if batch.tokens@.len() < n {
                assert(row_has_length(*batch, batch.tokens@.len() as int, expected as nat));
            }
            if batch.mask_pad@.len() < n {
                assert(row_has_length(*batch, batch.mask_pad@.len() as int, expected as nat));
            }
        }
        assert forall|k: int| 0 <= k < batch.tokens@.len() implies #[trigger] batch.tokens@[k]@.len()
            == expected by {
            assert(row_has_length(*batch, k, expected as nat));
        }
        assert forall|k: int| 0 <= k < batch.mask_pad@.len() implies #[trigger] batch.mask_pad@[
            k
        ]@.len() == expected by {
            assert(row_has_length(*batch, k, expected as nat));
        }
    }
    Ok(())
}

/// Lifecycle of the serving layer; `Ready` and `Failed` are terminal.
#[derive(Clone, Copy, Debug, PartialEq, Eq, Structural)]
pub enum ServingState {
    Uninitialized,
    Loading,
    /// Serving requests with batches of `max_seq_length` positions.
    Ready { max_seq_length: usize },
    Failed(StartupError),
}

/// What the loader reports while the serving layer starts.
#[derive(Clone, Copy, Debug, PartialEq, Eq, Structural)]
pub enum StartupEvent {
    /// Loading of the artifact directory begins.
    Begin,
    /// The configuration and the weights were read: `max_seq_length` from the configuration,
    /// the `model_*` dimensions and `n_classes` from the weights, `vocab_size` from the tokenizer.
    ArtifactLoaded {
        max_seq_length: usize,
        n_classes: usize,
        vocab_size: usize,
        model_vocab_size: usize,
        model_max_seq_length: usize,
    },
    /// The loader could not read the artifact.
    LoadFailed(StartupError),
}

/// The startup error of an artifact with these dimensions, if any; checked in the order
/// class count, vocabulary size, sequence length.
pub open spec fn spec_artifact_error(
    max_seq_length: usize,
    n_classes: usize,
    vocab_size: usize,
    model_vocab_size: usize,
    model_max_seq_length: usize,
) -> Option<StartupError> {
    if n_classes != spec_num_classes() {
        Some(StartupError::ClassCountMismatch { n_classes })
    } else if model_vocab_size != vocab_size {
        Some(StartupError::VocabSizeMismatch { expected: vocab_size, found: model_vocab_size })
    } else if model_max_seq_length != max_seq_length {
        Some(
            StartupError::SequenceLengthMismatch {
                expected: max_seq_length,
                found: model_max_seq_length,
            },
        )
    } else {
        None
    }
}

/// The state that follows `state` on `event`.
pub open spec fn spec_next_state(state: ServingState, event: StartupEvent) -> ServingState {
    match (state, event) {
        (ServingState::Uninitialized, StartupEvent::Begin) => ServingState::Loading,
        (
            ServingState::Loading,
            StartupEvent::ArtifactLoaded {
                max_seq_length,
                n_classes,
                vocab_size,
                model_vocab_size,
                model_max_seq_length,
            },
        ) => match spec_artifact_error(
            max_seq_length,
            n_classes,
            vocab_size,
            model_vocab_size,
            model_max_seq_length,
        ) {
            Some(e) => ServingState::Failed(e),
            None => ServingState::Ready { max_seq_length },
        },
        (ServingState::Loading, StartupEvent::LoadFailed(e)) => ServingState::Failed(e),
        _ => state,
    }
}

/// Advances the startup lifecycle by one event.
pub fn next_state(state: ServingState, event: StartupEvent) -> (r: ServingState)
    ensures
        r == spec_next_state(state, event),
{
    match (state, event) {
        (ServingState::Uninitialized, StartupEvent::Begin) => ServingState::Loading,
        (
            ServingState::Loading,
            StartupEvent::ArtifactLoaded {
                max_seq_length,
                n_classes,
                vocab_size,
                model_vocab_size,
                model_max_seq_length,
            },
        ) => {
            if n_classes != num_classes() {
                ServingState::Failed(StartupError::ClassCountMismatch { n_classes })
            } else if model_vocab_size != vocab_size {
                ServingState::Failed(
                    StartupError::VocabSizeMismatch { expected: vocab_size, found: model_vocab_size },
                )
            } else if model_max_seq_length != max_seq_length {
                ServingState::Failed(
                    StartupError::SequenceLengthMismatch {
                        expected: max_seq_length,
                        found: model_max_seq_length,
                    },
                )
            } else {
                ServingState::Ready { max_seq_length }
            }
        },
        (ServingState::Loading, StartupEvent::LoadFailed(e)) => ServingState::Failed(e),
        _ => state,
    }
}

/// Whether requests may be served in `state`.
pub fn accepts_requests(state: ServingState) -> (r: bool)
    ensures
        r <==> state is Ready,
{
    match state {
        ServingState::Ready { .. } => true,
        _ => false,
    }
}

/// The batcher of a ready serving layer, built for the artifact's sequence length.
pub fn batcher_for(state: ServingState, pad_token: usize) -> (r: Option<TextClassificationBatcher>)
    ensures
        r is Some <==> state is Ready,
        r matches Some(b) ==> state == (ServingState::Ready { max_seq_length: b.max_seq_length })
            && b.pad_token == pad_token,
{
    match state {
        ServingState::Ready { max_seq_length } => Some(
            TextClassificationBatcher::new(max_seq_length, pad_token),
        ),
        _ => None,
    }
}

/// Every name in a response lies in the fixed class enumeration, one per row.
pub proof fn lemma_response_within_enumeration(predictions: Seq<usize>)
    requires
        all_in_range(predictions),
    ensures
        spec_classes(predictions).len() == predictions.len(),
        forall|i: int|
            0 <= i < predictions.len() ==> class_enumeration().contains(
                #[trigger] spec_classes(predictions)[i],
            ),
{
    assert forall|i: int| 0 <= i < predictions.len() implies class_enumeration().contains(
        #[trigger] spec_classes(predictions)[i],
    ) by {
        lemma_class_name_in_enumeration(predictions[i] as nat);
    }
}

/// The name given to a row depends on that row's own prediction alone: not on the other rows
/// of its request, nor on any other request.
pub proof fn lemma_row_names_independent(p: Seq<usize>, q: Seq<usize>, i: int, j: int)
    requires
        0 <= i < p.len(),
        0 <= j < q.len(),
        p[i] == q[j],
    ensures
        spec_classes(p)[i] == spec_classes(q)[j],
{
}

/// Startup failure is final: a failed lifecycle stays failed on every later event, and a load
/// failure never makes a not-yet-ready serving layer ready.
pub proof fn lemma_startup_failure_is_final(
    state: ServingState,
    e: StartupError,
    event: StartupEvent,
)
    ensures
        spec_next_state(ServingState::Failed(e), event) == ServingState::Failed(e),
        !(state is Ready) ==> !(spec_next_state(state, StartupEvent::LoadFailed(e)) is Ready),
        spec_next_state(ServingState::Loading, StartupEvent::LoadFailed(e)) == ServingState::Failed(
            e,
        ),
{
}

/// Loading reaches `Ready` only for an artifact whose class count, vocabulary size and
/// sequence length all agree with what serving expects; the batch length is the configured one.
pub proof fn lemma_ready_only_with_consistent_artifact(
    max_seq_length: usize,
    n_classes: usize,
    vocab_size: usize,
    model_vocab_size: usize,
    model_max_seq_length: usize,
)
    ensures
        spec_next_state(
            ServingState::Loading,
            StartupEvent::ArtifactLoaded {
                max_seq_length,
                n_classes,
                vocab_size,
                model_vocab_size,
                model_max_seq_length,
            },
        ) is Ready <==> (n_classes == spec_num_classes() && model_vocab_size == vocab_size
            && model_max_seq_length == max_seq_length),
        spec_next_state(
            ServingState::Loading,
            StartupEvent::ArtifactLoaded {
                max_seq_length,
                n_classes,
                vocab_size,
                model_vocab_size,
                model_max_seq_length,
            },
        ) is Ready ==> spec_next_state(
            ServingState::Loading,
            StartupEvent::ArtifactLoaded {
                max_seq_length,
                n_classes,
                vocab_size,
                model_vocab_size,
                model_max_seq_length,
            },
        ) == (ServingState::Ready { max_seq_length }),
{
}

} // verus!
