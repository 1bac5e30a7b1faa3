use vstd::prelude::*;

verus! {

/// The id sequences held by `rows`.
pub open spec fn spec_rows(rows: Seq<Vec<usize>>) -> Seq<Seq<usize>> {
    rows.map_values(|v: Vec<usize>| v@)
}

/// Token ids of one row: `ids` cut to `max_len` positions, then padded with `pad` up to `max_len`.
pub open spec fn spec_padded(ids: Seq<usize>, max_len: nat, pad: usize) -> Seq<usize> {
    Seq::new(max_len, |j: int| if j < ids.len() { ids[j] } else { pad })
}

/// Padding mask of one row: true exactly at the positions that hold padding.
pub open spec fn spec_mask_pad(len: nat, max_len: nat) -> Seq<bool> {
    Seq::new(max_len, |j: int| j >= len)
}

/// A rectangular batch: one row of token ids and one row of padding flags per input text.
pub struct TextClassificationBatch {
    pub tokens: Vec<Vec<usize>>,
    pub mask_pad: Vec<Vec<bool>>,
}

impl TextClassificationBatch {
    /// Number of rows.
    pub open spec fn rows(&self) -> nat {
        self.tokens@.len()
    }

    /// The batch holds, row by row, the padded form of `encoded` and its mask.
    pub open spec fn encodes(&self, encoded: Seq<Seq<usize>>, max_len: nat, pad: usize) -> bool {
        &&& self.tokens@.len() == encoded.len()
        &&& self.mask_pad@.len() == encoded.len()
        &&& forall|i: int|
            0 <= i < encoded.len() ==> #[trigger] self.tokens@[i]@ == spec_padded(
                encoded[i],
                max_len,
                pad,
            )
        &&& forall|i: int|
            0 <= i < encoded.len() ==> #[trigger] self.mask_pad@[i]@ == spec_mask_pad(
                encoded[i].len(),
                max_len,
            )
    }

    /// Every row, of ids and of flags, has exactly `max_len` positions.
    pub open spec fn is_rectangular(&self, max_len: nat) -> bool {
        &&& self.tokens@.len() == self.mask_pad@.len()
        &&& forall|i: int| 0 <= i < self.tokens@.len() ==> #[trigger] self.tokens@[i]@.len() == max_len
        &&& forall|i: int|
            0 <= i < self.mask_pad@.len() ==> #[trigger] self.mask_pad@[i]@.len() == max_len
    }

    /// Number of rows of the batch.
    pub fn batch_size(&self) -> (r: usize)
        ensures
            r == self.rows(),
    {
        self.tokens.len()
    }
}

/// Pads or truncates one tokenized text to `max_seq_length` positions, with its padding mask.
pub fn encode_and_pad(ids: &Vec<usize>, max_seq_length: usize, pad_token: usize) -> (r: (
    Vec<usize>,
    Vec<bool>,
))
    ensures
        r.0@ == spec_padded(ids@, max_seq_length as nat, pad_token),
        r.1@ == spec_mask_pad(ids@.len(), max_seq_length as nat),
{
    let mut tokens: Vec<usize> = Vec::with_capacity(max_seq_length);
    let mut mask: Vec<bool> = Vec::with_capacity(max_seq_length);
    let mut j: usize = 0;
    while j < max_seq_length
        invariant
            j <= max_seq_length,
            tokens@ == spec_padded(ids@, max_seq_length as nat, pad_token).take(j as int),
            mask@ == spec_mask_pad(ids@.len(), max_seq_length as nat).take(j as int),
        decreases max_seq_length - j,
    {
        if j < ids.len() {
            tokens.push(ids[j]);
            mask.push(false);
        } else {
            tokens.push(pad_token);
            mask.push(true);
        }
        j = j + 1;
        proof {
            assert(tokens@ =~= spec_padded(ids@, max_seq_length as nat, pad_token).take(j as int));
            assert(mask@ =~= spec_mask_pad(ids@.len(), max_seq_length as nat).take(j as int));
        }
    }
    proof {
        assert(tokens@ =~= spec_padded(ids@, max_seq_length as nat, pad_token));
        assert(mask@ =~= spec_mask_pad(ids@.len(), max_seq_length as nat));
    }
    (tokens, mask)
}

/// Turns tokenized texts into a fixed-shape batch, padding or truncating each to one length.
pub struct TextClassificationBatcher {
    pub max_seq_length: usize,
    pub pad_token: usize,
}

impl TextClassificationBatcher {
    /// A batcher with the given sequence length and pad token id.
    pub fn new(max_seq_length: usize, pad_token: usize) -> (r: Self)
        ensures
            r.max_seq_length == max_seq_length,
            r.pad_token == pad_token,
    {
        TextClassificationBatcher { max_seq_length, pad_token }
    }

    /// Stacks the padded rows of `encoded`, one per tokenized text, in input order.
    pub fn batch(&self, encoded: &Vec<Vec<usize>>) -> (r: TextClassificationBatch)
        ensures
            r.encodes(spec_rows(encoded@), self.max_seq_length as nat, self.pad_token),
    {
        let mut tokens: Vec<Vec<usize>> = Vec::with_capacity(encoded.len());
        let mut mask_pad: Vec<Vec<bool>> = Vec::with_capacity(encoded.len());
        let mut i: usize = 0;
        while i < encoded.len()
            invariant
                i <= encoded@.len(),
                tokens@.len() == i,
                mask_pad@.len() == i,
                forall|k: int|
                    0 <= k < i ==> #[trigger] tokens@[k]@ == spec_padded(
                        encoded@[k]@,
                        self.max_seq_length as nat,
                        self.pad_token,
                    ),
                forall|k: int|
                    0 <= k < i ==> #[trigger] mask_pad@[k]@ == spec_mask_pad(
                        encoded@[k]@.len(),
                        self.max_seq_length as nat,
                    ),
            decreases encoded@.len() - i,
        {
            let (row, mask) = encode_and_pad(&encoded[i], self.max_seq_length, self.pad_token);
            tokens.push(row);
            mask_pad.push(mask);
            i = i + 1;
        }
        TextClassificationBatch { tokens, mask_pad }
    }
}

/// A padded row and its mask always have exactly `max_len` positions; the row keeps the
/// leading ids of the input, drops those past `max_len`, and fills the rest with `pad`.
pub proof fn lemma_padded_row_length(ids: Seq<usize>, max_len: nat, pad: usize)
    ensures
        spec_padded(ids, max_len, pad).len() == max_len,
        spec_mask_pad(ids.len(), max_len).len() == max_len,
        forall|j: int|
            0 <= j < max_len && j < ids.len() ==> #[trigger] spec_padded(ids, max_len, pad)[j]
                == ids[j] && !spec_mask_pad(ids.len(), max_len)[j],
        forall|j: int|
            0 <= j < max_len && j >= ids.len() ==> #[trigger] spec_padded(ids, max_len, pad)[j]
                == pad && spec_mask_pad(ids.len(), max_len)[j],
{
}

/// Every batch built from tokenized texts is rectangular: all rows have `max_len` positions.
pub proof fn lemma_batch_is_rectangular(
    encoded: Seq<Seq<usize>>,
    max_len: nat,
    pad: usize,
    b: TextClassificationBatch,
)
    requires
        b.encodes(encoded, max_len, pad),
    ensures
        b.is_rectangular(max_len),
{
    assert forall|i: int| 0 <= i < b.tokens@.len() implies #[trigger] b.tokens@[i]@.len()
        == max_len by {
        lemma_padded_row_length(encoded[i], max_len, pad);
    }
    assert forall|i: int| 0 <= i < b.mask_pad@.len() implies #[trigger] b.mask_pad@[i]@.len()
        == max_len by {
        lemma_padded_row_length(encoded[i], max_len, pad);
    }
}

/// A batch of a non-empty list of texts has one row per text, and row `i` is built from text `i`.
pub proof fn lemma_batch_rows_follow_input(
    encoded: Seq<Seq<usize>>,
    max_len: nat,
    pad: usize,
    b: TextClassificationBatch,
)
    requires
        encoded.len() > 0,
        b.encodes(encoded, max_len, pad),
    ensures
        b.rows() == encoded.len(),
        forall|i: int|
            0 <= i < encoded.len() ==> #[trigger] b.tokens@[i]@ == spec_padded(
                encoded[i],
                max_len,
                pad,
            ) && b.mask_pad@[i]@ == spec_mask_pad(encoded[i].len(), max_len),
{
}

/// Batching the same tokenized texts twice gives the same ids and the same masks.
pub proof fn lemma_batch_deterministic(
    encoded: Seq<Seq<usize>>,
    max_len: nat,
    pad: usize,
    b1: TextClassificationBatch,
    b2: TextClassificationBatch,
)
    requires
        b1.encodes(encoded, max_len, pad),
        b2.encodes(encoded, max_len, pad),
    ensures
        b1.tokens.deep_view() == b2.tokens.deep_view(),
        b1.mask_pad.deep_view() == b2.mask_pad.deep_view(),
{
    assert(b1.tokens.deep_view() =~~= b2.tokens.deep_view());
    assert(b1.mask_pad.deep_view() =~~= b2.mask_pad.deep_view());
}

} // verus!
