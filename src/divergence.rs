use vstd::prelude::*;
use crate::reading::{Reading, is_nan, order_key};
use crate::text::{blank, is_blank};

verus! {

/// Errors of the embedding path: failures reported by the embedding provider,
/// and input that cannot be scored.
#[derive(Debug)]
pub enum EmbeddingError {
    OrtError(String),
    TokenizerError(String),
    InitError(String),
    EncodingError(String),
}

impl EmbeddingError {
    /// The display text: a fixed prefix for the kind, then the detail.
    pub fn message(&self) -> (r: String)
        ensures
            r@ == match self {
                EmbeddingError::OrtError(s) => "ONNX Runtime error: "@ + s@,
                EmbeddingError::TokenizerError(s) => "Tokenizer error: "@ + s@,
                EmbeddingError::InitError(s) => "Model initialization failed: "@ + s@,
                EmbeddingError::EncodingError(s) => "Encoding failed: "@ + s@,
            },
    {
        match self {
            EmbeddingError::OrtError(s) => String::from_str("ONNX Runtime error: ").concat(
                s.as_str(),
            ),
            EmbeddingError::TokenizerError(s) => String::from_str("Tokenizer error: ").concat(
                s.as_str(),
            ),
            EmbeddingError::InitError(s) => String::from_str("Model initialization failed: ").concat(
                s.as_str(),
            ),
            EmbeddingError::EncodingError(s) => String::from_str("Encoding failed: ").concat(
                s.as_str(),
            ),
        }
    }
}

/// Number of samples scored together.
pub const SAMPLE_COUNT: usize = 3;

/// Bit pattern of 1.0, the largest divergence.
pub const ONE_BITS: u32 = 0x3f80_0000;

/// How blank the samples of a triple are.
#[derive(Clone, Copy, Debug, PartialEq, Eq, Structural)]
pub enum SampleShape {
    /// Every sample is empty or white space: nothing differs.
    AllBlank,
    /// Some sample is blank and another is not: as divergent as can be.
    SomeBlank,
    /// No sample is blank: the embeddings decide.
    NoneBlank,
}

/// The shape of a triple of samples.
pub open spec fn shape_of(samples: Seq<String>) -> SampleShape {
    if forall|i: int| 0 <= i < samples.len() ==> is_blank(#[trigger] samples[i]@) {
        SampleShape::AllBlank
    } else if exists|i: int| 0 <= i < samples.len() && is_blank(#[trigger] samples[i]@) {
        SampleShape::SomeBlank
    } else {
        SampleShape::NoneBlank
    }
}

/// The error for a sample list whose length is not [`SAMPLE_COUNT`].
pub open spec fn is_count_error(e: EmbeddingError) -> bool {
    e matches EmbeddingError::EncodingError(m) && m@ == "Expected exactly 3 samples"@
}

/// Checks the samples before any embedding is asked for: an encoding error
/// unless there are exactly three, else how many of them are blank.
pub fn classify_samples(samples: &Vec<String>) -> (r: Result<SampleShape, EmbeddingError>)
    ensures
        samples@.len() != SAMPLE_COUNT ==> (r matches Err(e) && is_count_error(e)),
        samples@.len() == SAMPLE_COUNT ==> r == Ok::<SampleShape, EmbeddingError>(
            shape_of(samples@),
        ),
{
    if samples.len() != SAMPLE_COUNT {
        return Err(EmbeddingError::EncodingError(String::from_str("Expected exactly 3 samples")));
    }
    let b0 = blank(samples[0].as_str());
    let b1 = blank(samples[1].as_str());
    let b2 = blank(samples[2].as_str());
    if b0 && b1 && b2 {
        assert forall|i: int| 0 <= i < samples@.len() implies is_blank(#[trigger] samples@[i]@) by {
            if i == 0 {
            } else if i == 1 {
            } else {
            }
        }
        Ok(SampleShape::AllBlank)
    } else if b0 || b1 || b2 {
        assert(!is_blank(samples@[0]@) || !is_blank(samples@[1]@) || !is_blank(samples@[2]@));
        assert(is_blank(samples@[0]@) || is_blank(samples@[1]@) || is_blank(samples@[2]@));
        Ok(SampleShape::SomeBlank)
    } else {
        assert forall|i: int| 0 <= i < samples@.len() implies !is_blank(#[trigger] samples@[i]@) by {
            if i == 0 {
            } else if i == 1 {
            } else {
            }
        }
        Ok(SampleShape::NoneBlank)
    }
}

/// The divergence that a shape decides without embeddings: 0.0 when all
/// samples are blank, 1.0 when only some are, none otherwise.
pub open spec fn fixed_divergence_of(shape: SampleShape) -> Option<u32> {
    match shape {
        SampleShape::AllBlank => Some(0u32),
        SampleShape::SomeBlank => Some(ONE_BITS),
        SampleShape::NoneBlank => None,
    }
}

impl SampleShape {
    /// The divergence decided by the shape alone, if any.
    pub fn fixed_divergence(&self) -> (r: Option<Reading>)
        ensures
            r matches Some(d) ==> fixed_divergence_of(*self) == Some(d.bits),
            r is None <==> fixed_divergence_of(*self) is None,
    {
        match self {
            SampleShape::AllBlank => Some(Reading::zero()),
            SampleShape::SomeBlank => Some(Reading::from_bits(ONE_BITS)),
            SampleShape::NoneBlank => None,
        }
    }
}

/// A value lies in [0.0, 1.0]: not NaN, not below zero, not above one.
pub open spec fn in_unit_range(bits: u32) -> bool {
    !is_nan(bits) && 0 <= order_key(bits) <= order_key(ONE_BITS)
}

/// Clamps a divergence to [0.0, 1.0]: values below zero, and NaN, become 0.0;
/// values above one become 1.0; the rest are kept.
pub open spec fn clamp_unit_of(bits: u32) -> u32 {
    if is_nan(bits) || order_key(bits) < 0 {
        0u32
    } else if order_key(bits) > order_key(ONE_BITS) {
        ONE_BITS
    } else {
        bits
    }
}

/// Keeps a computed divergence inside [0.0, 1.0].
pub fn clamp_unit(d: Reading) -> (r: Reading)
    ensures
        r.bits == clamp_unit_of(d.bits),
        in_unit_range(r.bits),
{
    let zero = Reading::zero();
    let one = Reading::from_bits(ONE_BITS);
    if d.is_nan() || d.lt(&zero) {
        zero
    } else if d.gt(&one) {
        one
    } else {
        d
    }
}

/// Similarity is taken only between vectors of one nonzero length; otherwise
/// it counts as zero.
pub fn similarity_defined(a_len: usize, b_len: usize) -> (r: bool)
    ensures
        r == (a_len > 0 && b_len > 0 && a_len == b_len),
{
    a_len != 0 && b_len != 0 && a_len == b_len
}

/// A triple whose samples are all blank scores 0.0, and one where only some
/// are blank scores 1.0, both without embeddings; a triple with no blank
/// sample is left to the embeddings.
pub proof fn blank_samples_decide(samples: Seq<String>)
    requires
        samples.len() == SAMPLE_COUNT,
    ensures
        (forall|i: int| 0 <= i < 3 ==> is_blank(#[trigger] samples[i]@)) ==> fixed_divergence_of(
            shape_of(samples),
        ) == Some(0u32),
        (exists|i: int| 0 <= i < 3 && is_blank(#[trigger] samples[i]@)) && (exists|j: int|
            0 <= j < 3 && !is_blank(#[trigger] samples[j]@)) ==> fixed_divergence_of(
            shape_of(samples),
        ) == Some(ONE_BITS),
        (forall|i: int| 0 <= i < 3 ==> !is_blank(#[trigger] samples[i]@)) ==> fixed_divergence_of(
            shape_of(samples),
        ) is None,
{
    if forall|i: int| 0 <= i < 3 ==> !is_blank(#[trigger] samples[i]@) {
        assert(!is_blank(samples[0]@));
        assert(!(exists|i: int| 0 <= i < samples.len() && is_blank(#[trigger] samples[i]@)));
    }
}

/// Sample checks have no hidden state: lists with the same texts get the same
/// answer, so checking one list twice gives one answer.
pub proof fn sample_check_repeatable(a: Seq<String>, b: Seq<String>)
    requires
        a.len() == b.len(),
        forall|i: int| 0 <= i < a.len() ==> (#[trigger] a[i])@ == b[i]@,
    ensures
        shape_of(a) == shape_of(b),
{
    if forall|i: int| 0 <= i < a.len() ==> is_blank(#[trigger] a[i]@) {
        assert forall|i: int| 0 <= i < b.len() implies is_blank(#[trigger] b[i]@) by {
            assert(a[i]@ == b[i]@);
        }
    } else if exists|i: int| 0 <= i < a.len() && is_blank(#[trigger] a[i]@) {
        let k = choose|i: int| 0 <= i < a.len() && is_blank(#[trigger] a[i]@);
        assert(a[k]@ == b[k]@);
        let m = choose|i: int| 0 <= i < a.len() && !is_blank(#[trigger] a[i]@);
        assert(a[m]@ == b[m]@);
        assert(is_blank(b[k]@));
        assert(!is_blank(b[m]@));
    } else {
        assert forall|i: int| 0 <= i < b.len() implies !is_blank(#[trigger] b[i]@) by {
            assert(a[i]@ == b[i]@);
        }
    }
}

} // verus!
