use watcher::divergence::{clamp_unit, classify_samples, similarity_defined, EmbeddingError, SampleShape};
use watcher::reading::Reading;

fn r(x: f32) -> Reading {
    Reading::from_bits(x.to_bits())
}

fn texts(v: &[&str]) -> Vec<String> {
    v.iter().map(|s| s.to_string()).collect()
}

fn is_count_error(res: Result<SampleShape, EmbeddingError>) -> bool {
    match res {
        Err(EmbeddingError::EncodingError(m)) => m == "Expected exactly 3 samples",
        _ => false,
    }
}

#[test]
fn wrong_sample_counts_are_encoding_errors() {
    assert!(is_count_error(classify_samples(&texts(&["a", "b"]))));
    assert!(is_count_error(classify_samples(&texts(&["a", "b", "c", "d"]))));
    assert!(is_count_error(classify_samples(&texts(&[]))));
}

#[test]
fn all_blank_scores_zero() {
    let shape = classify_samples(&texts(&["", "  ", "\t\n\u{3000}"])).unwrap();
    assert_eq!(shape, SampleShape::AllBlank);
    assert_eq!(shape.fixed_divergence().unwrap().to_bits(), 0.0f32.to_bits());
}

#[test]
fn one_blank_scores_one() {
    let shape = classify_samples(&texts(&["hello", "", "world"])).unwrap();
    assert_eq!(shape, SampleShape::SomeBlank);
    assert_eq!(shape.fixed_divergence().unwrap().to_bits(), 1.0f32.to_bits());
    let shape = classify_samples(&texts(&[" ", "x", "\u{00a0}"])).unwrap();
    assert_eq!(shape, SampleShape::SomeBlank);
}

#[test]
fn no_blank_needs_embeddings() {
    let shape = classify_samples(&texts(&["a", " b ", "c"])).unwrap();
    assert_eq!(shape, SampleShape::NoneBlank);
    assert!(shape.fixed_divergence().is_none());
}

#[test]
fn sample_check_twice_gives_one_answer() {
    let s = texts(&["a", "", "c"]);
    assert_eq!(classify_samples(&s).unwrap(), classify_samples(&s).unwrap());
}

#[test]
fn clamping_to_unit_range() {
    assert_eq!(clamp_unit(r(-0.001)).to_bits(), 0.0f32.to_bits());
    assert_eq!(clamp_unit(r(1.0001)).to_bits(), 1.0f32.to_bits());
    assert_eq!(clamp_unit(r(0.5)).to_bits(), 0.5f32.to_bits());
    assert_eq!(clamp_unit(r(f32::NAN)).to_bits(), 0.0f32.to_bits());
    assert_eq!(clamp_unit(r(f32::INFINITY)).to_bits(), 1.0f32.to_bits());
}

#[test]
fn similarity_needs_equal_nonempty_lengths() {
    assert!(similarity_defined(3, 3));
    assert!(!similarity_defined(0, 0));
    assert!(!similarity_defined(3, 4));
}

#[test]
fn embedding_error_messages() {
    assert_eq!(
        EmbeddingError::EncodingError("x".to_string()).message(),
        "Encoding failed: x"
    );
    assert_eq!(EmbeddingError::OrtError("y".to_string()).message(), "ONNX Runtime error: y");
    assert_eq!(EmbeddingError::TokenizerError("z".to_string()).message(), "Tokenizer error: z");
    assert_eq!(
        EmbeddingError::InitError("w".to_string()).message(),
        "Model initialization failed: w"
    );
}
