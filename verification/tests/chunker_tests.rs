use trieve_server::chunker::{averaging_dimension, coarse_split, AverageError, SUB_TEXT_CHARS};

#[test]
fn ten_thousand_characters_give_several_sub_texts() {
    let content: String = "abcdefghij".repeat(1000);
    assert_eq!(content.chars().count(), 10_000);
    let parts = coarse_split(&content, SUB_TEXT_CHARS);
    assert_eq!(parts.len(), 3);
    assert_eq!(parts[0].chars().count(), 4000);
    assert_eq!(parts[1].chars().count(), 4000);
    assert_eq!(parts[2].chars().count(), 2000);
    assert_eq!(parts.concat(), content);
}

#[test]
fn a_text_within_the_limit_is_one_sub_text() {
    assert_eq!(coarse_split("hello", 5), vec!["hello".to_string()]);
    assert_eq!(coarse_split("hello", 100), vec!["hello".to_string()]);
}

#[test]
fn a_text_is_cut_at_every_limit() {
    assert_eq!(
        coarse_split("abcdefg", 3),
        vec!["abc".to_string(), "def".to_string(), "g".to_string()]
    );
    assert_eq!(coarse_split("abcdef", 3), vec!["abc".to_string(), "def".to_string()]);
    assert_eq!(
        coarse_split("abc", 1),
        vec!["a".to_string(), "b".to_string(), "c".to_string()]
    );
}

#[test]
fn the_limit_counts_characters_not_bytes() {
    let parts = coarse_split("äöüßé", 2);
    assert_eq!(parts, vec!["äö".to_string(), "üß".to_string(), "é".to_string()]);
}

#[test]
fn an_empty_text_has_no_sub_texts() {
    assert_eq!(coarse_split("", 10), Vec::<String>::new());
}

#[test]
fn a_limit_of_zero_gives_no_sub_texts() {
    assert_eq!(coarse_split("abc", 0), Vec::<String>::new());
}

#[test]
fn vectors_of_one_length_can_be_averaged() {
    let vectors = vec![vec![1u32, 2, 3], vec![4, 5, 6], vec![7, 8, 9]];
    assert_eq!(averaging_dimension(&vectors), Ok(3));
    assert_eq!(averaging_dimension(&vec![vec![]]), Ok(0));
}

#[test]
fn no_vectors_cannot_be_averaged() {
    assert_eq!(averaging_dimension(&vec![]), Err(AverageError::NoVectors));
}

#[test]
fn vectors_of_different_lengths_cannot_be_averaged() {
    let vectors = vec![vec![1u32, 2, 3], vec![4, 5], vec![7, 8, 9]];
    assert_eq!(averaging_dimension(&vectors), Err(AverageError::ShapeMismatch));
    let last = vec![vec![1u32], vec![2], vec![3, 4]];
    assert_eq!(averaging_dimension(&last), Err(AverageError::ShapeMismatch));
}

#[test]
fn the_dimension_does_not_depend_on_the_order() {
    let a = vec![vec![1u32, 2], vec![3, 4], vec![5, 6]];
    let b = vec![vec![5u32, 6], vec![1, 2], vec![3, 4]];
    assert_eq!(averaging_dimension(&a), averaging_dimension(&b));
    let c = vec![vec![1u32, 2], vec![3], vec![5, 6]];
    let d = vec![vec![3u32], vec![5, 6], vec![1, 2]];
    assert_eq!(averaging_dimension(&c), averaging_dimension(&d));
}
