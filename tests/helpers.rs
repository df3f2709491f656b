use aoi_backend::helpers::contains_duplicates;

#[test]
fn contains_duplicates_positive() {
    assert!(contains_duplicates(&vec![1, 2, 3, 2]));
}

#[test]
fn contains_duplicates_negative() {
    assert!(!contains_duplicates(&vec![1, 2, 3, 4]));
}

#[test]
fn contains_duplicates_empty() {
    assert!(!contains_duplicates(&Vec::<i32>::new()));
}
