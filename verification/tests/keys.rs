use pdf_viewer::generate_key_combinations;

#[test]
fn no_keys_for_no_links() {
    assert!(generate_key_combinations(0).is_empty());
}

#[test]
fn single_letters_first() {
    assert_eq!(generate_key_combinations(3), vec!["a", "b", "c"]);
    let keys = generate_key_combinations(23);
    assert_eq!(keys.len(), 23);
    assert_eq!(keys[7], "h");
    assert_eq!(keys[8], "j");
    assert_eq!(keys[22], "z");
}

#[test]
fn confusable_letters_are_left_out() {
    let keys = generate_key_combinations(552);
    for key in &keys {
        assert!(!key.contains('i') && !key.contains('l') && !key.contains('o'));
    }
}

#[test]
fn pairs_follow_the_letters() {
    let keys = generate_key_combinations(26);
    assert_eq!(keys.len(), 26);
    assert_eq!(keys[23], "aa");
    assert_eq!(keys[24], "ab");
    assert_eq!(keys[25], "ac");
    let keys = generate_key_combinations(47);
    assert_eq!(keys[45], "az");
    assert_eq!(keys[46], "ba");
}

#[test]
fn key_count_is_capped() {
    let keys = generate_key_combinations(552);
    assert_eq!(keys.len(), 552);
    assert_eq!(keys[551], "zz");
    assert_eq!(generate_key_combinations(1000), keys);
}

#[test]
fn keys_are_distinct() {
    let mut keys = generate_key_combinations(1000);
    let n = keys.len();
    keys.sort();
    keys.dedup();
    assert_eq!(keys.len(), n);
}

#[test]
fn fewer_keys_are_a_prefix_of_more() {
    let few = generate_key_combinations(30);
    let many = generate_key_combinations(100);
    assert_eq!(&many[..30], &few[..]);
}
