use kyles_algorithm_crate::base::pair::Pair;

#[test]
fn test_new() {
    let pair = Pair::new(1, "Hello");

    assert_eq!(pair.first_item, 1);
    assert_eq!(pair.second_item, "Hello");
}

#[test]
fn test_clone() {
    let pair = Pair::new(1, "Hello");

    let clone_pair = pair.clone();

    assert_eq!(clone_pair.first_item, 1);
    assert_eq!(clone_pair.second_item, "Hello");
}
