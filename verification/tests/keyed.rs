use recipe_final_exercise::keyed_vec::KeyedVec;

#[test]
fn keys_count_up_from_zero() {
    let mut list: KeyedVec<String> = KeyedVec::new();
    assert!(list.get().is_empty());
    assert!(list.get_values().is_empty());
    for word in ["flour", "eggs", "milk"] {
        list.push(word.to_string());
    }
    assert_eq!(
        list.get(),
        vec![
            (0, "flour".to_string()),
            (1, "eggs".to_string()),
            (2, "milk".to_string())
        ]
    );
    assert_eq!(
        list.get_values(),
        vec!["flour".to_string(), "eggs".to_string(), "milk".to_string()]
    );
}

#[test]
fn equal_elements_get_different_keys() {
    let mut list: KeyedVec<u8> = KeyedVec::new();
    list.push(7);
    list.push(7);
    assert_eq!(list.get(), vec![(0, 7), (1, 7)]);
}

#[test]
fn a_clone_keeps_keys_and_goes_its_own_way() {
    let mut list: KeyedVec<String> = KeyedVec::new();
    list.push("a".to_string());
    let mut copy = list.clone();
    copy.push("b".to_string());
    list.push("c".to_string());
    assert_eq!(copy.get(), vec![(0, "a".to_string()), (1, "b".to_string())]);
    assert_eq!(list.get(), vec![(0, "a".to_string()), (1, "c".to_string())]);
}
