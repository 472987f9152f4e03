use munic_simulator::random::{
    generate_string, get_int_value, get_random_string_element, step_int_value,
    string_element_at, CHARACTERS,
};

#[test]
fn walk_starts_at_the_draw() {
    let mut first = true;
    let mut last = 0i16;
    assert_eq!(step_int_value(0, 10, &mut first, &mut last, 7, 3), 7);
    assert!(!first);
    assert_eq!(last, 7);
}

#[test]
fn walk_moves_and_stays_in_range() {
    let mut first = false;
    let mut last = 7i16;
    assert_eq!(step_int_value(0, 10, &mut first, &mut last, 2, 2), 9);
    assert_eq!(step_int_value(0, 10, &mut first, &mut last, 2, 3), 10);
    assert_eq!(step_int_value(0, 10, &mut first, &mut last, 2, -30), 0);
    assert_eq!(last, 0);
}

#[test]
fn random_walk_values_are_in_range() {
    let mut first = true;
    let mut last = 0i16;
    for _ in 0..200 {
        let v = get_int_value(-5, 5, 2, &mut first, &mut last);
        assert!((-5..=5).contains(&v));
        assert_eq!(v, last);
    }
}

#[test]
fn random_text_has_the_length_asked() {
    let s = generate_string(30);
    assert_eq!(s.chars().count(), 30);
    assert!(s.chars().all(|c| CHARACTERS.contains(c)));
    assert_eq!(generate_string(0), "");
    assert_eq!(generate_string(-4), "");
}

#[test]
fn random_element_comes_from_the_list() {
    let list = vec![Some("a".to_string()), None, Some("c".to_string())];
    for _ in 0..50 {
        let e = get_random_string_element(&list);
        assert!(list.contains(&e));
    }
    assert_eq!(string_element_at(&list, 1), None);
    assert_eq!(string_element_at(&list, 2), Some("c".to_string()));
}
