use bevy_ui_extras::text::{alphabetical_order, chars_of, contains_chars, crate_of_path, name_matches_prompt};

#[test]
fn chars_of_keeps_every_character() {
    assert_eq!(chars_of("héllo"), vec!['h', 'é', 'l', 'l', 'o']);
    assert_eq!(chars_of(""), Vec::<char>::new());
}

#[test]
fn contains_chars_finds_infixes() {
    let hay = chars_of("transform");
    assert!(contains_chars(&hay, &chars_of("sfo")));
    assert!(contains_chars(&hay, &chars_of("transform")));
    assert!(contains_chars(&hay, &chars_of("")));
    assert!(!contains_chars(&hay, &chars_of("transforms")));
    assert!(!contains_chars(&hay, &chars_of("mrof")));
}

#[test]
fn empty_prompt_matches_every_name() {
    assert!(name_matches_prompt("Transform", ""));
    assert!(name_matches_prompt("", ""));
}

#[test]
fn prompt_matches_case_insensitively() {
    assert!(name_matches_prompt("GlobalTransform", "transform"));
    assert!(name_matches_prompt("GlobalTransform", "TRANS"));
    assert!(name_matches_prompt("Visibility", "visib"));
    assert!(!name_matches_prompt("Visibility", "transform"));
    assert!(!name_matches_prompt("", "a"));
}

#[test]
fn crate_of_path_takes_text_before_first_separator() {
    assert_eq!(crate_of_path("bevy_transform::components::Transform"), "bevy_transform");
    assert_eq!(crate_of_path("a:::b"), "a");
    assert_eq!(crate_of_path("::leading"), "");
}

#[test]
fn crate_of_path_without_separator_is_an_error() {
    assert_eq!(crate_of_path("Transform"), "ERROR GETTING SOURCE");
    assert_eq!(crate_of_path("a:b"), "ERROR GETTING SOURCE");
    assert_eq!(crate_of_path(""), "ERROR GETTING SOURCE");
}

#[test]
fn alphabetical_order_sorts_by_name() {
    let names: Vec<String> = vec!["Transform".into(), "Name".into(), "Visibility".into(), "Camera".into()];
    assert_eq!(alphabetical_order(&names), vec![3, 1, 0, 2]);
}

#[test]
fn alphabetical_order_compares_like_str() {
    let names: Vec<String> = vec!["b".into(), "B".into(), "ab".into(), "a".into(), "".into()];
    let order = alphabetical_order(&names);
    let sorted: Vec<&str> = order.iter().map(|&i| names[i].as_str()).collect();
    let mut expected: Vec<&str> = names.iter().map(|s| s.as_str()).collect();
    expected.sort();
    assert_eq!(sorted, expected);
}

#[test]
fn alphabetical_order_of_nothing_is_empty() {
    assert!(alphabetical_order(&Vec::new()).is_empty());
}
