use livelog::text::{contains_item, join_quoted, split_list};

#[test]
fn split_keeps_nonempty_fields_in_order() {
    assert_eq!(split_list("a,,b"), vec!["a".to_string(), "b".to_string()]);
    assert_eq!(split_list(""), Vec::<String>::new());
    assert_eq!(split_list(",x,"), vec!["x".to_string()]);
    assert_eq!(split_list("héllo,wörld"), vec!["héllo".to_string(), "wörld".to_string()]);
}

#[test]
fn split_loses_only_commas() {
    let input = ",ab,,c,d e,";
    let joined: String = split_list(input).concat();
    assert_eq!(joined, input.replace(',', ""));
}

#[test]
fn join_quotes_each_item() {
    assert_eq!(join_quoted(&vec!["a".to_string(), "b".to_string()]), "'a','b'");
    assert_eq!(join_quoted(&vec![]), "");
    assert_eq!(join_quoted(&vec!["x".to_string()]), "'x'");
}

#[test]
fn contains_item_finds_exact_matches() {
    let items = vec!["red".to_string(), "null".to_string()];
    assert!(contains_item(&items, &"null".to_string()));
    assert!(!contains_item(&items, &"nul".to_string()));
}
