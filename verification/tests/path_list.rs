use parkplatzcoder::path_list::{compare_text, normalize_changed_files, TextOrder};

fn some(paths: &[&str]) -> Vec<Option<String>> {
    paths.iter().map(|p| Some(p.to_string())).collect()
}

#[test]
fn compare_text_orders_lexicographically() {
    assert_eq!(compare_text("a.txt", "b.txt"), TextOrder::Before);
    assert_eq!(compare_text("b.txt", "a.txt"), TextOrder::After);
    assert_eq!(compare_text("hello.txt", "hello.txt"), TextOrder::Same);
    assert_eq!(compare_text("", ""), TextOrder::Same);
    assert_eq!(compare_text("", "a"), TextOrder::Before);
    assert_eq!(compare_text("src", "src/main.rs"), TextOrder::Before);
    assert_eq!(compare_text("README.md", "a.txt"), TextOrder::Before);
    assert_eq!(compare_text("src/lib.rs", "src/b"), TextOrder::After);
}

#[test]
fn compare_text_agrees_with_byte_order_beyond_ascii() {
    let pairs = [("é", "z"), ("z", "é"), ("ä", "€"), ("日本", "日"), ("a€", "aé")];
    for (a, b) in pairs {
        let expected = match a.as_bytes().cmp(b.as_bytes()) {
            std::cmp::Ordering::Less => TextOrder::Before,
            std::cmp::Ordering::Equal => TextOrder::Same,
            std::cmp::Ordering::Greater => TextOrder::After,
        };
        assert_eq!(compare_text(a, b), expected);
    }
}

#[test]
fn changed_files_are_sorted_and_deduplicated() {
    let files = normalize_changed_files(&some(&["world.txt", "hello.txt", "world.txt", "a/b.rs"]));
    assert_eq!(files, vec!["a/b.rs", "hello.txt", "world.txt"]);
}

#[test]
fn changed_files_skip_unreadable_paths() {
    let mut paths = some(&["z.txt", "b.txt"]);
    paths.insert(1, None);
    paths.push(None);
    assert_eq!(normalize_changed_files(&paths), vec!["b.txt", "z.txt"]);
    assert!(normalize_changed_files(&vec![None, None]).is_empty());
    assert!(normalize_changed_files(&vec![]).is_empty());
}

#[test]
fn changed_files_depend_only_on_the_set_of_paths() {
    let one = normalize_changed_files(&some(&["c", "a", "b", "a"]));
    let two = normalize_changed_files(&some(&["b", "b", "c", "a"]));
    assert_eq!(one, two);
    assert_eq!(normalize_changed_files(&some(&["a", "b", "c"])), one);
}
