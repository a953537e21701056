use vibe_studio::filesystem::{bytes_in_order, may_precede, sort_nodes, FileNode};

fn node(name: &str, is_directory: bool) -> FileNode {
    FileNode::new(name.to_string(), format!("/p/{}", name), is_directory)
}

fn names(nodes: &[FileNode]) -> Vec<&str> {
    nodes.iter().map(|n| n.name.as_str()).collect()
}

#[test]
fn directories_come_first_then_names_decide() {
    let sorted = sort_nodes(vec![
        node("main.rs", false),
        node("src", true),
        node("Cargo.toml", false),
        node("assets", true),
        node("a.txt", false),
    ]);
    assert_eq!(names(&sorted), vec!["assets", "src", "Cargo.toml", "a.txt", "main.rs"]);
    assert!(sorted[0].is_directory && sorted[1].is_directory);
    assert!(sorted.iter().all(|n| n.children.is_none()));
    assert_eq!(sorted[2].path, "/p/Cargo.toml");
}

#[test]
fn names_are_compared_by_their_bytes() {
    let sorted = sort_nodes(vec![
        node("b", false),
        node("B", false),
        node("\u{e9}", false),
        node("ab", false),
        node("a", false),
        node("", false),
        node("z", false),
    ]);
    assert_eq!(names(&sorted), vec!["", "B", "a", "ab", "b", "z", "\u{e9}"]);
}

#[test]
fn sorting_agrees_with_the_standard_sort() {
    let given = ["q", "ab", "abc", "Z", "a", "zz", "m", "ab", "0", "~"];
    let mut nodes = Vec::new();
    for (i, name) in given.iter().enumerate() {
        nodes.push(FileNode::new(name.to_string(), i.to_string(), i % 3 == 0));
    }
    let mut expected: Vec<(bool, String, String)> =
        nodes.iter().map(|n| (!n.is_directory, n.name.clone(), n.path.clone())).collect();
    expected.sort_by(|a, b| (a.0, &a.1).cmp(&(b.0, &b.1)));
    let sorted = sort_nodes(nodes);
    let seen: Vec<(bool, String, String)> =
        sorted.iter().map(|n| (!n.is_directory, n.name.clone(), n.path.clone())).collect();
    assert_eq!(seen, expected);
}

#[test]
fn equal_entries_keep_their_order() {
    let sorted = sort_nodes(vec![
        FileNode::new("same".to_string(), "first".to_string(), false),
        FileNode::new("same".to_string(), "second".to_string(), false),
        FileNode::new("same".to_string(), "third".to_string(), false),
    ]);
    let paths: Vec<&str> = sorted.iter().map(|n| n.path.as_str()).collect();
    assert_eq!(paths, vec!["first", "second", "third"]);
}

#[test]
fn empty_and_single_listings() {
    assert!(sort_nodes(Vec::new()).is_empty());
    assert_eq!(names(&sort_nodes(vec![node("x", false)])), vec!["x"]);
}

#[test]
fn order_of_byte_strings() {
    assert!(bytes_in_order(b"", b""));
    assert!(bytes_in_order(b"", b"a"));
    assert!(!bytes_in_order(b"a", b""));
    assert!(bytes_in_order(b"a", b"a"));
    assert!(bytes_in_order(b"a", b"ab"));
    assert!(!bytes_in_order(b"ab", b"a"));
    assert!(bytes_in_order(b"ab", b"b"));
    assert!(!bytes_in_order(b"b", b"ab"));
    assert!(bytes_in_order(&[0x7f], &[0x80]));
}

#[test]
fn a_directory_may_precede_any_file() {
    assert!(may_precede(&node("z", true), &node("a", false)));
    assert!(!may_precede(&node("a", false), &node("z", true)));
    assert!(may_precede(&node("a", true), &node("b", true)));
    assert!(!may_precede(&node("b", true), &node("a", true)));
}
