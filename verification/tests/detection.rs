use dev_cleaner::cleaner::{
    find_marker, find_named, simple_detect, CleanAction, Cleaner, NodeCleaner, RustCleaner,
};
use dev_cleaner::entry::{Age, DirectoryEntry};
use dev_cleaner::tree::{Node, ReadFailure};

fn file(name: &str, len: u64) -> Node {
    Node::File { name: name.to_string(), len }
}

fn dir(name: &str, children: Vec<Node>) -> Node {
    Node::Dir { name: name.to_string(), children }
}

fn unreadable(code: i32) -> Node {
    Node::Unreadable { failure: ReadFailure { code } }
}

fn project(children: Vec<Node>) -> DirectoryEntry {
    DirectoryEntry {
        path: "\"/home/dev/Developer/proj\"".to_string(),
        is_dir: true,
        age: Some(Age { secs: 3_000_000, nanos: 0 }),
        children: Some(children),
    }
}

#[test]
fn the_cleaners_have_their_names() {
    assert_eq!((RustCleaner {}).name(), "Rust");
    assert_eq!((NodeCleaner {}).name(), "nodeJS");
}

#[test]
fn rust_project_reports_the_size_of_target() {
    let entry = project(vec![
        dir("src", vec![file("main.rs", 999)]),
        file("Cargo.toml", 120),
        dir("target", vec![file("a", 500), dir("debug", vec![file("b", 24)])]),
    ]);
    assert_eq!((RustCleaner {}).cleanable(&entry), Some(524));
    assert_eq!((NodeCleaner {}).cleanable(&entry), None);
}

#[test]
fn node_project_reports_the_size_of_node_modules() {
    let entry = project(vec![
        dir("node_modules", vec![dir("left-pad", vec![file("index.js", 2048)])]),
        file("package-lock.json", 77),
        file("package.json", 11),
    ]);
    assert_eq!((NodeCleaner {}).cleanable(&entry), Some(2048));
    assert_eq!((RustCleaner {}).cleanable(&entry), None);
}

#[test]
fn a_project_of_both_kinds_is_found_by_both() {
    let entry = project(vec![
        file("Cargo.toml", 1),
        file("package-lock.json", 1),
        dir("target", vec![file("a", 10)]),
        dir("node_modules", vec![file("b", 20)]),
    ]);
    assert_eq!((RustCleaner {}).cleanable(&entry), Some(10));
    assert_eq!((NodeCleaner {}).cleanable(&entry), Some(20));
}

#[test]
fn an_empty_artifact_directory_gives_zero() {
    let entry = project(vec![file("Cargo.toml", 1), dir("target", vec![])]);
    assert_eq!((RustCleaner {}).cleanable(&entry), Some(0));
}

#[test]
fn without_the_marker_nothing_is_cleanable() {
    let entry = project(vec![
        dir("target", vec![file("a", 10)]),
        dir("node_modules", vec![file("b", 20)]),
        file("README.md", 5),
    ]);
    assert_eq!((RustCleaner {}).cleanable(&entry), None);
    assert_eq!((NodeCleaner {}).cleanable(&entry), None);
}

#[test]
fn without_the_artifact_directory_nothing_is_cleanable() {
    let entry = project(vec![file("Cargo.toml", 1), file("package-lock.json", 1)]);
    assert_eq!((RustCleaner {}).cleanable(&entry), None);
    assert_eq!((NodeCleaner {}).cleanable(&entry), None);
}

#[test]
fn an_empty_entry_is_not_cleanable() {
    let entry = project(vec![]);
    assert_eq!((RustCleaner {}).cleanable(&entry), None);
    assert_eq!((NodeCleaner {}).cleanable(&entry), None);
}

#[test]
fn a_directory_named_like_the_marker_is_no_marker() {
    let entry = project(vec![
        dir("Cargo.toml", vec![file("x", 1)]),
        dir("target", vec![file("a", 10)]),
    ]);
    assert_eq!((RustCleaner {}).cleanable(&entry), None);

    let entry = project(vec![
        dir("package-lock.json", vec![]),
        dir("node_modules", vec![file("a", 10)]),
    ]);
    assert_eq!((NodeCleaner {}).cleanable(&entry), None);
}

#[test]
fn a_marker_that_is_no_regular_file_is_no_marker() {
    let entry = project(vec![
        Node::Other { name: "Cargo.toml".to_string(), len: 0 },
        Node::ClosedDir { name: "Cargo.toml".to_string(), failure: ReadFailure { code: 13 } },
        dir("target", vec![file("a", 10)]),
    ]);
    assert_eq!((RustCleaner {}).cleanable(&entry), None);
}

#[test]
fn the_marker_name_must_match_exactly() {
    for name in ["cargo.toml", "Cargo.toml ", "Cargo.tom", "Cargo.toml.bak", "xCargo.toml", ""] {
        let entry = project(vec![file(name, 1), dir("target", vec![file("a", 10)])]);
        assert_eq!((RustCleaner {}).cleanable(&entry), None);
    }
}

#[test]
fn the_artifact_name_must_match_exactly() {
    for name in ["Target", "target2", "targe", ""] {
        let entry = project(vec![file("Cargo.toml", 1), dir(name, vec![file("a", 10)])]);
        assert_eq!((RustCleaner {}).cleanable(&entry), None);
    }
}

#[test]
fn an_entry_that_could_not_be_listed_is_not_cleanable() {
    let entry = DirectoryEntry {
        path: "\"/home/dev/Developer/locked\"".to_string(),
        is_dir: true,
        age: Some(Age { secs: 3_000_000, nanos: 0 }),
        children: None,
    };
    assert_eq!((RustCleaner {}).cleanable(&entry), None);
    assert_eq!((NodeCleaner {}).cleanable(&entry), None);
}

#[test]
fn unreadable_siblings_are_passed_over() {
    let entry = project(vec![
        unreadable(13),
        file("Cargo.toml", 1),
        unreadable(2),
        dir("target", vec![file("a", 10)]),
        Node::ClosedDir { name: "private".to_string(), failure: ReadFailure { code: 13 } },
    ]);
    assert_eq!((RustCleaner {}).cleanable(&entry), Some(10));
}

#[test]
fn an_artifact_that_is_a_file_is_not_cleanable() {
    let entry = project(vec![file("Cargo.toml", 1), file("target", 4096)]);
    assert_eq!((RustCleaner {}).cleanable(&entry), None);
}

#[test]
fn an_artifact_directory_that_cannot_be_listed_is_not_cleanable() {
    let entry = project(vec![
        file("Cargo.toml", 1),
        Node::ClosedDir { name: "target".to_string(), failure: ReadFailure { code: 13 } },
    ]);
    assert_eq!((RustCleaner {}).cleanable(&entry), None);
}

#[test]
fn an_artifact_directory_that_was_not_walked_gives_nothing() {
    let entry = project(vec![
        file("Cargo.toml", 1),
        Node::Unvisited { name: "target".to_string() },
    ]);
    assert_eq!((RustCleaner {}).cleanable(&entry), None);

    let entry = project(vec![
        file("Cargo.toml", 1),
        dir("target", vec![file("a", 10), Node::Unvisited { name: "debug".to_string() }]),
    ]);
    assert_eq!((RustCleaner {}).cleanable(&entry), None);
}

#[test]
fn unvisited_directories_beside_the_artifact_do_not_matter() {
    let entry = project(vec![
        Node::Unvisited { name: "src".to_string() },
        file("Cargo.toml", 1),
        Node::Unvisited { name: ".git".to_string() },
        dir("target", vec![file("a", 10)]),
        Node::Unvisited { name: "node_modules".to_string() },
    ]);
    assert_eq!((RustCleaner {}).cleanable(&entry), Some(10));
    assert_eq!((NodeCleaner {}).cleanable(&entry), None);
}

#[test]
fn an_unvisited_directory_named_like_the_marker_is_no_marker() {
    let entry = project(vec![
        Node::Unvisited { name: "Cargo.toml".to_string() },
        dir("target", vec![file("a", 10)]),
    ]);
    assert_eq!((RustCleaner {}).cleanable(&entry), None);
}

#[test]
fn a_failure_below_the_artifact_directory_gives_nothing() {
    let entry = project(vec![
        file("Cargo.toml", 1),
        dir("target", vec![file("a", 10), dir("debug", vec![unreadable(5)])]),
    ]);
    assert_eq!((RustCleaner {}).cleanable(&entry), None);
}

#[test]
fn an_artifact_directory_too_large_to_count_gives_nothing() {
    let entry = project(vec![
        file("Cargo.toml", 1),
        dir("target", vec![file("a", u64::MAX), file("b", 1)]),
    ]);
    assert_eq!((RustCleaner {}).cleanable(&entry), None);
}

#[test]
fn failures_outside_the_artifact_directory_do_not_matter() {
    let entry = project(vec![
        file("Cargo.toml", 1),
        dir("src", vec![unreadable(5)]),
        dir("target", vec![file("a", 10)]),
    ]);
    assert_eq!((RustCleaner {}).cleanable(&entry), Some(10));
}

#[test]
fn detection_gives_the_same_result_twice() {
    let entry = project(vec![
        file("Cargo.toml", 1),
        dir("target", vec![file("a", 10), file("b", 32)]),
    ]);
    let before = entry.children.as_ref().map(|c| c.len());
    let first = (RustCleaner {}).cleanable(&entry);
    let second = (RustCleaner {}).cleanable(&entry);
    assert_eq!(first, Some(42));
    assert_eq!(first, second);
    assert_eq!((NodeCleaner {}).cleanable(&entry), (NodeCleaner {}).cleanable(&entry));
    assert_eq!(entry.children.as_ref().map(|c| c.len()), before);
}

#[test]
fn detection_looks_only_at_direct_children() {
    let entry = project(vec![dir(
        "nested",
        vec![file("Cargo.toml", 1), dir("target", vec![file("a", 10)])],
    )]);
    assert_eq!((RustCleaner {}).cleanable(&entry), None);

    let entry = project(vec![
        dir("nested", vec![file("Cargo.toml", 1)]),
        dir("target", vec![file("a", 10)]),
    ]);
    assert_eq!((RustCleaner {}).cleanable(&entry), None);
}

#[test]
fn simple_detect_takes_any_pair_of_names() {
    let entry = project(vec![file("go.mod", 1), dir("vendor", vec![file("a", 10), file("b", 5)])]);
    assert_eq!(simple_detect(&entry, "go.mod", "vendor"), Some(15));
    assert_eq!(simple_detect(&entry, "go.sum", "vendor"), None);
    assert_eq!(simple_detect(&entry, "go.mod", "pkg"), None);
    assert_eq!(simple_detect(&entry, "vendor", "vendor"), None);
}

#[test]
fn find_marker_sees_regular_files_only() {
    let listing = vec![
        dir("a", vec![]),
        Node::Other { name: "b".to_string(), len: 1 },
        file("c", 1),
        unreadable(1),
    ];
    assert!(!find_marker(&listing, "a"));
    assert!(!find_marker(&listing, "b"));
    assert!(find_marker(&listing, "c"));
    assert!(!find_marker(&listing, "d"));
    assert!(!find_marker(&vec![], "c"));
}

#[test]
fn find_named_gives_the_first_entry_of_that_name() {
    let listing = vec![
        file("a", 1),
        file("b", 2),
        dir("b", vec![]),
        file("c", 3),
        Node::Unvisited { name: "u".to_string() },
    ];
    assert_eq!(find_named(&listing, "a"), Some(&listing[0]));
    assert_eq!(find_named(&listing, "b"), Some(&listing[1]));
    assert_eq!(find_named(&listing, "c"), Some(&listing[3]));
    assert_eq!(find_named(&listing, "u"), Some(&listing[4]));
    assert_eq!(find_named(&listing, "d"), None);
    assert_eq!(find_named(&vec![unreadable(1)], ""), None);
}

#[test]
fn cleaning_a_rust_project_launches_cargo_clean_in_it() {
    let entry = project(vec![file("Cargo.toml", 1), dir("target", vec![file("a", 10)])]);
    assert_eq!((RustCleaner {}).cleanable(&entry), Some(10));
    assert_eq!(
        (RustCleaner {}).clean(&entry),
        CleanAction::Launch { program: "cargo", argument: "clean" }
    );
}

#[test]
fn cleaning_a_node_project_removes_node_modules() {
    let entry = project(vec![file("package-lock.json", 1), dir("node_modules", vec![])]);
    assert_eq!((NodeCleaner {}).cleanable(&entry), Some(0));
    assert_eq!(
        (NodeCleaner {}).clean(&entry),
        CleanAction::RemoveTree { name: "node_modules" }
    );
}
