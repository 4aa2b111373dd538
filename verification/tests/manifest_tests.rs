use rustup_distribution::{FsNode, excluded_name, write_directory_entries};

fn file(name: &str) -> FsNode {
    FsNode::File { name: name.to_string() }
}

fn dir(name: &str, entries: Vec<FsNode>) -> FsNode {
    FsNode::Dir { name: name.to_string(), entries }
}

#[test]
fn manifest_lists_exactly_the_regular_files() {
    // manifest.in and .crates.toml sit beside bin/ and share/: only the
    // two real files may appear, wherever the traversal puts them
    let root = vec![
        file("manifest.in"),
        file(".crates.toml"),
        dir("bin", vec![file("tool")]),
        dir("share", vec![dir("doc", vec![file("readme")])]),
    ];
    let lines = write_directory_entries(root);
    assert_eq!(lines.len(), 2);
    assert!(lines.contains(&"file:bin/tool".to_string()));
    assert!(lines.contains(&"file:share/doc/readme".to_string()));
    assert!(!lines.iter().any(|l| l.contains("manifest.in")));
    assert!(!lines.iter().any(|l| l.contains(".crates.toml")));
}

#[test]
fn manifest_traversal_is_breadth_first() {
    let root = vec![
        file("a"),
        dir("d", vec![file("b")]),
        file("c"),
    ];
    let lines = write_directory_entries(root);
    assert_eq!(lines, vec!["file:a", "file:c", "file:d/b"]);
}

#[test]
fn bookkeeping_files_are_excluded_at_any_depth() {
    let root = vec![
        dir("nested", vec![file(".crates2.json"), file("manifest.in"), file("kept")]),
    ];
    let lines = write_directory_entries(root);
    assert_eq!(lines, vec!["file:nested/kept"]);
}

#[test]
fn empty_tree_yields_empty_manifest() {
    let lines = write_directory_entries(Vec::new());
    assert!(lines.is_empty());
}

#[test]
fn excluded_names_are_exactly_the_bookkeeping_set() {
    assert!(excluded_name(&"manifest.in".to_string()));
    assert!(excluded_name(&".crates.toml".to_string()));
    assert!(excluded_name(&".crates2.json".to_string()));
    assert!(!excluded_name(&"manifest.txt".to_string()));
    assert!(!excluded_name(&"crates.toml".to_string()));
}

#[test]
fn duplicate_names_produce_duplicate_lines() {
    let root = vec![file("twice"), file("twice")];
    let lines = write_directory_entries(root);
    assert_eq!(lines, vec!["file:twice", "file:twice"]);
}
