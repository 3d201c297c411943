use file_tree::builder::build_file_tree;
use file_tree::facade::{get_file_tree, interpret_pick, Selection};
use file_tree::filter::should_skip;
use file_tree::node::FileNode;
use file_tree::snapshot::{ListingOutcome, RawChild, RawEntry};

fn file(name: &str, path: &str) -> RawEntry {
    RawEntry::File { name: name.to_string(), path: path.to_string() }
}

fn dir(name: &str, path: &str, children: Vec<RawChild>) -> RawEntry {
    RawEntry::Dir {
        name: name.to_string(),
        path: path.to_string(),
        listing: ListingOutcome::Listed(children),
    }
}

fn deep_equal(a: &FileNode, b: &FileNode) -> bool {
    if a.name != b.name || a.path != b.path || a.is_directory != b.is_directory {
        return false;
    }
    match (&a.children, &b.children) {
        (None, None) => true,
        (Some(ca), Some(cb)) => {
            ca.len() == cb.len() && ca.iter().zip(cb.iter()).all(|(x, y)| deep_equal(x, y))
        }
        _ => false,
    }
}

#[test]
fn builds_a_plain_file() {
    let r = build_file_tree(&file("a.txt", "/proj/a.txt"));
    let n = r.expect("a file snapshot always builds");
    assert_eq!(n.name, "a.txt");
    assert_eq!(n.path, "/proj/a.txt");
    assert!(!n.is_directory);
    assert!(n.children.is_none());
}

#[test]
fn builds_an_empty_directory() {
    let r = build_file_tree(&dir("src", "/proj/src", vec![]));
    let n = r.expect("a listed directory always builds");
    assert!(n.is_directory);
    assert_eq!(n.children.as_ref().map(|c| c.len()), Some(0));
}

#[test]
fn project_scenario_filters_and_recurses() {
    let src = dir(
        "src",
        "/proj/src",
        vec![RawChild::Found(file("b.txt", "/proj/src/b.txt"))],
    );
    let proj = dir(
        "proj",
        "/proj",
        vec![
            RawChild::Found(file("a.txt", "/proj/a.txt")),
            RawChild::Found(file(".hidden", "/proj/.hidden")),
            RawChild::Found(dir("node_modules", "/proj/node_modules", vec![])),
            RawChild::Found(src),
        ],
    );
    let n = build_file_tree(&proj).expect("the whole build succeeds");
    assert!(n.is_directory);
    let children = n.children.as_ref().expect("a directory has children");
    let names: Vec<&str> = children.iter().map(|c| c.name.as_str()).collect();
    assert_eq!(names, vec!["a.txt", "src"]);
    assert!(!children[0].is_directory);
    assert!(children[0].children.is_none());
    let src_node = &children[1];
    assert!(src_node.is_directory);
    let src_children = src_node.children.as_ref().unwrap();
    assert_eq!(src_children.len(), 1);
    assert_eq!(src_children[0].name, "b.txt");
    assert_eq!(src_children[0].path, "/proj/src/b.txt");
    assert!(!src_children[0].is_directory);
}

#[test]
fn filter_applies_below_the_root() {
    let inner = dir(
        "deep",
        "/p/deep",
        vec![
            RawChild::Found(file(".git", "/p/deep/.git")),
            RawChild::Found(dir("target", "/p/deep/target", vec![])),
            RawChild::Found(file("keep.rs", "/p/deep/keep.rs")),
        ],
    );
    let root = dir("p", "/p", vec![RawChild::Found(inner)]);
    let n = build_file_tree(&root).unwrap();
    let deep = &n.children.as_ref().unwrap()[0];
    assert_eq!(deep.name, "deep");
    let deep_children = deep.children.as_ref().unwrap();
    assert_eq!(deep_children.len(), 1);
    assert_eq!(deep_children[0].name, "keep.rs");
}

#[test]
fn building_twice_gives_identical_trees() {
    let snapshot = dir(
        "p",
        "/p",
        vec![
            RawChild::Found(file("x", "/p/x")),
            RawChild::Found(dir("d", "/p/d", vec![RawChild::Found(file("y", "/p/d/y"))])),
        ],
    );
    let first = build_file_tree(&snapshot).unwrap();
    let second = build_file_tree(&snapshot).unwrap();
    assert!(deep_equal(&first, &second));
}

#[test]
fn missing_root_fails_with_its_message() {
    let r = get_file_tree(Err("No such file or directory (os error 2)".to_string()));
    match r {
        Ok(_) => panic!("a missing root must not yield a tree"),
        Err(m) => {
            assert!(!m.is_empty());
            assert_eq!(m, "No such file or directory (os error 2)");
        }
    }
}

#[test]
fn root_listing_failure_fails_the_build() {
    let raw = RawEntry::Dir {
        name: "p".to_string(),
        path: "/p".to_string(),
        listing: ListingOutcome::Failed("Permission denied (os error 13)".to_string()),
    };
    let r = build_file_tree(&raw);
    match r {
        Ok(_) => panic!("a failed listing must not yield a tree"),
        Err(m) => assert_eq!(m, "Permission denied (os error 13)"),
    }
}

#[test]
fn unreadable_child_is_omitted_and_siblings_kept() {
    let raw = dir(
        "p",
        "/p",
        vec![
            RawChild::Found(file("a", "/p/a")),
            RawChild::Unreadable("Permission denied (os error 13)".to_string()),
            RawChild::Found(file("b", "/p/b")),
        ],
    );
    let n = build_file_tree(&raw).expect("one bad child never fails the build");
    let names: Vec<&str> = n.children.as_ref().unwrap().iter().map(|c| c.name.as_str()).collect();
    assert_eq!(names, vec!["a", "b"]);
}

#[test]
fn child_with_failed_listing_is_omitted() {
    let broken = RawEntry::Dir {
        name: "locked".to_string(),
        path: "/p/locked".to_string(),
        listing: ListingOutcome::Failed("Permission denied (os error 13)".to_string()),
    };
    let raw = dir(
        "p",
        "/p",
        vec![RawChild::Found(broken), RawChild::Found(file("ok", "/p/ok"))],
    );
    let n = build_file_tree(&raw).expect("a broken child never fails the build");
    let names: Vec<&str> = n.children.as_ref().unwrap().iter().map(|c| c.name.as_str()).collect();
    assert_eq!(names, vec!["ok"]);
}

#[test]
fn skip_rules() {
    assert!(should_skip(&".hidden".to_string()));
    assert!(should_skip(&".".to_string()));
    assert!(should_skip(&"node_modules".to_string()));
    assert!(should_skip(&"target".to_string()));
    assert!(!should_skip(&"targets".to_string()));
    assert!(!should_skip(&"node_module".to_string()));
    assert!(!should_skip(&"a.txt".to_string()));
    assert!(!should_skip(&String::new()));
}

#[test]
fn cancelled_pick_is_no_selection_not_an_error() {
    match interpret_pick(None) {
        Selection::Cancelled => {}
        Selection::Chosen(_) => panic!("cancelling must not look like a choice"),
    }
    match interpret_pick(Some("/home/me/proj".to_string())) {
        Selection::Chosen(p) => assert_eq!(p, "/home/me/proj"),
        Selection::Cancelled => panic!("a chosen path must be handed back"),
    }
}
