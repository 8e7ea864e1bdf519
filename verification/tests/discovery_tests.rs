use infra_builder::discovery::{
    candidate_unit, entry_point_path, find_rust_crates, is_manifest_path, package_name,
    tree_has_path, RustCrate, TreeEntry,
};

fn file(path: &str, contents: &str) -> TreeEntry {
    TreeEntry { path: path.to_string(), is_file: true, contents: Some(contents.to_string()) }
}

fn dir(path: &str) -> TreeEntry {
    TreeEntry { path: path.to_string(), is_file: false, contents: None }
}

fn unit(name: &str, dir: &str) -> RustCrate {
    RustCrate {
        name: name.to_string(),
        main_rs_path: format!("{}src/main.rs", dir),
        cargo_toml_path: format!("{}Cargo.toml", dir),
    }
}

const API: &str = "[package]\nname = \"api\"\nversion = \"0.1.0\"\n\n[dependencies]\ntokio = \"1\"\n";
const WORKER: &str = "[package]\nname = \"worker\"\n";

#[test]
fn manifest_paths_end_in_the_manifest_name() {
    assert!(is_manifest_path("Cargo.toml"));
    assert!(is_manifest_path("a/Cargo.toml"));
    assert!(is_manifest_path("/root/ws/api/Cargo.toml"));
    assert!(!is_manifest_path("a/NotCargo.toml"));
    assert!(!is_manifest_path("a/Cargo.toml.orig"));
    assert!(!is_manifest_path("a/Cargo.lock"));
    assert!(!is_manifest_path("a/cargo.toml"));
    assert!(!is_manifest_path(""));
    assert!(!is_manifest_path("toml"));
    assert!(is_manifest_path("\u{e9}t\u{e9}/Cargo.toml"));
}

#[test]
fn entry_point_lies_beside_the_manifest() {
    assert_eq!(entry_point_path("Cargo.toml"), Some("src/main.rs".to_string()));
    assert_eq!(entry_point_path("ws/api/Cargo.toml"), Some("ws/api/src/main.rs".to_string()));
    assert_eq!(
        entry_point_path("\u{e9}t\u{e9}/Cargo.toml"),
        Some("\u{e9}t\u{e9}/src/main.rs".to_string())
    );
    assert_eq!(entry_point_path("ws/api/src/main.rs"), None);
    assert_eq!(entry_point_path(""), None);
}

#[test]
fn package_name_is_read_from_the_manifest() {
    assert_eq!(package_name(API), Some("api".to_string()));
    assert_eq!(package_name("package = { name = \"inline\" }"), Some("inline".to_string()));
}

#[test]
fn manifest_without_a_name_gives_none() {
    assert_eq!(package_name(""), None);
    assert_eq!(package_name("[workspace]\nmembers = [\"a\"]\n"), None);
    assert_eq!(package_name("[package]\nversion = \"1.0.0\"\n"), None);
    assert_eq!(package_name("[package]\nname = 3\n"), None);
    assert_eq!(package_name("package = \"flat\"\n"), None);
    assert_eq!(package_name("name = \"top\"\n"), None);
}

#[test]
fn malformed_manifest_gives_none() {
    assert_eq!(package_name("[package\nname = \"api\""), None);
    assert_eq!(package_name("this is not toml"), None);
    assert_eq!(package_name("[package]\nname = \"api"), None);
}

#[test]
fn candidate_needs_manifest_name_and_entry_point() {
    assert_eq!(
        candidate_unit("ws/api/Cargo.toml", Some("api".to_string()), true),
        Some(unit("api", "ws/api/"))
    );
    assert_eq!(candidate_unit("ws/api/Cargo.toml", Some("api".to_string()), false), None);
    assert_eq!(candidate_unit("ws/api/Cargo.toml", None, true), None);
    assert_eq!(candidate_unit("ws/api/Other.toml", Some("api".to_string()), true), None);
}

#[test]
fn tree_lookup_is_by_whole_path() {
    let tree = vec![dir("ws"), file("ws/api/src/main.rs", "fn main() {}")];
    assert!(tree_has_path(&tree, "ws/api/src/main.rs"));
    assert!(tree_has_path(&tree, "ws"));
    assert!(!tree_has_path(&tree, "ws/api"));
    assert!(!tree_has_path(&vec![], "ws"));
}

#[test]
fn scan_finds_every_program() {
    let tree = vec![
        dir("ws"),
        dir("ws/api"),
        file("ws/api/Cargo.toml", API),
        dir("ws/api/src"),
        file("ws/api/src/main.rs", "fn main() {}"),
        dir("ws/worker"),
        file("ws/worker/Cargo.toml", WORKER),
        file("ws/worker/src/main.rs", "fn main() {}"),
    ];
    assert_eq!(find_rust_crates(&tree), vec![unit("api", "ws/api/"), unit("worker", "ws/worker/")]);
}

#[test]
fn scan_of_an_empty_tree_is_empty() {
    assert_eq!(find_rust_crates(&vec![]), vec![]);
}

#[test]
fn library_without_entry_point_is_skipped() {
    let tree = vec![
        file("ws/lib/Cargo.toml", "[package]\nname = \"lib\"\n"),
        file("ws/lib/src/lib.rs", ""),
        file("ws/api/Cargo.toml", API),
        file("ws/api/src/main.rs", "fn main() {}"),
    ];
    assert_eq!(find_rust_crates(&tree), vec![unit("api", "ws/api/")]);
}

#[test]
fn malformed_manifest_does_not_stop_the_scan() {
    let tree = vec![
        file("ws/broken/Cargo.toml", "[package\nname = "),
        file("ws/broken/src/main.rs", "fn main() {}"),
        file("ws/api/Cargo.toml", API),
        file("ws/api/src/main.rs", "fn main() {}"),
        file("ws/nameless/Cargo.toml", "[workspace]\n"),
        file("ws/nameless/src/main.rs", "fn main() {}"),
        TreeEntry { path: "ws/locked/Cargo.toml".to_string(), is_file: true, contents: None },
        file("ws/locked/src/main.rs", "fn main() {}"),
        file("ws/worker/Cargo.toml", WORKER),
        file("ws/worker/src/main.rs", "fn main() {}"),
    ];
    assert_eq!(find_rust_crates(&tree), vec![unit("api", "ws/api/"), unit("worker", "ws/worker/")]);
}

#[test]
fn directory_named_like_a_manifest_is_no_manifest() {
    let tree = vec![
        TreeEntry {
            path: "ws/Cargo.toml".to_string(),
            is_file: false,
            contents: Some(API.to_string()),
        },
        file("ws/src/main.rs", "fn main() {}"),
    ];
    assert_eq!(find_rust_crates(&tree), vec![]);
}

#[test]
fn manifest_at_the_root_of_the_tree() {
    let tree = vec![file("Cargo.toml", WORKER), file("src/main.rs", "fn main() {}")];
    assert_eq!(find_rust_crates(&tree), vec![unit("worker", "")]);
}
