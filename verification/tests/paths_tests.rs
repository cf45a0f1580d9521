use doc_browser::errors::AppError;
use doc_browser::item::Item;
use doc_browser::paths::{base_name, expand_path, join_path, resolve_final_path, upload_form_name};

fn doc(name: &str) -> Item {
    Item {
        id: "id-1".to_string(),
        visible_name: name.to_string(),
        item_type: "DocumentType".to_string(),
    }
}

fn folder(name: &str) -> Item {
    Item {
        id: "id-2".to_string(),
        visible_name: name.to_string(),
        item_type: "CollectionType".to_string(),
    }
}

#[test]
fn expand_bare_tilde_uses_home() {
    let home = Some("/home/user".to_string());
    assert_eq!(expand_path("~", &home), "/home/user");
}

#[test]
fn expand_tilde_prefix_uses_home() {
    let home = Some("/home/user".to_string());
    assert_eq!(expand_path("~/docs/a.pdf", &home), "/home/user/docs/a.pdf");
}

#[test]
fn expand_without_home_keeps_path() {
    assert_eq!(expand_path("~", &None), "~");
    assert_eq!(expand_path("~/docs", &None), "~/docs");
}

#[test]
fn expand_leaves_ordinary_paths_alone() {
    let home = Some("/home/user".to_string());
    assert_eq!(expand_path("/tmp/x", &home), "/tmp/x");
    assert_eq!(expand_path("rel/~x", &home), "rel/~x");
}

#[test]
fn join_inserts_separator_only_when_needed() {
    assert_eq!(join_path("/tmp/out/", "a.pdf"), "/tmp/out/a.pdf");
    assert_eq!(join_path("/tmp/out", "a.pdf"), "/tmp/out/a.pdf");
    assert_eq!(join_path("", "a.pdf"), "a.pdf");
}

#[test]
fn base_name_takes_last_component() {
    assert_eq!(base_name("/tmp/a.txt"), Some("a.txt".to_string()));
    assert_eq!(base_name("a.txt"), Some("a.txt".to_string()));
    assert_eq!(base_name("/tmp/dir/"), Some("dir".to_string()));
}

#[test]
fn base_name_rejects_rootlike_paths() {
    assert_eq!(base_name(""), None);
    assert_eq!(base_name("/"), None);
    assert_eq!(base_name("///"), None);
}

#[test]
fn upload_form_name_rejects_invalid_input() {
    match upload_form_name("/") {
        Err(AppError::InvalidInput(p)) => assert_eq!(p, "/"),
        other => panic!("expected InvalidInput, got {:?}", other),
    }
    assert_eq!(upload_form_name("/tmp/a.txt").unwrap(), "a.txt");
}

#[test]
fn resolve_into_existing_directory_joins_safe_name() {
    let r = resolve_final_path(&doc("My Report"), "/tmp/out/", false, true, true);
    assert_eq!(r.unwrap(), "/tmp/out/My_Report.pdf");
}

#[test]
fn resolve_into_missing_directory_is_not_found() {
    let r = resolve_final_path(&doc("My Report"), "/tmp/out/", false, false, false);
    match r {
        Err(AppError::NotFound(p)) => assert_eq!(p, "/tmp/out/"),
        _ => panic!("expected NotFound"),
    }
}

#[test]
fn resolve_existing_dir_without_trailing_separator() {
    let r = resolve_final_path(&folder("Stuff"), "/tmp/out", true, true, true);
    assert_eq!(r.unwrap(), "/tmp/out/Stuff");
}

#[test]
fn resolve_verbatim_path_renames() {
    let r = resolve_final_path(&folder("Stuff"), "/tmp/renamed", false, false, true);
    assert_eq!(r.unwrap(), "/tmp/renamed");
}

#[test]
fn resolve_verbatim_path_needs_existing_parent() {
    let r = resolve_final_path(&doc("a"), "/no/such/dir/file", false, false, false);
    match r {
        Err(AppError::NotFound(p)) => assert_eq!(p, "/no/such/dir/file"),
        _ => panic!("expected NotFound"),
    }
}

#[test]
fn error_detail_carries_payload() {
    assert_eq!(AppError::Transport("boom".to_string()).detail().as_str(), "boom");
    assert_eq!(AppError::NotFound("/x".to_string()).detail().as_str(), "/x");
    assert_eq!(AppError::Io("disk".to_string()).detail().as_str(), "disk");
    assert_eq!(AppError::InvalidInput("".to_string()).detail().as_str(), "");
}

#[test]
fn item_kind_comes_from_type_string() {
    assert!(folder("f").is_folder());
    assert!(!doc("d").is_folder());
}
