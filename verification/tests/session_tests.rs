use doc_browser::item::Item;
use doc_browser::session::{Action, AppLogic, AppMessage, InputMode, Key, KeyOutcome, Status};

fn doc(id: &str, name: &str) -> Item {
    Item {
        id: id.to_string(),
        visible_name: name.to_string(),
        item_type: "DocumentType".to_string(),
    }
}

fn folder(id: &str, name: &str) -> Item {
    Item {
        id: id.to_string(),
        visible_name: name.to_string(),
        item_type: "CollectionType".to_string(),
    }
}

fn with_items(items: Vec<Item>) -> AppLogic {
    let mut logic = AppLogic::new();
    let tag = logic.current_guid.clone();
    logic.apply_message(AppMessage::DocumentsFetched(tag, items));
    logic
}

#[test]
fn new_session_starts_at_root() {
    let logic = AppLogic::new();
    assert!(logic.items.is_empty());
    assert!(logic.selected.is_none());
    assert!(logic.current_guid.is_none());
    assert!(logic.history.is_empty());
    assert!(matches!(logic.input_mode, InputMode::Normal));
    assert!(logic.input_buffer.is_empty());
    assert!(matches!(logic.status, Status::Ready));
}

#[test]
fn selection_wraps_forward_past_last() {
    let mut logic = with_items(vec![doc("1", "a"), doc("2", "b"), doc("3", "c")]);
    logic.next();
    assert_eq!(logic.selected, Some(0));
    logic.next();
    logic.next();
    assert_eq!(logic.selected, Some(2));
    logic.next();
    assert_eq!(logic.selected, Some(0));
}

#[test]
fn selection_wraps_backward_past_first() {
    let mut logic = with_items(vec![doc("1", "a"), doc("2", "b"), doc("3", "c")]);
    logic.previous();
    assert_eq!(logic.selected, Some(0));
    logic.previous();
    assert_eq!(logic.selected, Some(2));
    logic.previous();
    assert_eq!(logic.selected, Some(1));
}

#[test]
fn selection_is_noop_on_empty_listing() {
    let mut logic = AppLogic::new();
    logic.next();
    assert_eq!(logic.selected, None);
    logic.previous();
    assert_eq!(logic.selected, None);
}

#[test]
fn enter_pushes_history_and_refreshes() {
    let mut logic = with_items(vec![folder("f1", "Folder")]);
    logic.next();
    let action = logic.enter();
    assert_eq!(logic.current_guid.as_deref(), Some("f1"));
    assert_eq!(logic.history, vec![None]);
    assert_eq!(logic.selected, None);
    assert!(matches!(logic.status, Status::Loading));
    match action {
        Some(Action::Refresh(tag)) => assert_eq!(tag.as_deref(), Some("f1")),
        _ => panic!("expected a refresh of the entered folder"),
    }
}

#[test]
fn enter_on_document_does_nothing() {
    let mut logic = with_items(vec![doc("d1", "Doc")]);
    logic.next();
    let action = logic.enter();
    assert!(action.is_none());
    assert!(logic.current_guid.is_none());
    assert!(logic.history.is_empty());
    assert_eq!(logic.selected, Some(0));
}

#[test]
fn go_back_pops_history() {
    let mut logic = with_items(vec![folder("f1", "Folder")]);
    logic.next();
    logic.enter();
    let action = logic.go_back();
    assert!(logic.current_guid.is_none());
    assert!(logic.history.is_empty());
    match action {
        Some(Action::Refresh(tag)) => assert_eq!(tag, None),
        _ => panic!("expected a refresh of the parent"),
    }
}

#[test]
fn go_back_at_root_only_reports() {
    let mut logic = AppLogic::new();
    let action = logic.go_back();
    assert!(action.is_none());
    assert!(matches!(logic.status, Status::AlreadyAtRoot));
    assert!(logic.current_guid.is_none());
}

#[test]
fn navigation_replay_balances_enters_and_backs() {
    // Two enters, one back, one more enter: three opens minus one, so the
    // history holds two unmatched enters and the session is not at root.
    let mut logic = with_items(vec![folder("a", "A")]);
    logic.next();
    logic.enter();
    logic.apply_message(AppMessage::DocumentsFetched(
        Some("a".to_string()),
        vec![folder("b", "B")],
    ));
    logic.next();
    logic.enter();
    logic.go_back();
    logic.apply_message(AppMessage::DocumentsFetched(
        Some("a".to_string()),
        vec![folder("b", "B")],
    ));
    logic.next();
    logic.enter();
    assert_eq!(logic.history.len(), 2);
    assert!(logic.current_guid.is_some());
    // Matching backs for every enter return to the root exactly then.
    logic.go_back();
    assert!(logic.current_guid.is_some());
    logic.go_back();
    assert!(logic.current_guid.is_none());
    assert_eq!(logic.history.len(), 0);
}

#[test]
fn stale_listing_is_discarded() {
    // A listing requested for folder "a" arrives after the user moved on
    // to folder "b": it must not replace what is shown for "b".
    let mut logic = with_items(vec![folder("a", "A"), folder("b", "B")]);
    logic.next();
    logic.next();
    logic.enter();
    assert_eq!(logic.current_guid.as_deref(), Some("b"));
    let shown = vec![doc("x", "In B")];
    logic.apply_message(AppMessage::DocumentsFetched(Some("b".to_string()), shown));
    assert_eq!(logic.items.len(), 1);
    assert_eq!(logic.items[0].id, "x");

    let late = vec![doc("y", "In A"), doc("z", "Also in A")];
    let action = logic.apply_message(AppMessage::DocumentsFetched(Some("a".to_string()), late));
    assert!(action.is_none());
    assert_eq!(logic.items.len(), 1);
    assert_eq!(logic.items[0].id, "x");
}

#[test]
fn matching_listing_replaces_entries_and_clears_cursor() {
    let mut logic = with_items(vec![doc("1", "a")]);
    logic.next();
    assert_eq!(logic.selected, Some(0));
    let action = logic.apply_message(AppMessage::DocumentsFetched(
        None,
        vec![doc("2", "b"), doc("3", "c")],
    ));
    assert!(action.is_none());
    assert_eq!(logic.items.len(), 2);
    assert_eq!(logic.selected, None);
    assert!(matches!(logic.status, Status::Loaded(2)));
}

#[test]
fn upload_completion_triggers_refresh() {
    let mut logic = AppLogic::new();
    let action = logic.apply_message(AppMessage::UploadComplete("/tmp/a.pdf".to_string()));
    assert!(matches!(logic.status, Status::Loading));
    match action {
        Some(Action::Refresh(tag)) => assert_eq!(tag, None),
        _ => panic!("expected a refresh after the upload"),
    }
}

#[test]
fn download_completion_and_errors_only_report() {
    let mut logic = AppLogic::new();
    let a = logic.apply_message(AppMessage::DownloadComplete(
        "Doc".to_string(),
        "/tmp/Doc.pdf".to_string(),
    ));
    assert!(a.is_none());
    match &logic.status {
        Status::Downloaded(name, path) => {
            assert_eq!(name, "Doc");
            assert_eq!(path, "/tmp/Doc.pdf");
        },
        _ => panic!("expected a download report"),
    }
    let a = logic.apply_message(AppMessage::Error("boom".to_string()));
    assert!(a.is_none());
    match &logic.status {
        Status::Failed(e) => assert_eq!(e, "boom"),
        _ => panic!("expected a failure report"),
    }
}

#[test]
fn download_prompt_needs_a_selection() {
    let mut logic = with_items(vec![doc("1", "a")]);
    logic.download();
    assert!(matches!(logic.input_mode, InputMode::Normal));
    logic.next();
    logic.download();
    assert!(matches!(logic.input_mode, InputMode::Downloading));
    match &logic.status {
        Status::DownloadPrompt(name) => assert_eq!(name, "a"),
        _ => panic!("expected the download prompt"),
    }
}

#[test]
fn cancelling_prompts_returns_to_normal() {
    let mut logic = with_items(vec![doc("1", "a")]);
    logic.next();
    logic.download();
    logic.cancel_download();
    assert!(matches!(logic.input_mode, InputMode::Normal));
    assert!(matches!(logic.status, Status::DownloadCancelled));
    logic.start_upload();
    logic.cancel_upload();
    assert!(matches!(logic.input_mode, InputMode::Normal));
    assert!(matches!(logic.status, Status::UploadCancelled));
}

fn type_text(logic: &mut AppLogic, text: &str) {
    for c in text.chars() {
        logic.handle_key(Key::Char(c), &None);
    }
}

#[test]
fn confirm_download_rejects_empty_path() {
    let mut logic = with_items(vec![doc("1", "a")]);
    logic.next();
    logic.download();
    type_text(&mut logic, "   ");
    let action = logic.confirm_download(&None);
    assert!(action.is_none());
    assert!(matches!(logic.status, Status::EmptyPath));
    assert!(matches!(logic.input_mode, InputMode::Downloading));
}

#[test]
fn confirm_download_spawns_with_expanded_path() {
    let mut logic = with_items(vec![doc("1", "My Report")]);
    logic.next();
    logic.download();
    type_text(&mut logic, " ~/out/ ");
    let home = Some("/home/u".to_string());
    let action = logic.confirm_download(&home);
    assert!(matches!(logic.input_mode, InputMode::Normal));
    match action {
        Some(Action::StartDownload(item, dest)) => {
            assert_eq!(item.id, "1");
            assert_eq!(dest, "/home/u/out/");
        },
        _ => panic!("expected a download request"),
    }
    match &logic.status {
        Status::DownloadStarted(name, dest) => {
            assert_eq!(name, "My Report");
            assert_eq!(dest, "/home/u/out/");
        },
        _ => panic!("expected a running-download report"),
    }
}

#[test]
fn confirm_upload_rejects_missing_file_before_any_request() {
    let mut logic = AppLogic::new();
    logic.start_upload();
    type_text(&mut logic, "/no/such/file.pdf");
    let action = logic.confirm_upload(&None, false);
    assert!(action.is_none(), "nothing may be requested for a missing file");
    assert!(matches!(logic.status, Status::MissingLocalFile));
    assert!(matches!(logic.input_mode, InputMode::Uploading));
}

#[test]
fn confirm_upload_rejects_empty_path() {
    let mut logic = AppLogic::new();
    logic.start_upload();
    let action = logic.confirm_upload(&None, true);
    assert!(action.is_none());
    assert!(matches!(logic.status, Status::EmptyPath));
}

#[test]
fn confirm_upload_spawns_with_preflight_folder() {
    let mut logic = with_items(vec![folder("f1", "Folder")]);
    logic.next();
    logic.enter();
    logic.start_upload();
    type_text(&mut logic, "/tmp/new.pdf");
    let action = logic.confirm_upload(&None, true);
    assert!(matches!(logic.input_mode, InputMode::Normal));
    match action {
        Some(Action::StartUpload(path, tag)) => {
            assert_eq!(path, "/tmp/new.pdf");
            assert_eq!(tag.as_deref(), Some("f1"));
        },
        _ => panic!("expected an upload request"),
    }
    match &logic.status {
        Status::UploadStarted(path) => assert_eq!(path, "/tmp/new.pdf"),
        _ => panic!("expected a running-upload report"),
    }
}

#[test]
fn pending_path_trims_and_expands() {
    let mut logic = AppLogic::new();
    logic.start_upload();
    type_text(&mut logic, "  ~/a.pdf\t");
    let home = Some("/home/u".to_string());
    assert_eq!(logic.pending_path(&home), "/home/u/a.pdf");
    assert_eq!(logic.pending_path(&None), "~/a.pdf");
}

#[test]
fn keys_route_by_mode() {
    let mut logic = with_items(vec![folder("f1", "Folder"), doc("d1", "Doc")]);
    assert!(matches!(logic.handle_key(Key::Char('q'), &None), KeyOutcome::Quit));
    logic.handle_key(Key::Down, &None);
    assert_eq!(logic.selected, Some(0));
    logic.handle_key(Key::Char('j'), &None);
    assert_eq!(logic.selected, Some(1));
    logic.handle_key(Key::Char('k'), &None);
    assert_eq!(logic.selected, Some(0));
    match logic.handle_key(Key::Enter, &None) {
        KeyOutcome::Spawn(Action::Refresh(tag)) => assert_eq!(tag.as_deref(), Some("f1")),
        _ => panic!("expected entering the folder to spawn a refresh"),
    }
    match logic.handle_key(Key::Char('h'), &None) {
        KeyOutcome::Spawn(Action::Refresh(tag)) => assert_eq!(tag, None),
        _ => panic!("expected going back to spawn a refresh"),
    }
    match logic.handle_key(Key::Char('r'), &None) {
        KeyOutcome::Spawn(Action::Refresh(tag)) => assert_eq!(tag, None),
        _ => panic!("expected a manual refresh"),
    }
    assert!(matches!(logic.handle_key(Key::Char('x'), &None), KeyOutcome::Idle));
}

#[test]
fn prompt_keys_edit_the_buffer() {
    let mut logic = AppLogic::new();
    logic.handle_key(Key::Char('u'), &None);
    assert!(matches!(logic.input_mode, InputMode::Uploading));
    type_text(&mut logic, "ab");
    logic.handle_key(Key::Backspace, &None);
    type_text(&mut logic, "c");
    assert_eq!(logic.input_buffer, "ac");
    // In a prompt, `q` is text, not quit.
    assert!(matches!(logic.handle_key(Key::Char('q'), &None), KeyOutcome::Idle));
    assert_eq!(logic.input_buffer, "acq");
    assert!(matches!(logic.handle_key(Key::Enter, &None), KeyOutcome::ProbeUpload));
    assert!(matches!(logic.handle_key(Key::Esc, &None), KeyOutcome::Idle));
    assert!(matches!(logic.input_mode, InputMode::Normal));
    assert!(logic.input_buffer.is_empty());
}

#[test]
fn help_text_follows_state() {
    let mut logic = with_items(vec![folder("f1", "Folder"), doc("d1", "Doc")]);
    assert_eq!(logic.get_help_text(), "[q] Quit | [u] Upload | [r] Refresh | [j/k] Nav");
    logic.next();
    assert_eq!(
        logic.get_help_text(),
        "[q] Quit | [u] Upload | [r] Refresh | [j/k] Nav | [l/Enter] Open"
    );
    logic.next();
    assert_eq!(
        logic.get_help_text(),
        "[q] Quit | [u] Upload | [r] Refresh | [j/k] Nav | [d] Download"
    );
    logic.next();
    logic.enter();
    logic.apply_message(AppMessage::DocumentsFetched(Some("f1".to_string()), vec![]));
    assert_eq!(
        logic.get_help_text(),
        "[q] Quit | [u] Upload | [r] Refresh | [j/k] Nav | [h] Back"
    );
    logic.start_upload();
    assert_eq!(logic.get_help_text(), "[Enter] Confirm Upload [Esc] Cancel");
    logic.cancel_upload();
    logic.download();
    assert_eq!(logic.get_help_text(), "[q] Quit | [u] Upload | [r] Refresh | [j/k] Nav | [h] Back");
}
