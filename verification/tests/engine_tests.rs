use doc_browser::engine::{DownloadEngine, EngineAction, EngineEvent, EngineState};
use doc_browser::errors::AppError;
use doc_browser::item::Item;

fn doc(id: &str, name: &str) -> Item {
    Item {
        id: id.to_string(),
        visible_name: name.to_string(),
        item_type: "DocumentType".to_string(),
    }
}

fn folder(id: &str, name: &str) -> Item {
    Item {
        id: id.to_string(),
        visible_name: name.to_string(),
        item_type: "CollectionType".to_string(),
    }
}

#[test]
fn single_document_download() {
    let (mut eng, first) = DownloadEngine::start(doc("d1", "My Report"), "/out/report.pdf".to_string());
    match first {
        EngineAction::FetchDocument(id, path) => {
            assert_eq!(id, "d1");
            assert_eq!(path, "/out/report.pdf");
        },
        _ => panic!("expected the document fetch first"),
    }
    let next = eng.on_event(EngineEvent::DocumentSaved);
    assert!(next.is_none());
    assert_eq!(eng.outcome().unwrap(), "/out/report.pdf");
}

#[test]
fn folder_tree_downloads_depth_first_in_listing_order() {
    // Top folder with one subfolder (holding one document) and one
    // top-level document: exactly two documents are fetched, the
    // subfolder becomes a directory, and the subtree is finished before
    // the later sibling.
    let (mut eng, first) = DownloadEngine::start(folder("t", "Top"), "/d/Top".to_string());
    let mut actions = vec![first];
    let mut fetched_docs: Vec<(String, String)> = Vec::new();
    let mut created_dirs: Vec<String> = Vec::new();

    let mut next = Some(actions.pop().unwrap());
    while let Some(action) = next {
        let event = match &action {
            EngineAction::CreateDir(path) => {
                created_dirs.push(path.clone());
                EngineEvent::DirCreated
            },
            EngineAction::FetchListing(id, _path) => {
                if id == "t" {
                    EngineEvent::Listing(vec![folder("s", "Sub"), doc("d2", "Doc Two")])
                } else {
                    assert_eq!(id, "s");
                    EngineEvent::Listing(vec![doc("d1", "Doc One")])
                }
            },
            EngineAction::FetchDocument(id, path) => {
                fetched_docs.push((id.clone(), path.clone()));
                EngineEvent::DocumentSaved
            },
        };
        next = eng.on_event(event);
    }

    assert_eq!(created_dirs, vec!["/d/Top".to_string(), "/d/Top/Sub".to_string()]);
    assert_eq!(
        fetched_docs,
        vec![
            ("d1".to_string(), "/d/Top/Sub/Doc_One.pdf".to_string()),
            ("d2".to_string(), "/d/Top/Doc_Two.pdf".to_string()),
        ],
        "exactly two documents, subtree first, in listing order"
    );
    assert_eq!(eng.outcome().unwrap(), "/d/Top");
}

#[test]
fn failure_on_nested_document_aborts_and_keeps_earlier_output() {
    // The top-level document is written before the subfolder is walked;
    // the nested document's transport failure then aborts everything.
    // Nothing ever asks for the earlier file to be removed.
    let (mut eng, first) = DownloadEngine::start(folder("t", "Top"), "/d/Top".to_string());
    match &first {
        EngineAction::CreateDir(path) => assert_eq!(path, "/d/Top"),
        _ => panic!("expected the top directory first"),
    }
    let a = eng.on_event(EngineEvent::DirCreated);
    match &a {
        Some(EngineAction::FetchListing(id, _)) => assert_eq!(id, "t"),
        _ => panic!("expected the top listing"),
    }
    let a = eng.on_event(EngineEvent::Listing(vec![doc("d2", "Doc Two"), folder("s", "Sub")]));
    match &a {
        Some(EngineAction::FetchDocument(id, path)) => {
            assert_eq!(id, "d2");
            assert_eq!(path, "/d/Top/Doc_Two.pdf");
        },
        _ => panic!("expected the top-level document first"),
    }
    let a = eng.on_event(EngineEvent::DocumentSaved);
    assert!(matches!(&a, Some(EngineAction::CreateDir(p)) if p == "/d/Top/Sub"));
    let a = eng.on_event(EngineEvent::DirCreated);
    assert!(matches!(&a, Some(EngineAction::FetchListing(id, _)) if id == "s"));
    let a = eng.on_event(EngineEvent::Listing(vec![doc("d1", "Doc One")]));
    assert!(matches!(&a, Some(EngineAction::FetchDocument(id, _)) if id == "d1"));

    let a = eng.on_event(EngineEvent::Failed(AppError::Transport("connection lost".to_string())));
    assert!(a.is_none(), "a failure must end the traversal at once");
    match eng.outcome() {
        Err(AppError::Transport(m)) => assert_eq!(m, "connection lost"),
        _ => panic!("expected the transport failure to surface"),
    }
}

#[test]
fn failure_creating_directory_surfaces_io_error() {
    let (mut eng, first) = DownloadEngine::start(folder("t", "Top"), "/d/Top".to_string());
    assert!(matches!(&first, EngineAction::CreateDir(p) if p == "/d/Top"));
    let a = eng.on_event(EngineEvent::Failed(AppError::Io("permission denied".to_string())));
    assert!(a.is_none());
    match eng.outcome() {
        Err(AppError::Io(m)) => assert_eq!(m, "permission denied"),
        _ => panic!("expected the filesystem failure to surface"),
    }
}

#[test]
fn empty_folder_finishes_immediately() {
    let (mut eng, _first) = DownloadEngine::start(folder("t", "Empty"), "/d/Empty".to_string());
    let a = eng.on_event(EngineEvent::DirCreated);
    assert!(matches!(&a, Some(EngineAction::FetchListing(id, _)) if id == "t"));
    let a = eng.on_event(EngineEvent::Listing(vec![]));
    assert!(a.is_none());
    assert_eq!(eng.outcome().unwrap(), "/d/Empty");
}

#[test]
fn engine_state_reports_progress() {
    let (eng, _first) = DownloadEngine::start(doc("d1", "a"), "/out/a.pdf".to_string());
    assert!(matches!(eng.state, EngineState::Running));
}
