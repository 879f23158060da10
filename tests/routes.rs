use std::collections::HashMap;

use pastebin::paste_id::PasteId;
use pastebin::routes::{
    delete, index, reply, retrieve, upload, upload_as, upload_path, Config, Outcome, Plan, Reply,
};

const HOST: &str = "http://0x0.anima.nz";
const SECRET: &str = "letmein";

fn config() -> Config {
    Config {
        host: HOST.to_string(),
        secret: SECRET.to_string(),
        root: "upload".to_string(),
        id_length: 5,
    }
}

/// Carries out a plan on an in-memory directory, as the server does on disk.
fn run(store: &mut HashMap<String, Vec<u8>>, plan: Plan) -> Reply {
    let outcome = match &plan {
        Plan::Respond { .. } => Outcome::Done,
        Plan::Fetch { path } => match store.get(path) {
            Some(b) => Outcome::Contents(b.clone()),
            None => Outcome::Missing,
        },
        Plan::Store { path, body, .. } => {
            store.insert(path.clone(), body.clone());
            Outcome::Done
        }
        Plan::Create { path, body, .. } => {
            if store.contains_key(path) {
                Outcome::Exists
            } else {
                store.insert(path.clone(), body.clone());
                Outcome::Done
            }
        }
        Plan::Remove { path, .. } => match store.remove(path) {
            Some(_) => Outcome::Done,
            None => Outcome::Missing,
        },
    };
    reply(plan, outcome)
}

fn text(status: u16, t: &str) -> Reply {
    Reply::Text { status, text: t.to_string() }
}

fn content(b: &[u8]) -> Reply {
    Reply::Content { bytes: b.to_vec() }
}

#[test]
fn post_then_get_returns_body() {
    let cfg = config();
    let mut store = HashMap::new();
    let r = run(&mut store, upload(&cfg, b"hello".to_vec()));
    let url = match r {
        Reply::Text { status: 200, text } => text,
        other => panic!("unexpected reply {:?}", other),
    };
    let prefix = format!("{}/", HOST);
    assert!(url.starts_with(&prefix));
    let id = &url[prefix.len()..];
    assert_eq!(id.len(), 5);
    assert!(id.chars().all(|c| c.is_ascii_alphanumeric()));
    assert_eq!(run(&mut store, retrieve(&cfg, id)), content(b"hello"));
}

#[test]
fn put_twice_conflicts_and_keeps_first() {
    let cfg = config();
    let mut store = HashMap::new();
    let r1 = run(&mut store, upload_path(&cfg, "notes.txt", Some(SECRET), b"v1".to_vec()));
    assert_eq!(r1, text(200, "http://0x0.anima.nz/notes.txt"));
    let r2 = run(&mut store, upload_path(&cfg, "notes.txt", Some(SECRET), b"v2".to_vec()));
    assert_eq!(r2, text(409, "Cannot PUT: id exists"));
    assert_eq!(run(&mut store, retrieve(&cfg, "notes.txt")), content(b"v1"));
}

#[test]
fn delete_then_get_is_not_found() {
    let cfg = config();
    let mut store = HashMap::new();
    run(&mut store, upload_path(&cfg, "notes.txt", Some(SECRET), b"v1".to_vec()));
    let r = run(&mut store, delete(&cfg, "notes.txt", Some(SECRET)));
    assert_eq!(r, text(200, "Deleted: notes.txt"));
    assert_eq!(run(&mut store, retrieve(&cfg, "notes.txt")), text(404, "Not found"));
}

#[test]
fn delete_missing_still_confirms() {
    let cfg = config();
    let mut store = HashMap::new();
    let r = run(&mut store, delete(&cfg, "ghost.txt", Some(SECRET)));
    assert_eq!(r, text(200, "Deleted: ghost.txt"));
    assert!(store.is_empty());
}

#[test]
fn unauthorized_put_and_delete_change_nothing() {
    let cfg = config();
    let mut store = HashMap::new();
    run(&mut store, upload_path(&cfg, "keep.txt", Some(SECRET), b"k".to_vec()));
    let before = store.clone();
    for token in [None, Some("wrong"), Some("letmei"), Some("letmein!")] {
        let p = upload_path(&cfg, "new.txt", token, b"x".to_vec());
        assert!(matches!(p, Plan::Respond { .. }));
        assert_eq!(run(&mut store, p), text(401, "Unauthorized"));
        let d = delete(&cfg, "keep.txt", token);
        assert!(matches!(d, Plan::Respond { .. }));
        assert_eq!(run(&mut store, d), text(401, "Unauthorized"));
    }
    assert_eq!(store, before);
}

#[test]
fn invalid_names_are_refused() {
    let cfg = config();
    let mut store = HashMap::new();
    for name in ["", "..", ".", "a/b", "../etc", "a\\b", "bad name"] {
        let p = upload_path(&cfg, name, Some(SECRET), b"x".to_vec());
        assert_eq!(run(&mut store, p), text(400, "Invalid identifier"));
        let d = delete(&cfg, name, Some(SECRET));
        assert_eq!(run(&mut store, d), text(400, "Invalid identifier"));
        assert_eq!(run(&mut store, retrieve(&cfg, name)), text(404, "Not found"));
    }
    assert!(store.is_empty());
}

#[test]
fn plans_name_files_under_the_root() {
    let cfg = config();
    match retrieve(&cfg, "abc") {
        Plan::Fetch { path } => assert_eq!(path, "upload/abc"),
        _ => panic!("expected a fetch plan"),
    }
    let id = PasteId::from_draws(&vec![0, 10, 36, 61, 62]);
    match upload_as(&cfg, &id, b"z".to_vec()) {
        Plan::Store { path, body, url } => {
            assert_eq!(path, "upload/0Aaz0");
            assert_eq!(body, b"z".to_vec());
            assert_eq!(url, "http://0x0.anima.nz/0Aaz0");
        }
        _ => panic!("expected a store plan"),
    }
}

#[test]
fn replies_for_each_outcome() {
    let fetch = || Plan::Fetch { path: "upload/a".to_string() };
    assert_eq!(reply(fetch(), Outcome::Contents(vec![1, 2])), content(&[1, 2]));
    assert_eq!(reply(fetch(), Outcome::Missing), text(404, "Not found"));
    assert_eq!(reply(fetch(), Outcome::Failed), text(500, "Internal error"));
    let create = || Plan::Create {
        path: "upload/a".to_string(),
        body: vec![],
        url: "h/a".to_string(),
    };
    assert_eq!(reply(create(), Outcome::Done), text(200, "h/a"));
    assert_eq!(reply(create(), Outcome::Exists), text(409, "Cannot PUT: id exists"));
    assert_eq!(reply(create(), Outcome::Failed), text(500, "Internal error"));
    let store = Plan::Store { path: "upload/a".to_string(), body: vec![], url: "h/a".to_string() };
    assert_eq!(reply(store, Outcome::Failed), text(500, "Internal error"));
    let remove = || Plan::Remove { path: "upload/a".to_string(), name: "a".to_string() };
    assert_eq!(reply(remove(), Outcome::Done), text(200, "Deleted: a"));
    assert_eq!(reply(remove(), Outcome::Missing), text(200, "Deleted: a"));
    assert_eq!(reply(remove(), Outcome::Failed), text(500, "Internal error"));
}

#[test]
fn index_describes_routes() {
    let t = index();
    assert!(t.contains("USAGE"));
    assert!(t.contains("POST /"));
    assert!(t.contains("GET /<id>"));
    assert!(t.contains("PUT /<filename>"));
}
