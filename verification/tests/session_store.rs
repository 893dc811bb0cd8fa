use wicked_migration::document::generate_json;
use wicked_migration::error::MigrateError;
use wicked_migration::file::{File, FileType};
use wicked_migration::index::{Session, SessionIndex};
use wicked_migration::ingest::Batch;
use wicked_migration::store::{
    disposal, ConversionOutcome, Disposal, SessionStore, CLEANUP_INTERVAL_IN_SEC,
    FILE_EXPIRATION_IN_SEC,
};

fn succeeded(log: &str) -> ConversionOutcome {
    ConversionOutcome { success: true, log: log.to_string() }
}

fn failed(log: &str) -> ConversionOutcome {
    ConversionOutcome { success: false, log: log.to_string() }
}

fn is_lower_hex(c: char) -> bool {
    c.is_ascii_digit() || ('a'..='f').contains(&c)
}

#[test]
fn fixed_times() {
    assert_eq!(FILE_EXPIRATION_IN_SEC, 300);
    assert_eq!(CLEANUP_INTERVAL_IN_SEC, 15);
}

#[test]
fn created_session_is_taken_exactly_once() {
    let mut store = SessionStore::new();
    let id = store.create("/tmp/ws1".to_string(), succeeded("fine"), 1_000).unwrap();
    assert!(store.index().contains(&id));
    assert_eq!(
        store.take(&id),
        Ok(Session {
            identifier: id.clone(),
            path: "/tmp/ws1".to_string(),
            log: "fine".to_string(),
            created_at: 1_000,
        })
    );
    assert_eq!(store.take(&id), Err(MigrateError::NotFound));
    assert!(!store.index().contains(&id));
}

#[test]
fn issued_identifier_is_a_hyphenated_token() {
    let mut store = SessionStore::new();
    let id = store.create("/tmp/ws".to_string(), succeeded(""), 0).unwrap();
    assert_eq!(id.len(), 36);
    for (i, c) in id.chars().enumerate() {
        if i == 8 || i == 13 || i == 18 || i == 23 {
            assert_eq!(c, '-');
        } else {
            assert!(is_lower_hex(c));
        }
    }
    assert_eq!(id.as_bytes()[14], b'4');
    assert!(b"89ab".contains(&id.as_bytes()[19]));
}

#[test]
fn every_creation_gets_its_own_identifier() {
    let mut store = SessionStore::new();
    let first = store.create("/tmp/ws1".to_string(), succeeded("1"), 10).unwrap();
    let second = store.create("/tmp/ws2".to_string(), succeeded("2"), 10).unwrap();
    assert_ne!(first, second);
    assert_eq!(store.take(&second).unwrap().path, "/tmp/ws2");
    assert_eq!(store.take(&first).unwrap().path, "/tmp/ws1");
}

#[test]
fn creation_on_a_store_without_identifiers_succeeds() {
    let mut store = SessionStore::new();
    store.register("plain key".to_string(), "/tmp/p".to_string(), String::new(), 1).unwrap();
    for round in 0..50u64 {
        let id = store.create(format!("/tmp/ws{}", round), succeeded("ok"), round).unwrap();
        assert_eq!(store.take(&id).unwrap().path, format!("/tmp/ws{}", round));
    }
}

#[test]
fn unknown_identifier_is_not_found() {
    let mut store = SessionStore::new();
    assert_eq!(store.take("no such session"), Err(MigrateError::NotFound));
    assert_eq!(store.take(""), Err(MigrateError::NotFound));
}

#[test]
fn failed_conversion_reports_the_log_and_registers_nothing() {
    let mut store = SessionStore::new();
    let kept = store.create("/tmp/kept".to_string(), succeeded("ok"), 50).unwrap();
    let log = "Error: cannot parse 'ifcfg-eth0'\nline 3: unexpected token\n";
    assert_eq!(
        store.create("/tmp/ws".to_string(), failed(log), 60),
        Err(MigrateError::MigrationError(log.to_string()))
    );
    assert_eq!(store.index().select_expired(u64::MAX), vec![kept.clone()]);
    assert_eq!(store.reclaim_expired(u64::MAX).len(), 1);
    assert_eq!(store.reclaim_expired(u64::MAX).len(), 0);
}

#[test]
fn failed_conversion_with_empty_log() {
    let mut store = SessionStore::new();
    assert_eq!(
        store.create("/tmp/ws".to_string(), failed(""), 60),
        Err(MigrateError::MigrationError(String::new()))
    );
}

#[test]
fn register_refuses_an_identifier_in_use() {
    let mut store = SessionStore::new();
    assert_eq!(
        store.register("id-1".to_string(), "/tmp/a".to_string(), "a".to_string(), 5),
        Ok("id-1".to_string())
    );
    let again = store.register("id-1".to_string(), "/tmp/b".to_string(), "b".to_string(), 6);
    assert!(matches!(again, Err(MigrateError::ServerError(_))));
    assert_eq!(
        store.take("id-1"),
        Ok(Session {
            identifier: "id-1".to_string(),
            path: "/tmp/a".to_string(),
            log: "a".to_string(),
            created_at: 5,
        })
    );
}

#[test]
fn session_older_than_the_limit_is_reclaimed() {
    let mut store = SessionStore::new();
    store.register("old".to_string(), "/tmp/old".to_string(), "o".to_string(), 1_000).unwrap();
    store.register("new".to_string(), "/tmp/new".to_string(), "n".to_string(), 1_200).unwrap();
    let reclaimed = store.reclaim_expired(1_301);
    assert_eq!(
        reclaimed,
        vec![Session {
            identifier: "old".to_string(),
            path: "/tmp/old".to_string(),
            log: "o".to_string(),
            created_at: 1_000,
        }]
    );
    assert_eq!(store.take("old"), Err(MigrateError::NotFound));
    assert_eq!(store.take("new").unwrap().path, "/tmp/new");
}

#[test]
fn session_at_the_limit_is_kept() {
    let mut store = SessionStore::new();
    store.register("s".to_string(), "/tmp/s".to_string(), String::new(), 1_000).unwrap();
    assert_eq!(store.reclaim_expired(999), Vec::<Session>::new());
    assert_eq!(store.reclaim_expired(1_000), Vec::<Session>::new());
    assert_eq!(store.reclaim_expired(1_299), Vec::<Session>::new());
    assert_eq!(store.reclaim_expired(1_300), Vec::<Session>::new());
    assert!(store.index().contains("s"));
    assert_eq!(store.reclaim_expired(1_301).len(), 1);
    assert!(!store.index().contains("s"));
}

#[test]
fn nothing_is_expired_in_the_first_minutes_of_the_epoch() {
    let mut store = SessionStore::new();
    store.register("s".to_string(), "/tmp/s".to_string(), String::new(), 0).unwrap();
    assert_eq!(store.reclaim_expired(0), Vec::<Session>::new());
    assert_eq!(store.reclaim_expired(299), Vec::<Session>::new());
    assert_eq!(store.reclaim_expired(300), Vec::<Session>::new());
    assert_eq!(store.reclaim_expired(301).len(), 1);
}

#[test]
fn reclamation_takes_all_expired_sessions_at_once() {
    let mut store = SessionStore::new();
    for (id, at) in [("a", 10u64), ("b", 500), ("c", 20), ("d", 30), ("e", 600)] {
        store.register(id.to_string(), format!("/tmp/{}", id), String::new(), at).unwrap();
    }
    let mut gone: Vec<String> =
        store.reclaim_expired(400).into_iter().map(|session| session.identifier).collect();
    gone.sort();
    assert_eq!(gone, vec!["a".to_string(), "c".to_string(), "d".to_string()]);
    assert!(store.index().contains("b"));
    assert!(store.index().contains("e"));
    assert_eq!(store.reclaim_expired(400), Vec::<Session>::new());
}

#[test]
fn take_before_reclaim_leaves_nothing_to_reclaim() {
    let mut store = SessionStore::new();
    store.register("s".to_string(), "/tmp/s".to_string(), "l".to_string(), 100).unwrap();
    assert!(store.take("s").is_ok());
    assert_eq!(store.reclaim_expired(10_000), Vec::<Session>::new());
}

#[test]
fn reclaim_before_take_leaves_nothing_to_take() {
    let mut store = SessionStore::new();
    store.register("s".to_string(), "/tmp/s".to_string(), "l".to_string(), 100).unwrap();
    assert_eq!(store.reclaim_expired(10_000).len(), 1);
    assert_eq!(store.take("s"), Err(MigrateError::NotFound));
}

#[test]
fn store_over_an_index_sees_its_sessions() {
    let mut index = SessionIndex::new();
    index.insert("x".to_string(), "/tmp/x".to_string(), "lx".to_string(), 42).unwrap();
    let mut store = SessionStore::with_index(index);
    assert_eq!(store.index().lookup("x"), Ok(("/tmp/x".to_string(), "lx".to_string())));
    assert_eq!(store.take("x").unwrap().created_at, 42);
}

#[test]
fn converted_document_is_fetched_once() {
    let uploaded = vec![File {
        file_content: "<data/>".to_string(),
        file_name: "a.xml".to_string(),
        file_type: FileType::Xml,
    }];
    let batch = Batch::new(uploaded).unwrap();
    assert_eq!(batch.kind(), FileType::Xml);

    let mut store = SessionStore::new();
    let id = store.create("/tmp/ws".to_string(), succeeded("ok"), 1_700_000_000).unwrap();

    let session = store.take(&id).unwrap();
    assert_eq!(session.log, "ok");
    assert_eq!(session.path, "/tmp/ws");
    let converted = vec![File {
        file_content: "<data/>".to_string(),
        file_name: "a-converted.xml".to_string(),
        file_type: FileType::of_artifact(Some("xml")),
    }];
    assert_eq!(
        generate_json(&session.log, &converted),
        "{\"log\":\"ok\",\"files\":[{\"fileName\":\"a-converted.xml\",\"fileContent\":\"<data/>\"}]}"
    );

    assert_eq!(store.take(&id), Err(MigrateError::NotFound));
}

#[test]
fn confirmed_session_stays() {
    let mut store = SessionStore::new();
    let id = store.create("/tmp/ws".to_string(), succeeded("ok"), 10).unwrap();
    assert_eq!(store.confirm(id.clone(), Ok(())), Ok(id.clone()));
    assert!(store.index().contains(&id));
}

#[test]
fn session_that_cannot_be_stored_is_forgotten() {
    let mut store = SessionStore::new();
    let kept = store.create("/tmp/kept".to_string(), succeeded("ok"), 10).unwrap();
    let id = store.create("/tmp/ws".to_string(), succeeded("ok"), 10).unwrap();
    assert_eq!(
        store.confirm(id.clone(), Err("disk full".to_string())),
        Err(MigrateError::ServerError("disk full".to_string()))
    );
    assert!(!store.index().contains(&id));
    assert!(store.index().contains(&kept));
    assert_eq!(store.take(&id), Err(MigrateError::NotFound));
}

#[test]
fn row_is_forgotten_before_the_directory_is_deleted() {
    let session = Session {
        identifier: "id-9".to_string(),
        path: "/tmp/ws9".to_string(),
        log: "l".to_string(),
        created_at: 3,
    };
    assert_eq!(
        disposal(&session),
        vec![
            Disposal::ForgetRow("id-9".to_string()),
            Disposal::DeleteWorkspace("/tmp/ws9".to_string()),
        ]
    );
}

#[test]
fn reclaimed_sessions_are_disposed_of_with_their_own_directories() {
    let mut store = SessionStore::new();
    store.register("old".to_string(), "/tmp/old".to_string(), String::new(), 0).unwrap();
    store.register("new".to_string(), "/tmp/new".to_string(), String::new(), 900).unwrap();
    let steps: Vec<Disposal> =
        store.reclaim_expired(1_000).iter().flat_map(|session| disposal(session)).collect();
    assert_eq!(
        steps,
        vec![
            Disposal::ForgetRow("old".to_string()),
            Disposal::DeleteWorkspace("/tmp/old".to_string()),
        ]
    );
}
