use localshare::{
    AppConfig, AppError, FetchError, FileId, FileManager, FileRecord, IngestError, InitError,
    PathState, Timestamp,
};

fn ready() -> FileManager {
    FileManager::from_config(AppConfig::new(), PathState::Directory).unwrap()
}

fn record(value: u128, name: &str) -> FileRecord {
    FileRecord {
        id: FileId { value },
        name: name.to_string(),
        by: Some("alice".to_string()),
        uploaded_at: Timestamp { secs: 1_700_000_000, nanos: 5 },
        description: Some("test".to_string()),
        content_type: Some("text/plain".to_string()),
    }
}

#[test]
fn scenario_single_upload_is_listed_and_fetched() {
    let mut fm = ready();
    let rec = fm
        .new_upload(
            "a.txt".to_string(),
            Some("alice".to_string()),
            Some("test".to_string()),
            Some("text/plain".to_string()),
        )
        .unwrap();
    let id = rec.id;
    assert_eq!(fm.ingest(rec.clone(), true), Ok(0));
    let list = fm.get_records();
    assert_eq!(list.len(), 1);
    assert_eq!(list[0], rec);
    assert_eq!(list[0].name, "a.txt");
    assert_eq!(list[0].by.as_deref(), Some("alice"));
    assert_eq!(list[0].description.as_deref(), Some("test"));
    assert_eq!(list[0].content_type.as_deref(), Some("text/plain"));
    let got = fm.fetch_for_download(&id, true).unwrap();
    assert_eq!(got.name, "a.txt");
    assert_eq!(got, &rec);
}

#[test]
fn scenario_same_name_gives_distinct_records() {
    let mut fm = ready();
    let a = fm.new_upload("same.bin".to_string(), None, None, None).unwrap();
    assert!(fm.ingest(a.clone(), true).is_ok());
    let b = fm.new_upload("same.bin".to_string(), None, None, None).unwrap();
    assert!(fm.ingest(b.clone(), true).is_ok());
    assert_ne!(a.id, b.id);
    assert_eq!(fm.get_records().len(), 2);
    assert_eq!(fm.fetch_for_download(&a.id, true).unwrap(), &a);
    assert_eq!(fm.fetch_for_download(&b.id, true).unwrap(), &b);
    assert_ne!(fm.get_file_path(&a), fm.get_file_path(&b));
}

#[test]
fn scenario_unknown_id_is_not_found() {
    let mut fm = ready();
    assert!(fm.ingest(record(1, "x"), true).is_ok());
    let never = FileId::parse("550e8400-e29b-41d4-a716-446655440000").unwrap();
    assert_eq!(fm.fetch_for_download(&never, true), Err(FetchError::NotFound));
    assert!(fm.get_record(&never).is_none());
}

#[test]
fn scenario_root_is_a_regular_file() {
    let r = FileManager::from_config(AppConfig::new(), PathState::NotADirectory);
    assert!(matches!(r, Err(AppError::ConfigError(InitError::NotADirectory))));
}

#[test]
fn from_config_states() {
    let fm = ready();
    assert_eq!(fm.upload_dir(), "uploads");
    assert!(fm.get_records().is_empty());
    let cfg = AppConfig::new().set_dir("data".to_string());
    let fm = FileManager::from_config(cfg, PathState::Directory).unwrap();
    assert_eq!(fm.upload_dir(), "data");
    for (state, err) in [
        (PathState::Missing, InitError::MissingDirectory),
        (PathState::CreateFailed, InitError::CreateFailed),
        (PathState::Unreadable, InitError::Unreadable),
    ] {
        let r = FileManager::from_config(AppConfig::new(), state);
        assert!(matches!(r, Err(AppError::ConfigError(e)) if e == err));
    }
}

#[test]
fn should_create_follows_config() {
    let yes = AppConfig::new();
    let no = AppConfig::new().create_dir(false);
    assert!(yes.should_create(PathState::Missing));
    assert!(!no.should_create(PathState::Missing));
    assert!(!yes.should_create(PathState::Directory));
    assert!(!yes.should_create(PathState::NotADirectory));
}

#[test]
fn blob_failure_leaves_list_unchanged() {
    let mut fm = ready();
    assert!(fm.ingest(record(1, "kept"), true).is_ok());
    assert_eq!(fm.ingest(record(2, "lost"), false), Err(IngestError::StorageFailure));
    assert_eq!(fm.get_records().len(), 1);
    assert!(fm.get_record(&FileId { value: 2 }).is_none());
}

#[test]
fn metadata_failure_is_taken_back() {
    let mut fm = ready();
    assert!(fm.ingest(record(1, "kept"), true).is_ok());
    let before = fm.get_records().clone();
    assert_eq!(fm.ingest(record(2, "new"), true), Ok(1));
    assert_eq!(fm.undo_ingest(&FileId { value: 2 }), IngestError::MetadataFailure);
    assert_eq!(fm.get_records(), &before);
    assert_eq!(fm.fetch_for_download(&FileId { value: 2 }, true), Err(FetchError::NotFound));
}

#[test]
fn undo_of_unknown_id_changes_nothing() {
    let mut fm = ready();
    assert!(fm.ingest(record(1, "a"), true).is_ok());
    assert_eq!(fm.undo_ingest(&FileId { value: 9 }), IngestError::MetadataFailure);
    assert_eq!(fm.get_records().len(), 1);
}

#[test]
fn duplicate_id_is_refused() {
    let mut fm = ready();
    assert_eq!(fm.add_record(record(7, "a")), Ok(0));
    assert_eq!(fm.add_record(record(7, "b")), Err(IngestError::AlreadyExists));
    assert_eq!(fm.ingest(record(7, "c"), true), Err(IngestError::AlreadyExists));
    assert_eq!(fm.get_records().len(), 1);
    assert_eq!(fm.get_records()[0].name, "a");
}

#[test]
fn record_for_builds_exact_record() {
    let mut fm = ready();
    let ts = Timestamp { secs: 42, nanos: 7 };
    let r = fm
        .record_for(FileId { value: 3 }, ts, "f".to_string(), None, Some("d".to_string()), None)
        .unwrap();
    assert_eq!(r.id, FileId { value: 3 });
    assert_eq!(r.uploaded_at, ts);
    assert_eq!(r.name, "f");
    assert_eq!(r.by, None);
    assert_eq!(r.description.as_deref(), Some("d"));
    assert_eq!(r.content_type, None);
    assert!(fm.add_record(r).is_ok());
    let again = fm.record_for(FileId { value: 3 }, ts, "g".to_string(), None, None, None);
    assert_eq!(again, Err(IngestError::AlreadyExists));
}

#[test]
fn list_keeps_insertion_order_and_fields() {
    let mut fm = ready();
    for (i, name) in ["one", "two", "three"].iter().enumerate() {
        assert_eq!(fm.add_record(record(i as u128 + 10, name)), Ok(i));
    }
    let names: Vec<&str> = fm.get_records().iter().map(|r| r.name.as_str()).collect();
    assert_eq!(names, vec!["one", "two", "three"]);
    assert_eq!(fm.get_records()[1], record(11, "two"));
}

#[test]
fn many_uploads_have_distinct_ids() {
    let mut fm = ready();
    let mut ids = Vec::new();
    for _ in 0..50 {
        let r = fm.new_upload("n".to_string(), None, None, None).unwrap();
        ids.push(r.id);
        assert!(fm.ingest(r, true).is_ok());
    }
    for i in 0..ids.len() {
        for j in (i + 1)..ids.len() {
            assert_ne!(ids[i], ids[j]);
        }
    }
}

#[test]
fn missing_blob_is_not_found() {
    let mut fm = ready();
    assert!(fm.ingest(record(5, "a"), true).is_ok());
    assert_eq!(fm.fetch_for_download(&FileId { value: 5 }, false), Err(FetchError::NotFound));
}

#[test]
fn init_or_read_loads_and_refuses_duplicates() {
    let mut fm = ready();
    assert_eq!(fm.init_or_read(None), Ok(()));
    assert!(fm.get_records().is_empty());
    assert_eq!(fm.init_or_read(Some(vec![record(1, "a"), record(2, "b")])), Ok(()));
    assert_eq!(fm.get_records().len(), 2);
    let dup = fm.init_or_read(Some(vec![record(3, "a"), record(4, "b"), record(3, "c")]));
    assert_eq!(
        dup,
        Err(AppError::ConfigError(InitError::DuplicateRecord(FileId { value: 3 })))
    );
    assert_eq!(fm.get_records().len(), 2);
    assert_eq!(fm.get_records()[1].name, "b");
}

#[test]
fn file_path_uses_identifier_text() {
    let fm = ready();
    let rec = record(0x550e8400_e29b_41d4_a716_446655440000, "../../etc/passwd");
    assert_eq!(fm.get_file_path(&rec), "uploads/550e8400-e29b-41d4-a716-446655440000");
}

#[test]
fn id_text_round_trip() {
    let id = FileId { value: 0x550e8400_e29b_41d4_a716_446655440000 };
    assert_eq!(id.to_text(), "550e8400-e29b-41d4-a716-446655440000");
    assert_eq!(FileId::parse("550e8400-e29b-41d4-a716-446655440000"), Some(id));
    assert_eq!(FileId::parse("not-a-uuid"), None);
    assert_eq!(FileId::parse(""), None);
}

#[test]
fn new_upload_is_stamped_with_the_clock() {
    let fm = ready();
    let r = fm.new_upload("t".to_string(), None, None, None).unwrap();
    assert!(r.uploaded_at.secs > 1_600_000_000);
    assert!(r.uploaded_at.nanos < 1_000_000_000);
    assert_eq!(r.id.to_text().len(), 36);
    assert_eq!(FileId::parse(&r.id.to_text()), Some(r.id));
}

#[test]
fn id_text_is_lower_case_and_grouped() {
    let id = FileId { value: 0xA1A2A3A4_B1B2_C1C2_D1D2_D3D4D5D6D7D8 };
    assert_eq!(id.to_text(), "a1a2a3a4-b1b2-c1c2-d1d2-d3d4d5d6d7d8");
    assert_eq!(FileId { value: 0 }.to_text(), "00000000-0000-0000-0000-000000000000");
    assert_eq!(FileId::parse("A1A2A3A4B1B2C1C2D1D2D3D4D5D6D7D8"), Some(id));
}

#[test]
fn upload_on_empty_store_succeeds() {
    let fm = ready();
    let r = fm.new_upload("a.txt".to_string(), Some("alice".to_string()), Some("test".to_string()), None);
    assert!(r.is_ok());
}

#[test]
fn drawn_ids_are_version_four() {
    let fm = ready();
    for _ in 0..20 {
        let r = fm.new_upload("v".to_string(), None, None, None).unwrap();
        assert_eq!((r.id.value >> 76) & 0xf, 4);
        assert_eq!((r.id.value >> 62) & 0x3, 2);
        assert_eq!(r.id.to_text().as_bytes()[14], b'4');
    }
}

#[test]
fn download_id_text() {
    let id = FileId { value: 0x550e8400_e29b_41d4_a716_446655440000 };
    assert_eq!(FileId::for_download("550e8400-e29b-41d4-a716-446655440000"), Ok(id));
    assert_eq!(FileId::for_download("../etc/passwd"), Err(FetchError::Malformed));
    assert_eq!(FileId::for_download(""), Err(FetchError::Malformed));
}

#[test]
fn file_path_joins_like_a_path() {
    let rec = record(0x550e8400_e29b_41d4_a716_446655440000, "x");
    let slash = FileManager::from_config(AppConfig::new().set_dir("data/".to_string()), PathState::Directory).unwrap();
    assert_eq!(slash.get_file_path(&rec), "data/550e8400-e29b-41d4-a716-446655440000");
    let empty = FileManager::from_config(AppConfig::new().set_dir(String::new()), PathState::Directory).unwrap();
    assert_eq!(empty.get_file_path(&rec), "550e8400-e29b-41d4-a716-446655440000");
}

#[test]
fn new_brings_the_manager_up() {
    let fm = FileManager::new(AppConfig::new(), PathState::Directory, None).unwrap();
    assert!(fm.get_records().is_empty());
    let fm = FileManager::new(AppConfig::new(), PathState::Directory, Some(vec![record(1, "a")])).unwrap();
    assert_eq!(fm.get_records()[0], record(1, "a"));
    let r = FileManager::new(AppConfig::new(), PathState::NotADirectory, Some(vec![record(1, "a")]));
    assert!(matches!(r, Err(AppError::ConfigError(InitError::NotADirectory))));
    let r = FileManager::new(AppConfig::new(), PathState::Missing, None);
    assert!(matches!(r, Err(AppError::ConfigError(InitError::MissingDirectory))));
    let r = FileManager::new(AppConfig::new(), PathState::Directory, Some(vec![record(2, "a"), record(2, "b")]));
    assert!(matches!(r, Err(AppError::ConfigError(InitError::DuplicateRecord(FileId { value: 2 })))));
}
