use todo_store::config::{config_on_load, AppConfig};
use todo_store::lists::{find_field, has_todos_in_list, list_has_todos, Entry, Field, Item};
use todo_store::store::{
    check_storage_path, file_name, loaded_document, Collection, Location, PathError, PathKind,
    ReadOutcome, StoragePath, StoreError,
};

fn lists_doc_has(doc: &str, id: &str) -> bool {
    match has_todos_in_list(doc, &id.to_string()) {
        Ok(b) => b,
        Err(e) => panic!("unexpected error: {}", e.message()),
    }
}

#[test]
fn fresh_load_is_empty_array() {
    match loaded_document(ReadOutcome::Missing) {
        Ok(s) => assert_eq!(s, "[]"),
        Err(_) => panic!("a missing file must load as []"),
    }
}

#[test]
fn load_returns_saved_text_verbatim() {
    let doc = "[{\"title\": \"milk\",  \"done\":false}]\n".to_string();
    match loaded_document(ReadOutcome::Found(doc.clone())) {
        Ok(s) => assert_eq!(s, doc),
        Err(_) => panic!("a file that was read must load as its text"),
    }
}

#[test]
fn load_reports_other_read_failures() {
    match loaded_document(ReadOutcome::Failed("permission denied".to_string())) {
        Err(StoreError::Io(m)) => assert_eq!(m, "permission denied"),
        _ => panic!("a failed read must be an I/O error"),
    }
}

#[test]
fn file_names_of_collections() {
    assert_eq!(file_name(Collection::Todos), "todos.json");
    assert_eq!(file_name(Collection::Lists), "lists.json");
}

#[test]
fn clearing_storage_path_goes_back_to_default() {
    let mut config = AppConfig { storage_path: "/data/old".to_string(), theme: Some("dark".to_string()) };
    let mut state = StoragePath::from_config(&config);
    assert!(state.set_storage_path(&mut config, String::new(), PathKind::Missing).is_ok());
    assert_eq!(config.storage_path, "");
    assert_eq!(config.theme, Some("dark".to_string()));
    assert_eq!(state.dir, "");
    assert!(matches!(state.location(), Location::DefaultDir));
}

#[test]
fn storage_path_survives_restart() {
    let mut config = AppConfig::new();
    let mut state = StoragePath::from_config(&config);
    assert!(state
        .set_storage_path(&mut config, "/home/u/tasks".to_string(), PathKind::Directory)
        .is_ok());
    assert_eq!(config.storage_path, "/home/u/tasks");
    let restarted = StoragePath::from_config(&config);
    assert_eq!(restarted.dir, "/home/u/tasks");
    match restarted.location() {
        Location::Dir(d) => assert_eq!(d, "/home/u/tasks"),
        Location::DefaultDir => panic!("a set directory must be used"),
    }
}

#[test]
fn missing_storage_path_is_refused_and_state_kept() {
    let mut config = AppConfig { storage_path: "/a".to_string(), theme: None };
    let mut state = StoragePath::from_config(&config);
    let r = state.set_storage_path(&mut config, "/no/such/dir".to_string(), PathKind::Missing);
    match r {
        Err(e) => {
            assert!(matches!(e, StoreError::InvalidPath(PathError::DoesNotExist)));
            assert_eq!(e.message(), "Path does not exist");
        }
        Ok(()) => panic!("a missing path must be refused"),
    }
    assert_eq!(config.storage_path, "/a");
    assert_eq!(state.dir, "/a");
}

#[test]
fn file_as_storage_path_is_refused() {
    let mut config = AppConfig::new();
    let mut state = StoragePath::from_config(&config);
    let r = state.set_storage_path(&mut config, "/etc/hosts".to_string(), PathKind::NotDirectory);
    match r {
        Err(e) => assert_eq!(e.message(), "Path is not a directory"),
        Ok(()) => panic!("a file must be refused"),
    }
    assert_eq!(config.storage_path, "");
    assert_eq!(state.dir, "");
}

#[test]
fn check_storage_path_cases() {
    assert_eq!(check_storage_path(&String::new(), PathKind::Missing), Ok(()));
    assert_eq!(check_storage_path(&"/x".to_string(), PathKind::Directory), Ok(()));
    assert_eq!(check_storage_path(&"/x".to_string(), PathKind::Missing), Err(PathError::DoesNotExist));
    assert_eq!(
        check_storage_path(&"/x".to_string(), PathKind::NotDirectory),
        Err(PathError::NotADirectory)
    );
}

#[test]
fn theme_defaults_to_light_and_keeps_a_set_theme() {
    let mut config = AppConfig::new();
    assert_eq!(config.theme(), "light");
    config.set_theme("dark".to_string());
    assert_eq!(config.theme(), "dark");
    assert_eq!(config.storage_path, "");
}

#[test]
fn config_on_load_creates_default_once() {
    let (c, write) = config_on_load(None);
    assert!(write);
    assert_eq!(c.storage_path, "");
    assert_eq!(c.theme, None);
    let found = AppConfig { storage_path: "/d".to_string(), theme: Some("dark".to_string()) };
    let (c, write) = config_on_load(Some(found));
    assert!(!write);
    assert_eq!(c.storage_path, "/d");
    assert_eq!(c.theme(), "dark");
}

#[test]
fn list_with_todos_is_found() {
    assert!(lists_doc_has(r#"[{"id":"L1","todos":[{"title":"a"}]}]"#, "L1"));
}

#[test]
fn list_with_empty_todos_is_not_found() {
    assert!(!lists_doc_has(r#"[{"id":"L1","todos":[]}]"#, "L1"));
}

#[test]
fn other_list_is_not_found() {
    assert!(!lists_doc_has(r#"[{"id":"L2","todos":[{"title":"a"}]}]"#, "L1"));
}

#[test]
fn missing_fields_count_as_false() {
    assert!(!lists_doc_has(r#"[{"id":"L1"}, {"todos":[1]}, 3, "L1", {"id":1,"todos":[1]}]"#, "L1"));
    assert!(!lists_doc_has(r#"[{"id":"L1","todos":"x"}]"#, "L1"));
    assert!(!lists_doc_has("[]", "L1"));
    assert!(lists_doc_has(r#"[{"id":"L0"}, {"todos":[1,2],"id":"L1","name":"n"}]"#, "L1"));
}

#[test]
fn malformed_lists_document_is_a_parse_error() {
    assert!(matches!(has_todos_in_list("not json", &"L1".to_string()), Err(StoreError::Parse(_))));
    assert!(matches!(has_todos_in_list("{\"id\":\"L1\"}", &"L1".to_string()), Err(StoreError::Parse(_))));
    assert!(matches!(has_todos_in_list("[", &"L1".to_string()), Err(StoreError::Parse(_))));
}

#[test]
fn query_on_built_items() {
    let items = vec![
        Item::Other,
        Item::Object(vec![
            Entry { key: "todos".to_string(), value: Field::Array(2) },
            Entry { key: "id".to_string(), value: Field::Str("L7".to_string()) },
        ]),
    ];
    assert!(list_has_todos(&items, &"L7".to_string()));
    assert!(!list_has_todos(&items, &"L1".to_string()));
    let entries = vec![
        Entry { key: "id".to_string(), value: Field::Str("first".to_string()) },
        Entry { key: "id".to_string(), value: Field::Str("second".to_string()) },
    ];
    match find_field(&entries, &"id".to_string()) {
        Some(Field::Str(s)) => assert_eq!(s, "first"),
        _ => panic!("the first member under the key must be found"),
    }
    assert!(find_field(&entries, &"todos".to_string()).is_none());
}
