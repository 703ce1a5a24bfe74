use mangatools::store::{
    db_file_exists, db_location, get_db_path, init_schema, Db, StoreError, APP_DIR, DB_FILE_NAME,
};

fn count(db: &Db, sql: &str) -> i64 {
    db.connection().query_row(sql, [], |row| row.get(0)).unwrap()
}

fn table_names(db: &Db) -> Vec<String> {
    let mut stmt = db
        .connection()
        .prepare("SELECT name FROM sqlite_master WHERE type = 'table' AND name NOT LIKE 'sqlite_%' ORDER BY name")
        .unwrap();
    let rows = stmt.query_map([], |row| row.get::<_, String>(0)).unwrap();
    rows.map(|r| r.unwrap()).collect()
}

fn columns(db: &Db, table: &str) -> Vec<String> {
    let mut stmt = db.connection().prepare(&format!("PRAGMA table_info({})", table)).unwrap();
    let rows = stmt.query_map([], |row| row.get::<_, String>(1)).unwrap();
    rows.map(|r| r.unwrap()).collect()
}

fn fresh() -> Db {
    init_schema(":memory:").unwrap()
}

#[test]
fn init_creates_the_three_tables() {
    let db = fresh();
    assert_eq!(table_names(&db), vec!["langs", "sounds", "trans"]);
    assert_eq!(columns(&db, "langs"), vec!["id", "name", "created_at"]);
    assert_eq!(columns(&db, "sounds"), vec!["id", "text", "lang", "created_at"]);
    assert_eq!(columns(&db, "trans"), vec!["id", "sound_id", "trans_id", "created_at"]);
    assert_eq!(count(&db, "PRAGMA foreign_keys"), 1);
    db.close().unwrap();
}

#[test]
fn init_twice_changes_nothing() {
    let mut db = fresh();
    db.connection().execute("INSERT INTO langs (name) VALUES ('en')", []).unwrap();
    let before: i64 = count(&db, "SELECT count(*) FROM sqlite_master");
    assert_eq!(db.create_tables(), Ok(()));
    assert_eq!(count(&db, "SELECT count(*) FROM sqlite_master"), before);
    assert_eq!(count(&db, "SELECT count(*) FROM langs"), 1);
    assert_eq!(table_names(&db), vec!["langs", "sounds", "trans"]);
}

#[test]
fn language_gets_id_and_timestamp() {
    let db = fresh();
    db.connection().execute("INSERT INTO langs (name) VALUES ('en')", []).unwrap();
    assert_eq!(count(&db, "SELECT id FROM langs WHERE name = 'en'"), 1);
    assert_eq!(count(&db, "SELECT count(*) FROM langs WHERE created_at IS NOT NULL"), 1);
    assert!(db.connection().execute("INSERT INTO langs (name) VALUES (NULL)", []).is_err());
}

#[test]
fn sound_needs_an_existing_language() {
    let db = fresh();
    let conn = db.connection();
    assert!(conn.execute("INSERT INTO sounds (text, lang) VALUES ('hi', 1)", []).is_err());
    conn.execute("INSERT INTO langs (name) VALUES ('en')", []).unwrap();
    assert_eq!(conn.execute("INSERT INTO sounds (text, lang) VALUES ('hi', 1)", []).unwrap(), 1);
}

#[test]
fn translation_links_are_checked_and_directional() {
    let db = fresh();
    let conn = db.connection();
    conn.execute("INSERT INTO langs (name) VALUES ('en')", []).unwrap();
    conn.execute("INSERT INTO sounds (text, lang) VALUES ('a', 1)", []).unwrap();
    conn.execute("INSERT INTO sounds (text, lang) VALUES ('b', 1)", []).unwrap();
    assert!(conn.execute("INSERT INTO trans (sound_id, trans_id) VALUES (1, 9)", []).is_err());
    assert!(conn.execute("INSERT INTO trans (sound_id, trans_id) VALUES (9, 1)", []).is_err());
    conn.execute("INSERT INTO trans (sound_id, trans_id) VALUES (1, 2)", []).unwrap();
    let dup = conn.execute("INSERT INTO trans (sound_id, trans_id) VALUES (1, 2)", []);
    assert!(dup.unwrap_err().to_string().contains("UNIQUE"));
    conn.execute("INSERT INTO trans (sound_id, trans_id) VALUES (2, 1)", []).unwrap();
    assert_eq!(count(&db, "SELECT count(*) FROM trans"), 2);
}

#[test]
fn db_path_is_under_the_config_root() {
    let path = get_db_path(Some("/home/u/.config".to_string())).unwrap();
    assert_eq!(path, format!("/home/u/.config/{}/{}", APP_DIR, DB_FILE_NAME));
    let path = get_db_path(Some("/home/u/.config/".to_string())).unwrap();
    assert_eq!(path, "/home/u/.config/MangaTools/data.db");
}

#[test]
fn db_path_needs_a_config_root() {
    assert_eq!(get_db_path(None), Err(StoreError::NoConfigDir));
}

#[test]
fn open_fails_where_no_directory_is() {
    assert_eq!(Db::open("/nonexistent-dir/for/sure/x.db").err(), Some(StoreError::Open));
    assert_eq!(init_schema("/nonexistent-dir/for/sure/x.db").err(), Some(StoreError::Open));
}

#[test]
fn db_location_follows_the_config_root() {
    match db_location() {
        Ok(path) => {
            assert!(path.ends_with(DB_FILE_NAME));
            assert!(path.contains(APP_DIR));
            assert!(db_file_exists().is_ok());
        }
        Err(e) => {
            assert!(e == StoreError::NoConfigDir || e == StoreError::VerbatimRoot);
            assert_eq!(db_file_exists(), Err(e));
        }
    }
}

#[test]
fn db_path_refuses_a_verbatim_root() {
    assert_eq!(get_db_path(Some(r"\\?\C:\Users\u".to_string())), Err(StoreError::VerbatimRoot));
    assert_eq!(get_db_path(Some(r"\??\C:\x".to_string())), Err(StoreError::VerbatimRoot));
    let path = get_db_path(Some("/home/u?/.config".to_string())).unwrap();
    assert_eq!(path, "/home/u?/.config/MangaTools/data.db");
    assert_eq!(get_db_path(Some(String::new())).unwrap(), "MangaTools/data.db");
}
