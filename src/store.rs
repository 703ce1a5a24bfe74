//! The persistent store: where the database file lives, and the schema that
//! every connection to it is brought up to.
use vstd::prelude::*;

verus! {

#[verifier::external_type_specification]
#[verifier::external_body]
pub struct ExConnection(rusqlite::Connection);

#[verifier::external_type_specification]
#[verifier::external_body]
pub struct ExSqlError(rusqlite::Error);

/// The application's directory under the per-user configuration root.
pub const APP_DIR: &'static str = "MangaTools";

/// The database file's name inside the application's directory.
pub const DB_FILE_NAME: &'static str = "data.db";

/// Turns on referential integrity for the connection.
pub const ENABLE_FOREIGN_KEYS: &'static str = "PRAGMA foreign_keys = ON;";

/// The guard that makes a table's creation a no-op where the table exists.
pub const CREATE_GUARD: &'static str = "CREATE TABLE IF NOT EXISTS ";

pub const LANGS_TABLE: &'static str = "langs
(
    id         INTEGER PRIMARY KEY AUTOINCREMENT,
    name       TEXT                                NOT NULL,
    created_at TIMESTAMP DEFAULT CURRENT_TIMESTAMP NOT NULL
);";

pub const SOUNDS_TABLE: &'static str = "sounds
(
    id         INTEGER PRIMARY KEY AUTOINCREMENT,
    text       TEXT                                NOT NULL,
    lang       INTEGER                             NOT NULL,
    created_at TIMESTAMP DEFAULT CURRENT_TIMESTAMP NOT NULL,
    FOREIGN KEY (lang) REFERENCES langs (id)
);";

pub const TRANS_TABLE: &'static str = "trans
(
    id         INTEGER PRIMARY KEY AUTOINCREMENT,
    sound_id   INTEGER                             NOT NULL,
    trans_id   INTEGER                             NOT NULL,
    created_at TIMESTAMP DEFAULT CURRENT_TIMESTAMP NOT NULL,
    UNIQUE (sound_id, trans_id),
    FOREIGN KEY (sound_id) REFERENCES sounds (id),
    FOREIGN KEY (trans_id) REFERENCES sounds (id)
);";

/// The schema statements, in the order in which they are issued. Each one
/// creates its table only where it is absent, so issuing them again is a no-op.
pub open spec fn schema() -> Seq<Seq<char>> {
    seq![
        CREATE_GUARD@ + LANGS_TABLE@,
        CREATE_GUARD@ + SOUNDS_TABLE@,
        CREATE_GUARD@ + TRANS_TABLE@,
    ]
}

/// The statement that creates `table` where it is absent.
fn create_statement(table: &str) -> (r: String)
    ensures
        r@ == CREATE_GUARD@ + table@,
{
    String::from_str(CREATE_GUARD).concat(table)
}

/// Every schema statement carries the `IF NOT EXISTS` guard, under which the
/// database creates a table only where it is absent; and two bring-ups of the
/// schema issue the same statements, in the same order.
pub proof fn schema_is_idempotent(first: Db, second: Db)
    requires
        first.issued() == seq![ENABLE_FOREIGN_KEYS@] + schema(),
        second.issued() == seq![ENABLE_FOREIGN_KEYS@] + schema(),
    ensures
        schema().len() == 3,
        forall|i: int|
            0 <= i < schema().len() ==> #[trigger] schema()[i].take(CREATE_GUARD@.len() as int)
                == CREATE_GUARD@,
        first.issued() == second.issued(),
{
    assert(schema()[0].take(CREATE_GUARD@.len() as int) =~= CREATE_GUARD@);
    assert(schema()[1].take(CREATE_GUARD@.len() as int) =~= CREATE_GUARD@);
    assert(schema()[2].take(CREATE_GUARD@.len() as int) =~= CREATE_GUARD@);
}

/// Why the store could not be brought up.
#[derive(Clone, Copy, Debug, PartialEq, Eq, Structural)]
pub enum StoreError {
    /// The per-user configuration directory is unknown.
    NoConfigDir,
    /// The per-user configuration directory has a verbatim prefix.
    VerbatimRoot,
    /// The database file could not be opened.
    Open,
    /// A schema statement failed.
    Schema,
    /// The connection could not be closed.
    Close,
}

/// Relies on dirs::config_dir: the per-user configuration directory, when the
/// platform has one and it is valid UTF-8. It depends on the environment, so
/// nothing is promised of it.
#[verifier::external_body]
fn config_dir() -> (r: Option<String>) {
    dirs::config_dir().and_then(|p| p.into_os_string().into_string().ok())
}

/// Whether `seg` is a plain relative path component: no separator, root or
/// drive in it, and neither `.` nor `..`.
pub open spec fn is_component(seg: Seq<char>) -> bool {
    &&& seg.len() > 0
    &&& seg != seq!['.']
    &&& seg != seq!['.', '.']
    &&& forall|i: int| 0 <= i < seg.len() ==> seg[i] != '/' && seg[i] != '\\' && seg[i] != ':'
}

/// A path separator on one platform or another.
pub open spec fn is_separator(c: char) -> bool {
    c == '/' || c == '\\'
}

/// Whether `base` starts with no verbatim prefix: no `?` among its first four
/// characters, where `\\?\` and `\??\` would stand.
pub open spec fn plain_base(base: Seq<char>) -> bool {
    forall|i: int| 0 <= i < base.len() && i < 4 ==> base[i] != '?'
}

/// Whether `r` is `seg` appended to `base`, directly or after one separator.
pub open spec fn joined(base: Seq<char>, seg: Seq<char>, r: Seq<char>) -> bool {
    ||| r == base + seg
    ||| exists|c: char| #[trigger] is_separator(c) && r == base + seq![c] + seg
}

/// Relies on std::path::PathBuf::push: pushing a relative component onto a
/// base without a verbatim prefix keeps the base as written and appends the
/// component, after the platform's separator unless the base is empty, ends
/// in a separator or is a bare drive.
#[verifier::external_body]
fn push_component(base: String, seg: &str) -> (r: String)
    requires
        is_component(seg@),
        plain_base(base@),
    ensures
        joined(base@, seg@, r@),
{
    let mut p = std::path::PathBuf::from(base);
    p.push(seg);
    p.to_string_lossy().into_owned()
}

/// Whether `root` starts with no verbatim prefix.
fn is_plain_base(root: &str) -> (r: bool)
    ensures
        r == plain_base(root@),
{
    let n = root.unicode_len();
    let mut i: usize = 0;
    while i < n && i < 4
        invariant
            i <= n,
            n == root@.len(),
            forall|j: int| 0 <= j < i ==> root@[j] != '?',
        decreases n - i,
    {
        if root.get_char(i) == '?' {
            return false;
        }
        i = i + 1;
    }
    true
}

/// Relies on std::path::Path::exists: whether something is at the path now.
#[verifier::external_body]
fn path_exists(path: &str) -> (r: bool) {
    std::path::Path::new(path).exists()
}

/// Relies on rusqlite::Connection::open: opens, or creates, the database file.
#[verifier::external_body]
fn open_connection(path: &str) -> (r: Result<rusqlite::Connection, rusqlite::Error>) {
    rusqlite::Connection::open(path)
}

/// Relies on rusqlite::Connection::execute_batch: runs the statements in `sql`.
#[verifier::external_body]
fn execute_batch(conn: &rusqlite::Connection, sql: &str) -> (r: Result<(), rusqlite::Error>) {
    conn.execute_batch(sql)
}

/// Relies on rusqlite::Connection::close: on failure the connection is handed
/// back, and is dropped here.
#[verifier::external_body]
fn close_connection(conn: rusqlite::Connection) -> (r: Result<(), rusqlite::Error>) {
    conn.close().map_err(|failed| failed.1)
}

/// Whether `path` is where the database of the configuration root `root`
/// lives: the root, the application's directory, then the file's name, each
/// joined to what comes before it.
pub open spec fn db_path_of(root: Seq<char>, path: Seq<char>) -> bool {
    exists|app: Seq<char>| #[trigger] joined(root, APP_DIR@, app) && joined(app, DB_FILE_NAME@, path)
}

/// The database file's path under the per-user configuration root `root`
/// (`None` when the platform has none). A root with a verbatim prefix is
/// refused: joining onto it may rewrite it.
pub fn get_db_path(root: Option<String>) -> (r: Result<String, StoreError>)
    ensures
        root is None <==> r == Err::<String, StoreError>(StoreError::NoConfigDir),
        root matches Some(d) ==> (!plain_base(d@) <==> r == Err::<String, StoreError>(
            StoreError::VerbatimRoot,
        )),
        root matches Some(d) ==> (plain_base(d@) <==> r is Ok),
        r matches Ok(path) ==> root matches Some(d) && db_path_of(d@, path@),
{
    match root {
        None => Err(StoreError::NoConfigDir),
        Some(dir) => {
            if !is_plain_base(dir.as_str()) {
                return Err(StoreError::VerbatimRoot);
            }
            proof {
                reveal_strlit("MangaTools");
                reveal_strlit("data.db");
            }
            let ghost d = dir@;
            let app = push_component(dir, APP_DIR);
            proof {
                assert forall|i: int| 0 <= i < app@.len() && i < 4 implies app@[i] != '?' by {
                    if i >= d.len() {
                        if app@ != d + APP_DIR@ {
                            let c = choose|c: char| #[trigger] is_separator(c) && app@ == d + seq![c] + APP_DIR@;
                            assert(app@ == d + seq![c] + APP_DIR@);
                        }
                    }
                }
            }
            let path = push_component(app, DB_FILE_NAME);
            Ok(path)
        },
    }
}

/// The database file's path for this user.
pub fn db_location() -> (r: Result<String, StoreError>)
    ensures
        r matches Err(e) ==> e == StoreError::NoConfigDir || e == StoreError::VerbatimRoot,
        r matches Ok(path) ==> exists|root: Seq<char>| db_path_of(root, path@),
{
    get_db_path(config_dir())
}

/// Whether the database file exists for this user.
pub fn db_file_exists() -> (r: Result<bool, StoreError>)
    ensures
        r matches Err(e) ==> e == StoreError::NoConfigDir || e == StoreError::VerbatimRoot,
{
    match db_location() {
        Ok(path) => Ok(path_exists(path.as_str())),
        Err(e) => Err(e),
    }
}

/// An open connection to the store, with a record of the path it was opened
/// on and of the statements issued through it that succeeded.
pub struct Db {
    conn: rusqlite::Connection,
    path: Ghost<Seq<char>>,
    issued: Ghost<Seq<Seq<char>>>,
}

impl Db {
    /// The path the connection was opened on.
    pub closed spec fn path(&self) -> Seq<char> {
        self.path@
    }

    /// The statements that succeeded on this connection, in order.
    pub closed spec fn issued(&self) -> Seq<Seq<char>> {
        self.issued@
    }

    /// Opens the database file at `path`, creating it when missing (its
    /// directory must exist), with referential integrity turned on.
    pub fn open(path: &str) -> (r: Result<Db, StoreError>)
        ensures
            r matches Ok(db) ==> db.issued() == seq![ENABLE_FOREIGN_KEYS@] && db.path() == path@,
            r matches Err(e) ==> e == StoreError::Open,
    {
        let conn = match open_connection(path) {
            Ok(c) => c,
            Err(_) => return Err(StoreError::Open),
        };
        let ghost first = seq![ENABLE_FOREIGN_KEYS@];
        match execute_batch(&conn, ENABLE_FOREIGN_KEYS) {
            Ok(()) => Ok(Db { conn, path: Ghost(path@), issued: Ghost(first) }),
            Err(_) => Err(StoreError::Open),
        }
    }

    /// Issues one statement, recording it when it succeeds.
    fn run(&mut self, sql: &str) -> (r: Result<(), StoreError>)
        ensures
            final(self).path() == old(self).path(),
            r is Ok ==> final(self).issued() == old(self).issued().push(sql@),
            r matches Err(e) ==> e == StoreError::Schema && final(self).issued() == old(
                self,
            ).issued(),
    {
        match execute_batch(&self.conn, sql) {
            Ok(()) => {
                let ghost next = self.issued@.push(sql@);
                self.issued = Ghost(next);
                Ok(())
            },
            Err(_) => Err(StoreError::Schema),
        }
    }

    /// Creates the three tables where they are absent, in order, stopping at
    /// the first statement that fails.
    pub fn create_tables(&mut self) -> (r: Result<(), StoreError>)
        ensures
            final(self).path() == old(self).path(),
            r is Ok ==> final(self).issued() == old(self).issued() + schema(),
            r matches Err(e) ==> e == StoreError::Schema && exists|k: int|
                0 <= k < 3 && final(self).issued() == old(self).issued() + schema().take(k),
    {
        let ghost start = self.issued();
        let ghost s = schema();
        let r1 = self.run(create_statement(LANGS_TABLE).as_str());
        if r1.is_err() {
            assert(s.take(0) =~= seq![]);
            assert(self.issued() =~= start + s.take(0));
            return Err(StoreError::Schema);
        }
        let r2 = self.run(create_statement(SOUNDS_TABLE).as_str());
        if r2.is_err() {
            assert(s.take(1) =~= seq![s[0]]);
            assert(self.issued() =~= start + s.take(1));
            return Err(StoreError::Schema);
        }
        let r3 = self.run(create_statement(TRANS_TABLE).as_str());
        if r3.is_err() {
            assert(s.take(2) =~= seq![s[0], s[1]]);
            assert(self.issued() =~= start + s.take(2));
            return Err(StoreError::Schema);
        }
        assert(self.issued() =~= start + s);
        Ok(())
    }

    /// The underlying connection, for the statements of feature code.
    pub fn connection(&self) -> &rusqlite::Connection {
        &self.conn
    }

    /// Closes the connection.
    pub fn close(self) -> (r: Result<(), StoreError>)
        ensures
            r matches Err(e) ==> e == StoreError::Close,
    {
        match close_connection(self.conn) {
            Ok(()) => Ok(()),
            Err(_) => Err(StoreError::Close),
        }
    }
}

/// Brings the database file at `path` up to the schema: opens it and issues
/// the schema statements, after referential integrity was turned on. The
/// connection stays open for the caller to use or close.
pub fn init_schema(path: &str) -> (r: Result<Db, StoreError>)
    ensures
        r matches Ok(db) ==> db.issued() == seq![ENABLE_FOREIGN_KEYS@] + schema() && db.path()
            == path@,
        r matches Err(e) ==> e == StoreError::Open || e == StoreError::Schema,
{
    let mut db = Db::open(path)?;
    db.create_tables()?;
    Ok(db)
}

} // verus!
