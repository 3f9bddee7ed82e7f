//! The tenant catalog and engine: naming, catalog rows and their derived
//! information.

use vstd::prelude::*;
use vstd::string::StringExecFns;
use crate::error::AdbaError;
use crate::text::{sanitize_name, sanitized};

verus! {

#[verifier::external_type_specification]
#[verifier::external_body]
pub struct ExPathBuf(std::path::PathBuf);

/// The name of the catalog file inside the data directory.
pub const METADATA_FILE_NAME: &'static str = "metadata.db";

/// Creates the catalog table when it is missing.
pub const CATALOG_SCHEMA_SQL: &'static str = "CREATE TABLE IF NOT EXISTS databases (id TEXT PRIMARY KEY, name TEXT NOT NULL UNIQUE, client_app TEXT NOT NULL, created_at INTEGER NOT NULL)";

/// Inserts one catalog row: id, name, client, creation time.
pub const CATALOG_INSERT_SQL: &'static str = "INSERT INTO databases (id, name, client_app, created_at) VALUES (?1, ?2, ?3, ?4)";

/// Lists the catalog, newest first.
pub const CATALOG_LIST_SQL: &'static str = "SELECT id, name, client_app, created_at FROM databases ORDER BY created_at DESC";

/// Finds one catalog row by name.
pub const CATALOG_FIND_SQL: &'static str = "SELECT id, name, client_app, created_at FROM databases WHERE name = ?1";

/// Removes one catalog row by name.
pub const CATALOG_REMOVE_SQL: &'static str = "DELETE FROM databases WHERE name = ?1";

/// Counts the tables of a tenant database.
pub const TABLE_COUNT_SQL: &'static str = "SELECT COUNT(*) FROM sqlite_master WHERE type='table'";

/// The state of a hosted database. Only `Active` is produced.
#[derive(Debug, Clone, Copy, PartialEq, Eq, Structural)]
pub enum DatabaseStatus {
    Active,
    Syncing,
    Offline,
    Error,
}

/// One row of the catalog.
#[derive(Debug, Clone, PartialEq, Eq)]
pub struct CatalogRecord {
    pub id: String,
    pub name: String,
    pub client_app: String,
    pub created_at: i64,
}

/// A catalog row joined with what the tenant file shows at read time.
#[derive(Debug, Clone, PartialEq, Eq)]
pub struct DatabaseInfo {
    pub id: String,
    pub name: String,
    pub client_app: String,
    pub created_at: i64,
    pub size_bytes: u64,
    pub tables_count: usize,
    pub status: DatabaseStatus,
}

/// The suffix of every tenant file.
pub open spec fn db_suffix() -> Seq<char> {
    seq!['.', 'd', 'b']
}

/// The file that holds the tenant database of a name.
pub open spec fn tenant_file(name: Seq<char>) -> Seq<char> {
    sanitized(name) + db_suffix()
}

/// The file name of the tenant database called `name`: its sanitized form
/// with the `.db` suffix.
pub fn database_file_name(name: &str) -> (r: String)
    ensures
        r@ == tenant_file(name@),
{
    let mut f = sanitize_name(name);
    let suffix = ".db";
    proof {
        reveal_strlit(".db");
    }
    assert(suffix@ =~= db_suffix());
    f.append(suffix);
    f
}

/// Names that sanitize alike share one tenant file: creating the second
/// succeeds when the raw names differ, and both catalog rows then address
/// the same file.
pub proof fn lemma_same_key_same_file(a: Seq<char>, b: Seq<char>)
    requires
        sanitized(a) == sanitized(b),
    ensures
        tenant_file(a) == tenant_file(b),
{
}

/// The information a catalog row yields, given the size of its file and the
/// number of tables in it.
pub open spec fn info_of(rec: CatalogRecord, size_bytes: u64, tables_count: usize) -> DatabaseInfo {
    DatabaseInfo {
        id: rec.id,
        name: rec.name,
        client_app: rec.client_app,
        created_at: rec.created_at,
        size_bytes,
        tables_count,
        status: DatabaseStatus::Active,
    }
}

/// The catalog rows that were read without error, in the order read.
pub open spec fn read_rows(rows: Seq<Option<DatabaseInfo>>) -> Seq<DatabaseInfo>
    decreases rows.len(),
{
    if rows.len() == 0 {
        Seq::empty()
    } else {
        match rows.last() {
            Some(d) => read_rows(rows.drop_last()).push(d),
            None => read_rows(rows.drop_last()),
        }
    }
}

/// How a search of the catalog for one name ended.
#[derive(Debug, Clone, PartialEq, Eq)]
pub enum CatalogLookup {
    /// A row was found.
    Found(DatabaseInfo),
    /// No row has the name.
    NoRows,
    /// The catalog could not be read; the engine's message.
    Failed(String),
}

/// What a lookup reports: a found row, none, or the failure as an error.
pub open spec fn lookup_outcome(l: CatalogLookup) -> Result<Option<DatabaseInfo>, AdbaError> {
    match l {
        CatalogLookup::Found(d) => Ok(Some(d)),
        CatalogLookup::NoRows => Ok(None),
        CatalogLookup::Failed(m) => Err(AdbaError::Database(m)),
    }
}

/// Hosts tenant databases, one file each, under one data directory.
pub struct DatabaseEngine {
    data_dir: std::path::PathBuf,
}

impl DatabaseEngine {
    /// The data directory, in specifications.
    pub closed spec fn dir(&self) -> std::path::PathBuf {
        self.data_dir
    }

    /// The engine over a data directory whose catalog has been initialised.
    pub fn new(data_dir: std::path::PathBuf) -> (r: DatabaseEngine)
        ensures
            r.dir() == data_dir,
    {
        DatabaseEngine { data_dir }
    }

    /// The data directory.
    pub fn data_dir(&self) -> (r: &std::path::PathBuf)
        ensures
            *r == self.dir(),
    {
        &self.data_dir
    }

    /// Joins a catalog row with the size and table count of its file.
    pub fn record_info(rec: CatalogRecord, size_bytes: u64, tables_count: usize) -> (r: DatabaseInfo)
        ensures
            r == info_of(rec, size_bytes, tables_count),
    {
        DatabaseInfo {
            id: rec.id,
            name: rec.name,
            client_app: rec.client_app,
            created_at: rec.created_at,
            size_bytes,
            tables_count,
            status: DatabaseStatus::Active,
        }
    }

    /// The information on a database just created: an empty schema, so no
    /// tables, and status `Active`.
    pub fn created_info(rec: CatalogRecord, size_bytes: u64) -> (r: DatabaseInfo)
        ensures
            r == info_of(rec, size_bytes, 0),
            r.tables_count == 0,
            r.status == DatabaseStatus::Active,
    {
        Self::record_info(rec, size_bytes, 0)
    }

    /// The listing: the rows read without error, in catalog order.
    pub fn collect_listing(rows: Vec<Option<DatabaseInfo>>) -> (r: Vec<DatabaseInfo>)
        ensures
            r@ == read_rows(rows@),
    {
        let mut out: Vec<DatabaseInfo> = Vec::new();
        let mut rest = rows;
        let ghost orig = rest@;
        let n = rest.len();
        let mut i: usize = 0;
        while i < n
            invariant
                n == orig.len(),
                i <= n,
                rest@ == orig.subrange(i as int, n as int),
                out@ == read_rows(orig.subrange(0, i as int)),
            decreases n - i,
        {
            let row = rest.remove(0);
            proof {
                let pre = orig.subrange(0, i as int + 1);
                assert(pre.drop_last() =~= orig.subrange(0, i as int));
                assert(pre.last() == row);
            }
            match row {
                Some(d) => out.push(d),
                None => {},
            }
            i = i + 1;
            assert(rest@ =~= orig.subrange(i as int, n as int));
        }
        assert(orig.subrange(0, n as int) =~= orig);
        out
    }

    /// What a search by name reports: "not found" is no error.
    pub fn lookup_result(l: CatalogLookup) -> (r: Result<Option<DatabaseInfo>, AdbaError>)
        ensures
            r == lookup_outcome(l),
    {
        match l {
            CatalogLookup::Found(d) => Ok(Some(d)),
            CatalogLookup::NoRows => Ok(None),
            CatalogLookup::Failed(m) => Err(AdbaError::Database(m)),
        }
    }
}

} // verus!
