//! The database status report.
use vstd::prelude::*;

verus! {

/// The state of the local database after its migrations have run.
#[derive(Debug, Clone, PartialEq, Eq)]
pub struct DatabaseHealth {
    pub status: String,
    pub database_path: String,
    pub applied_migrations: i64,
    pub table_count: i64,
    pub message: String,
}

/// The report for an initialized database at `database_path` with the given counts.
pub fn database_health(database_path: String, applied_migrations: i64, table_count: i64) -> (r:
    DatabaseHealth)
    ensures
        r.status@ == "ok"@,
        r.database_path == database_path,
        r.applied_migrations == applied_migrations,
        r.table_count == table_count,
        r.message@ == "SQLite 数据库已初始化"@,
{
    DatabaseHealth {
        status: String::from_str("ok"),
        database_path,
        applied_migrations,
        table_count,
        message: String::from_str("SQLite 数据库已初始化"),
    }
}

} // verus!
