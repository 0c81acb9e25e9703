//! The database flavours that the generated code can target.
use vstd::prelude::*;

use crate::text::{str_eq, to_string};

verus! {

/// The database that the generated methods talk to.
#[derive(Debug, Clone, Copy, PartialEq, Eq, PartialOrd, Ord, Hash, Structural)]
pub enum DbType {
    Postgres,
    MySQL,
    Sqlite,
}

/// The database named by a `db_type` argument, if the name is known.
pub open spec fn spec_db_type_named(name: Seq<char>) -> Option<DbType> {
    if name == "postgres"@ {
        Some(DbType::Postgres)
    } else if name == "mysql"@ {
        Some(DbType::MySQL)
    } else if name == "sqlite"@ {
        Some(DbType::Sqlite)
    } else {
        None
    }
}

/// The name of the `sqlx` executor trait for a database.
pub open spec fn spec_executor_name(db: DbType) -> Seq<char> {
    match db {
        DbType::Postgres => "PgExecutor"@,
        DbType::MySQL => "MySqlExecutor"@,
        DbType::Sqlite => "SqliteExecutor"@,
    }
}

impl Default for DbType {
    /// Postgres is the database when none is named.
    fn default() -> (res: Self)
        ensures
            res == DbType::Postgres,
    {
        DbType::Postgres
    }
}

impl DbType {
    /// The database for a name, or `None` for an unknown name.
    pub fn from_name(identifier: &str) -> (res: Option<DbType>)
        ensures
            res == spec_db_type_named(identifier@),
    {
        if str_eq(identifier, "postgres") {
            Some(DbType::Postgres)
        } else if str_eq(identifier, "mysql") {
            Some(DbType::MySQL)
        } else if str_eq(identifier, "sqlite") {
            Some(DbType::Sqlite)
        } else {
            None
        }
    }

    /// The database for one of the names `postgres`, `mysql`, `sqlite`.
    pub fn parse(identifier: &str) -> (res: Self)
        requires
            spec_db_type_named(identifier@) is Some,
        ensures
            spec_db_type_named(identifier@) == Some(res),
    {
        match DbType::from_name(identifier) {
            Some(db) => db,
            None => DbType::Postgres,
        }
    }

    /// The name of the `sqlx` executor trait that the generated methods
    /// take their connection as.
    pub fn to_ident(&self) -> (res: String)
        ensures
            res@ == spec_executor_name(*self),
    {
        match self {
            DbType::Postgres => to_string("PgExecutor"),
            DbType::MySQL => to_string("MySqlExecutor"),
            DbType::Sqlite => to_string("SqliteExecutor"),
        }
    }
}

/// Each known name stands for one database, and the three databases have
/// the names `postgres`, `mysql` and `sqlite`.
pub proof fn law_db_type_names()
    ensures
        spec_db_type_named("postgres"@) == Some(DbType::Postgres),
        spec_db_type_named("mysql"@) == Some(DbType::MySQL),
        spec_db_type_named("sqlite"@) == Some(DbType::Sqlite),
        spec_db_type_named("oracle"@) is None,
{
    reveal_strlit("postgres");
    reveal_strlit("mysql");
    reveal_strlit("sqlite");
    reveal_strlit("oracle");
    assert("mysql"@.len() != "postgres"@.len());
    assert("sqlite"@.len() != "postgres"@.len());
    assert("sqlite"@.len() != "mysql"@.len());
    assert("oracle"@.len() != "postgres"@.len());
    assert("oracle"@.len() != "mysql"@.len());
    assert("oracle"@[0] != "sqlite"@[0]);
}

} // verus!
