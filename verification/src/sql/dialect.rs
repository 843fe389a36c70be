use vstd::prelude::*;

verus! {

/// The SQL that is written for: each dialect may have its own form of an
/// operator.
#[derive(Clone, Copy, Debug, PartialEq, Eq, Structural)]
pub enum Dialect {
    Ansi,
    BigQuery,
    ClickHouse,
    DuckDb,
    Generic,
    GlareDb,
    MsSql,
    MySql,
    Postgres,
    SQLite,
    Snowflake,
}

impl Dialect {
    /// The name of the dialect, which is also the name of the module that
    /// holds its operators.
    pub open spec fn name(self) -> Seq<char> {
        match self {
            Dialect::Ansi => "ansi"@,
            Dialect::BigQuery => "bigquery"@,
            Dialect::ClickHouse => "clickhouse"@,
            Dialect::DuckDb => "duckdb"@,
            Dialect::Generic => "generic"@,
            Dialect::GlareDb => "glaredb"@,
            Dialect::MsSql => "mssql"@,
            Dialect::MySql => "mysql"@,
            Dialect::Postgres => "postgres"@,
            Dialect::SQLite => "sqlite"@,
            Dialect::Snowflake => "snowflake"@,
        }
    }

    pub fn as_str(&self) -> (s: &'static str)
        ensures
            s@ == self.name(),
    {
        match self {
            Dialect::Ansi => "ansi",
            Dialect::BigQuery => "bigquery",
            Dialect::ClickHouse => "clickhouse",
            Dialect::DuckDb => "duckdb",
            Dialect::Generic => "generic",
            Dialect::GlareDb => "glaredb",
            Dialect::MsSql => "mssql",
            Dialect::MySql => "mysql",
            Dialect::Postgres => "postgres",
            Dialect::SQLite => "sqlite",
            Dialect::Snowflake => "snowflake",
        }
    }
}

} // verus!
