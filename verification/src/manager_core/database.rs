//! The Dune game database: connection settings that never leak the password,
//! and the queries the core runs.
use vstd::prelude::*;
use crate::text::{extend_str, string_of};

verus! {

/// Default database name used by the vendor server package.
pub const DEFAULT_DUNE_DATABASE: &'static str = "dune";

/// Default database user used by the vendor server package.
pub const DEFAULT_DUNE_DATABASE_USER: &'static str = "dune";

/// Default database port exposed by the test VM/database service.
pub const DEFAULT_DUNE_DATABASE_PORT: u16 = 15432;

/// Connection settings for the Dune PostgreSQL database.
#[derive(Clone, Debug)]
pub struct DuneDatabaseConfig {
    pub host: String,
    pub port: u16,
    pub database: String,
    pub user: String,
    pub password: String,
}

/// Password-free database connection summary.
#[derive(Clone, Debug, PartialEq, Eq)]
pub struct DuneDatabaseSummary {
    pub host: String,
    pub port: u16,
    pub database: String,
    pub user: String,
}

/// Lightweight database health result.
#[derive(Clone, Debug, PartialEq, Eq)]
pub struct DuneDatabaseHealth {
    pub ok: bool,
    pub connection: DuneDatabaseSummary,
    pub server_version: String,
}

/// Row from the game `world_partition` table.
#[derive(Clone, Debug, PartialEq, Eq)]
pub struct WorldPartition {
    pub partition_id: i64,
    pub server_id: Option<String>,
    pub map: String,
    pub partition_definition: String,
    pub dimension_index: i32,
    pub blocked: bool,
    pub label: Option<String>,
}

/// A query with its optional map parameter (`$1`).
#[derive(Clone, Debug, PartialEq, Eq)]
pub struct WorldPartitionQuery {
    pub sql: String,
    pub map: Option<String>,
}

impl DuneDatabaseConfig {
    /// A config using the vendor-default database name, user, and port.
    pub fn local_vendor_defaults(host: String, password: String) -> (r: Self)
        ensures
            r.host == host,
            r.password == password,
            r.port == DEFAULT_DUNE_DATABASE_PORT,
            r.database@ == DEFAULT_DUNE_DATABASE@,
            r.user@ == DEFAULT_DUNE_DATABASE_USER@,
    {
        Self {
            host,
            port: DEFAULT_DUNE_DATABASE_PORT,
            database: DEFAULT_DUNE_DATABASE.to_owned(),
            user: DEFAULT_DUNE_DATABASE_USER.to_owned(),
            password,
        }
    }

    /// A password-free summary suitable for logs and JSON output.
    pub fn redacted_summary(&self) -> (r: DuneDatabaseSummary)
        ensures
            r.host == self.host,
            r.port == self.port,
            r.database == self.database,
            r.user == self.user,
    {
        DuneDatabaseSummary {
            host: self.host.clone(),
            port: self.port,
            database: self.database.clone(),
            user: self.user.clone(),
        }
    }
}

/// The columns read from `world_partition`.
pub const WORLD_PARTITION_COLUMNS: &'static str = "select partition_id, server_id, map, partition_definition::text as partition_definition, dimension_index, blocked, label from world_partition";

/// The partitions of one map ordered by id, or of all maps ordered by map and id.
pub open spec fn world_partition_sql(filtered: bool) -> Seq<char> {
    WORLD_PARTITION_COLUMNS@ + (if filtered {
        " where map = $1 order by partition_id"@
    } else {
        " order by map, partition_id"@
    })
}

/// A Dune database client.
#[derive(Clone, Debug)]
pub struct DuneDatabase {
    pub config: DuneDatabaseConfig,
}

impl DuneDatabase {
    pub fn new(config: DuneDatabaseConfig) -> (r: Self)
        ensures
            r.config == config,
    {
        Self { config }
    }

    /// The health report once `select version()` answered `server_version`.
    pub fn health(&self, server_version: String) -> (r: DuneDatabaseHealth)
        ensures
            r.ok,
            r.server_version == server_version,
            r.connection.host == self.config.host,
            r.connection.port == self.config.port,
            r.connection.database == self.config.database,
            r.connection.user == self.config.user,
    {
        DuneDatabaseHealth { ok: true, connection: self.config.redacted_summary(), server_version }
    }

    /// The query that lists world partitions, optionally of one map.
    pub fn world_partitions_query(map: Option<&str>) -> (r: WorldPartitionQuery)
        ensures
            r.sql@ == world_partition_sql(map is Some),
            match map {
                Some(m) => r.map matches Some(p) && p@ == m@,
                None => r.map is None,
            },
    {
        let mut sql: Vec<char> = Vec::new();
        extend_str(&mut sql, WORLD_PARTITION_COLUMNS);
        match map {
            Some(m) => {
                extend_str(&mut sql, " where map = $1 order by partition_id");
                assert(sql@ =~= world_partition_sql(true));
                WorldPartitionQuery { sql: string_of(sql.as_slice()), map: Some(m.to_owned()) }
            },
            None => {
                extend_str(&mut sql, " order by map, partition_id");
                assert(sql@ =~= world_partition_sql(false));
                WorldPartitionQuery { sql: string_of(sql.as_slice()), map: None }
            },
        }
    }
}

} // verus!
