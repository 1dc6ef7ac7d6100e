use vstd::prelude::*;

verus! {

#[derive(Clone, Debug)]
pub struct ServerConfig {
    pub host: String,
    pub port: u16,
}

#[derive(Clone, Debug)]
pub struct DatabaseConfig {
    pub url: String,
    pub max_connections: u32,
}

#[derive(Clone, Debug)]
pub struct RedisConfig {
    pub url: String,
}

#[derive(Clone, Debug)]
pub struct MongoDbConfig {
    pub url: String,
    pub database: String,
}

/// The assembled application configuration.
#[derive(Clone, Debug)]
pub struct AppConfig {
    pub server: ServerConfig,
    pub database: DatabaseConfig,
    pub redis: RedisConfig,
    pub mongodb: MongoDbConfig,
}

/// A supplied raw text value, or the default when the value is missing.
pub open spec fn value_or_default(value: Option<String>, default: Seq<char>) -> Seq<char> {
    match value {
        Some(v) => v@,
        None => default,
    }
}

/// The port a raw environment value selects: the parsed number, or 8080
/// when the value is missing or does not parse as a port.
pub open spec fn spec_port_value(value: Option<String>) -> u16 {
    match value {
        Some(v) => match crate::numbers::spec_parse_bounded(v@, 65535) {
            Some(p) => p as u16,
            None => 8080,
        },
        None => 8080,
    }
}

/// The connection cap a raw environment value selects: the parsed number,
/// or 10 when the value is missing or does not parse.
pub open spec fn spec_max_connections_value(value: Option<String>) -> u32 {
    match value {
        Some(v) => match crate::numbers::spec_parse_bounded(v@, 0xFFFF_FFFF) {
            Some(p) => p as u32,
            None => 10,
        },
        None => 10,
    }
}

impl AppConfig {
    /// Assembles the configuration from raw environment values, applying
    /// the documented defaults; only the database URL has no default and
    /// must be supplied by the caller.
    pub fn new(
        host: Option<String>,
        port: Option<String>,
        database_url: String,
        max_connections: Option<String>,
        redis_url: Option<String>,
        mongodb_url: Option<String>,
        mongodb_database: Option<String>,
    ) -> (r: AppConfig)
        ensures
            r.server.host@ == value_or_default(host, "127.0.0.1"@),
            r.server.port == spec_port_value(port),
            r.database.url@ == database_url@,
            r.database.max_connections == spec_max_connections_value(max_connections),
            r.redis.url@ == value_or_default(redis_url, "redis://localhost:6379"@),
            r.mongodb.url@ == value_or_default(mongodb_url, "mongodb://localhost:27017"@),
            r.mongodb.database@ == value_or_default(mongodb_database, "user_services_db"@),
    {
        let host_value: String = match host {
            Some(h) => h,
            None => "127.0.0.1".to_owned(),
        };
        let port_value: u16 = match port {
            Some(p) => match crate::numbers::parse_u16(p.as_str()) {
                Some(v) => v,
                None => 8080,
            },
            None => 8080,
        };
        let max_connections_value: u32 = match max_connections {
            Some(m) => match crate::numbers::parse_u32(m.as_str()) {
                Some(v) => v,
                None => 10,
            },
            None => 10,
        };
        let redis_value: String = match redis_url {
            Some(u) => u,
            None => "redis://localhost:6379".to_owned(),
        };
        let mongodb_value: String = match mongodb_url {
            Some(u) => u,
            None => "mongodb://localhost:27017".to_owned(),
        };
        let mongodb_database_value: String = match mongodb_database {
            Some(d) => d,
            None => "user_services_db".to_owned(),
        };
        AppConfig {
            server: ServerConfig { host: host_value, port: port_value },
            database: DatabaseConfig { url: database_url, max_connections: max_connections_value },
            redis: RedisConfig { url: redis_value },
            mongodb: MongoDbConfig { url: mongodb_value, database: mongodb_database_value },
        }
    }
}

} // verus!
