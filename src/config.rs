//! Settings of the service, the database and the cache, with their defaults.
use vstd::prelude::*;

verus! {

/// Where the service listens.
#[derive(Clone, Debug, PartialEq, Eq)]
pub struct ServiceConfig {
    pub host: String,
    pub port: u16,
}

impl Default for ServiceConfig {
    fn default() -> (r: Self)
        ensures
            r.host@ == "localhost"@,
            r.port == 8069,
    {
        ServiceConfig { host: String::from_str("localhost"), port: 8069 }
    }
}

/// How to reach the database and size its connection pool.
#[derive(Clone, Debug, PartialEq, Eq)]
pub struct DBConfig {
    /// One of mysql, sqlite, postgres.
    pub db_backend: String,
    pub user: String,
    pub password: String,
    pub host: String,
    pub port: u16,
    pub db_name: String,
    pub max_conns: u32,
    /// Seconds to wait for a connection.
    pub conn_timeout: u64,
}

impl Default for DBConfig {
    fn default() -> (r: Self)
        ensures
            r.db_backend@ == "mysql"@,
            r.user@ == "root"@,
            r.password@ == ""@,
            r.host@ == "localhost"@,
            r.port == 3306,
            r.db_name@ == "space_backend"@,
            r.max_conns == 10,
            r.conn_timeout == 8,
    {
        DBConfig {
            db_backend: String::from_str("mysql"),
            user: String::from_str("root"),
            password: String::from_str(""),
            host: String::from_str("localhost"),
            port: 3306,
            db_name: String::from_str("space_backend"),
            max_conns: 10,
            conn_timeout: 8,
        }
    }
}

/// How to reach the cache.
#[derive(Clone, Debug, PartialEq, Eq)]
pub struct CacheConfig {
    /// One of redis, memcache.
    pub cache_backend: String,
    pub user: String,
    pub password: String,
    pub host: String,
    pub port: u16,
    pub db_name: String,
}

impl Default for CacheConfig {
    fn default() -> (r: Self)
        ensures
            r.cache_backend@ == "redis"@,
            r.user@ == "default"@,
            r.password@ == ""@,
            r.host@ == "localhost"@,
            r.port == 6379,
            r.db_name@ == "0"@,
    {
        CacheConfig {
            cache_backend: String::from_str("redis"),
            user: String::from_str("default"),
            password: String::from_str(""),
            host: String::from_str("localhost"),
            port: 6379,
            db_name: String::from_str("0"),
        }
    }
}

} // verus!
