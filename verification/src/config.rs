//! Runtime configuration for the broker and store connections, and the
//! formatting of their connection strings.
//!
//! The values are loaded from the environment by the surrounding
//! application; the library only holds them and derives the connection
//! strings from them.

use vstd::prelude::*;

verus! {

use vstd::string::StringExecFns;

/// Connection settings for the message broker and the entity store.
pub struct Config {
    pub pulsar_user: String,
    pub pulsar_passwd: String,
    pub pulsar_host: String,
    pub pulsar_port: String,
    pub pulsar_topics: String,
    pub pulsar_consumer_name: String,
    pub pulsar_subscription_name: String,
    pub postgres_user: String,
    pub postgres_passwd: String,
    pub postgres_host: String,
    pub postgres_database: String,
}

/// Default user name and password for both connections.
pub fn default_user_pass() -> (r: String)
    ensures
        r@ == "admin"@,
{
    String::from_str("admin")
}

/// Default host name for both connections.
pub fn default_host() -> (r: String)
    ensures
        r@ == "localhost"@,
{
    String::from_str("localhost")
}

/// Default broker port.
pub fn default_port() -> (r: String)
    ensures
        r@ == "5672"@,
{
    String::from_str("5672")
}

/// Default store database name.
pub fn default_database() -> (r: String)
    ensures
        r@ == "postgres"@,
{
    String::from_str("postgres")
}

/// Default broker consumer name.
pub fn default_consumer_name() -> (r: String)
    ensures
        r@ == "pulsar2db"@,
{
    String::from_str("pulsar2db")
}

/// Default broker subscription name.
pub fn default_subscription_name() -> (r: String)
    ensures
        r@ == "pulsar2db_subscription"@,
{
    String::from_str("pulsar2db_subscription")
}

/// Builds the broker connection string `pulsar://<host>:<port>`.
pub fn format_pulsar_connection_string(config: &Config) -> (r: String)
    ensures
        r@ == "pulsar://"@ + config.pulsar_host@ + ":"@ + config.pulsar_port@,
{
    let mut r = String::from_str("pulsar://");
    r.append(config.pulsar_host.as_str());
    r.append(":");
    r.append(config.pulsar_port.as_str());
    r
}

/// Builds the store connection string
/// `postgresql://<user>:<password>@<host>/<database>`.
pub fn format_postgres_connection_string(config: &Config) -> (r: String)
    ensures
        r@ == "postgresql://"@ + config.postgres_user@ + ":"@ + config.postgres_passwd@
            + "@"@ + config.postgres_host@ + "/"@ + config.postgres_database@,
{
    let mut r = String::from_str("postgresql://");
    r.append(config.postgres_user.as_str());
    r.append(":");
    r.append(config.postgres_passwd.as_str());
    r.append("@");
    r.append(config.postgres_host.as_str());
    r.append("/");
    r.append(config.postgres_database.as_str());
    r
}

} // verus!
