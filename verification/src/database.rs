//! Connection pools: what a pool is made with, as its settings say, and
//! the registry in which a model finds its pools by name.
//!
//! A [`ConnectionPool`] holds every setting of a pool, each resolved from
//! the configuration or to its default. It holds no connection: the
//! connections are made from it, when the first one is needed.
use vstd::prelude::*;
use toml::value::Table;
use crate::config::{
    get_bounded, get_duration, get_str, setting_bounded, setting_duration, setting_text,
    table_settings, Setting,
};
use crate::schema::Schema;
use crate::statement::{Error, ErrorSpec};
use crate::text::{
    index_of, lemma_index_of, lemma_index_of_is, lemma_index_of_none, same_text,
};

verus! {

/// The database, the user and the password of a pool.
pub struct CredentialsSpec {
    pub database: Seq<char>,
    pub username: Seq<char>,
    pub password: Seq<char>,
}

/// The mathematical content of a [`ConnectionPool`].
pub struct PoolSpec {
    pub name: Seq<char>,
    pub application_name: Seq<char>,
    pub statement_cache_capacity: u64,
    pub host: Seq<char>,
    pub port: u16,
    pub credentials: Option<CredentialsSpec>,
    pub max_connections: u32,
    pub min_connections: u32,
    pub max_lifetime: u64,
    pub idle_timeout: u64,
    pub acquire_timeout: u64,
}

impl PoolSpec {
    /// The name of the database: that of the credentials, or the empty
    /// name where there are none.
    pub open spec fn database(self) -> Seq<char> {
        match self.credentials {
            Some(credentials) => credentials.database,
            None => Seq::empty(),
        }
    }
}

/// `value`, or `default` where there is none.
pub open spec fn or_default<T>(value: Option<T>, default: T) -> T {
    match value {
        Some(value) => value,
        None => default,
    }
}

/// Whether the settings can make a pool: where they name a database,
/// they hold the user and the password too.
pub open spec fn connectable(settings: Map<Seq<char>, Setting>) -> bool {
    setting_text(settings, "database"@) is Some ==> setting_text(settings, "username"@) is Some
        && setting_text(settings, "password"@) is Some
}

/// The pool that the settings describe, for the application of the given
/// name. Every setting that the table does not hold, or holds as something
/// that is out of its range or of another kind, has its default:
/// - `statement-cache-capacity`: 100 statements;
/// - `host`: `127.0.0.1`; `port`: 5432;
/// - `max-connections`: 16; `min-connections`: 2;
/// - `max-lifetime`: one hour; `idle-timeout`: ten minutes;
///   `acquire-timeout`: thirty seconds;
/// - `name`: `main`.
///
/// The credentials are those under `database`, `username` and `password`,
/// where the settings name a database, and none where they do not.
pub open spec fn resolved_pool(application_name: Seq<char>, settings: Map<Seq<char>, Setting>)
    -> PoolSpec {
    PoolSpec {
        name: or_default(setting_text(settings, "name"@), "main"@),
        application_name,
        statement_cache_capacity: or_default(
            setting_bounded(settings, "statement-cache-capacity"@, u64::MAX),
            100,
        ),
        host: or_default(setting_text(settings, "host"@), "127.0.0.1"@),
        port: or_default(setting_bounded(settings, "port"@, 0xffff), 5432) as u16,
        credentials: match setting_text(settings, "database"@) {
            Some(database) => Some(
                CredentialsSpec {
                    database,
                    username: or_default(setting_text(settings, "username"@), Seq::empty()),
                    password: or_default(setting_text(settings, "password"@), Seq::empty()),
                },
            ),
            None => None,
        },
        max_connections: or_default(
            setting_bounded(settings, "max-connections"@, 0xffff_ffff),
            16,
        ) as u32,
        min_connections: or_default(setting_bounded(settings, "min-connections"@, 0xffff_ffff), 2)
            as u32,
        max_lifetime: or_default(setting_duration(settings, "max-lifetime"@), 3600000),
        idle_timeout: or_default(setting_duration(settings, "idle-timeout"@), 600000),
        acquire_timeout: or_default(setting_duration(settings, "acquire-timeout"@), 30000),
    }
}

/// The database, the user and the password of a pool.
#[derive(Debug)]
pub struct Credentials {
    pub database: String,
    pub username: String,
    pub password: String,
}

impl View for Credentials {
    type V = CredentialsSpec;

    open spec fn view(&self) -> CredentialsSpec {
        CredentialsSpec {
            database: self.database@,
            username: self.username@,
            password: self.password@,
        }
    }
}

/// A database connection pool: its name and what it is made with.
/// Durations are in milliseconds.
#[derive(Debug)]
pub struct ConnectionPool {
    name: String,
    database: String,
    application_name: String,
    statement_cache_capacity: u64,
    host: String,
    port: u16,
    credentials: Option<Credentials>,
    max_connections: u32,
    min_connections: u32,
    max_lifetime: u64,
    idle_timeout: u64,
    acquire_timeout: u64,
}

impl View for ConnectionPool {
    type V = PoolSpec;

    closed spec fn view(&self) -> PoolSpec {
        PoolSpec {
            name: self.name@,
            application_name: self.application_name@,
            statement_cache_capacity: self.statement_cache_capacity,
            host: self.host@,
            port: self.port,
            credentials: match self.credentials {
                Some(credentials) => Some(credentials@),
                None => None,
            },
            max_connections: self.max_connections,
            min_connections: self.min_connections,
            max_lifetime: self.max_lifetime,
            idle_timeout: self.idle_timeout,
            acquire_timeout: self.acquire_timeout,
        }
    }
}

fn text_or(value: Option<String>, default: &str) -> (r: String)
    ensures
        r@ == or_default(
            match value {
                Some(text) => Some(text@),
                None => None,
            },
            default@,
        ),
{
    match value {
        Some(text) => text,
        None => String::from_str(default),
    }
}

fn number_or(value: Option<u64>, default: u64) -> (r: u64)
    ensures
        r == or_default(value, default),
{
    match value {
        Some(value) => value,
        None => default,
    }
}

impl ConnectionPool {
    #[verifier::type_invariant]
    spec fn inv(&self) -> bool {
        self.database@ == self@.database()
    }

    /// Whether `config` can make a pool: where it names a database, it
    /// holds the user and the password too.
    pub fn can_connect(config: &Table) -> (r: bool)
        ensures
            r == connectable(table_settings(*config)),
    {
        if get_str(config, "database").is_some() {
            get_str(config, "username").is_some() && get_str(config, "password").is_some()
        } else {
            true
        }
    }

    /// The pool that `config` describes, for the application named
    /// `application_name`. No connection is made.
    ///
    /// The password is taken as `config` holds it.
    pub fn connect_lazy(application_name: &str, config: &Table) -> (r: ConnectionPool)
        requires
            connectable(table_settings(*config)),
        ensures
            r@ == resolved_pool(application_name@, table_settings(*config)),
    {
        let credentials = match get_str(config, "database") {
            Some(database) => Some(
                Credentials {
                    database,
                    username: text_or(get_str(config, "username"), ""),
                    password: text_or(get_str(config, "password"), ""),
                },
            ),
            None => None,
        };
        let database = match &credentials {
            Some(credentials) => credentials.database.clone(),
            None => String::new(),
        };
        proof {
            reveal_strlit("");
            assert(""@ =~= Seq::<char>::empty());
        }
        let port = number_or(get_bounded(config, "port", 0xffff), 5432);
        let max_connections = number_or(get_bounded(config, "max-connections", 0xffff_ffff), 16);
        let min_connections = number_or(get_bounded(config, "min-connections", 0xffff_ffff), 2);
        ConnectionPool {
            name: text_or(get_str(config, "name"), "main"),
            database,
            application_name: String::from_str(application_name),
            statement_cache_capacity: number_or(
                get_bounded(config, "statement-cache-capacity", u64::MAX),
                100,
            ),
            host: text_or(get_str(config, "host"), "127.0.0.1"),
            port: port as u16,
            credentials,
            max_connections: max_connections as u32,
            min_connections: min_connections as u32,
            max_lifetime: number_or(get_duration(config, "max-lifetime"), 3600000),
            idle_timeout: number_or(get_duration(config, "idle-timeout"), 600000),
            acquire_timeout: number_or(get_duration(config, "acquire-timeout"), 30000),
        }
    }

    /// The pool that `config` describes, or `None` where `config` names
    /// a database without the user or the password.
    pub fn try_connect_lazy(application_name: &str, config: &Table) -> (r: Option<ConnectionPool>)
        ensures
            match r {
                Some(pool) => connectable(table_settings(*config)) && pool@ == resolved_pool(
                    application_name@,
                    table_settings(*config),
                ),
                None => !connectable(table_settings(*config)),
            },
    {
        if ConnectionPool::can_connect(config) {
            Some(ConnectionPool::connect_lazy(application_name, config))
        } else {
            None
        }
    }

    /// The name.
    pub fn name(&self) -> (r: &str)
        ensures
            r@ == self@.name,
    {
        self.name.as_str()
    }

    /// The name of the database.
    pub fn database(&self) -> (r: &str)
        ensures
            r@ == self@.database(),
    {
        proof {
            use_type_invariant(self);
        }
        self.database.as_str()
    }

    /// The name under which the application connects.
    pub fn application_name(&self) -> (r: &str)
        ensures
            r@ == self@.application_name,
    {
        self.application_name.as_str()
    }

    /// The number of statements that a connection keeps prepared.
    pub fn statement_cache_capacity(&self) -> (r: u64)
        ensures
            r == self@.statement_cache_capacity,
    {
        self.statement_cache_capacity
    }

    /// The host of the database.
    pub fn host(&self) -> (r: &str)
        ensures
            r@ == self@.host,
    {
        self.host.as_str()
    }

    /// The port of the database.
    pub fn port(&self) -> (r: u16)
        ensures
            r == self@.port,
    {
        self.port
    }

    /// The database, the user and the password, where the pool has them.
    pub fn credentials(&self) -> (r: Option<&Credentials>)
        ensures
            match r {
                Some(credentials) => self@.credentials == Some(credentials@),
                None => self@.credentials is None,
            },
    {
        match &self.credentials {
            Some(credentials) => Some(credentials),
            None => None,
        }
    }

    /// The greatest number of connections.
    pub fn max_connections(&self) -> (r: u32)
        ensures
            r == self@.max_connections,
    {
        self.max_connections
    }

    /// The least number of connections.
    pub fn min_connections(&self) -> (r: u32)
        ensures
            r == self@.min_connections,
    {
        self.min_connections
    }

    /// The longest life of a connection, in milliseconds.
    pub fn max_lifetime(&self) -> (r: u64)
        ensures
            r == self@.max_lifetime,
    {
        self.max_lifetime
    }

    /// The longest time that a connection stays idle, in milliseconds.
    pub fn idle_timeout(&self) -> (r: u64)
        ensures
            r == self@.idle_timeout,
    {
        self.idle_timeout
    }

    /// The longest wait for a connection, in milliseconds.
    pub fn acquire_timeout(&self) -> (r: u64)
        ensures
            r == self@.acquire_timeout,
    {
        self.acquire_timeout
    }
}

/// The names of a list of pools, one for one.
pub open spec fn pool_names(pools: Seq<PoolSpec>) -> Seq<Seq<char>> {
    Seq::new(pools.len(), |i: int| pools[i].name)
}

/// No two pools have the same name.
pub open spec fn pools_distinct(pools: Seq<PoolSpec>) -> bool {
    forall|i: int, j: int|
        0 <= i < j < pools.len() ==> (#[trigger] pools[i]).name != (#[trigger] pools[j]).name
}

/// The first pool of the given name, if there is one.
pub open spec fn pool_named(pools: Seq<PoolSpec>, name: Seq<char>) -> Option<PoolSpec> {
    let i = index_of(pool_names(pools), name);
    if i >= 0 {
        Some(pools[i])
    } else {
        None
    }
}

/// A list of database connection pools, each found by its name.
#[derive(Debug)]
pub struct ConnectionPools(Vec<ConnectionPool>);

impl View for ConnectionPools {
    type V = Seq<PoolSpec>;

    closed spec fn view(&self) -> Seq<PoolSpec> {
        Seq::new(self.0@.len(), |i: int| self.0@[i]@)
    }
}

impl ConnectionPools {
    /// A registry without pools.
    pub fn new() -> (r: ConnectionPools)
        ensures
            r@ == Seq::<PoolSpec>::empty(),
    {
        ConnectionPools(Vec::new())
    }

    /// The number of pools.
    pub fn len(&self) -> (n: usize)
        ensures
            n == self@.len(),
    {
        self.0.len()
    }

    fn position(&self, name: &str) -> (r: Option<usize>)
        ensures
            match r {
                Some(i) => i < self@.len() && i == index_of(pool_names(self@), name@),
                None => index_of(pool_names(self@), name@) == -1,
            },
    {
        let mut i: usize = 0;
        while i < self.0.len()
            invariant
                i <= self.0.len(),
                forall|j: int| 0 <= j < i ==> pool_names(self@)[j] != name@,
            decreases self.0.len() - i,
        {
            if same_text(self.0[i].name(), name) {
                proof {
                    lemma_index_of_is(pool_names(self@), name@, i as int);
                }
                return Some(i);
            }
            i += 1;
        }
        proof {
            lemma_index_of_none(pool_names(self@), name@);
        }
        None
    }

    /// Adds `pool`, unless a pool of its name is there already. Returns
    /// whether the pool was added.
    ///
    /// The names of the pools of a registry stay distinct.
    pub fn register(&mut self, pool: ConnectionPool) -> (added: bool)
        ensures
            added == (pool_named(old(self)@, pool@.name) is None),
            final(self)@ == if added {
                old(self)@.push(pool@)
            } else {
                old(self)@
            },
            pools_distinct(old(self)@) ==> pools_distinct(final(self)@),
    {
        if self.position(pool.name()).is_some() {
            return false;
        }
        proof {
            lemma_index_of(pool_names(self@), pool@.name);
            assert forall|i: int| 0 <= i < self@.len() implies (#[trigger] self@[i]).name
                != pool@.name by {
                assert(pool_names(self@)[i] == self@[i].name);
            }
        }
        self.0.push(pool);
        true
    }

    /// The pool named `name`, if there is one.
    pub fn get_pool(&self, name: &str) -> (r: Option<&ConnectionPool>)
        ensures
            match r {
                Some(pool) => pool_named(self@, name@) == Some(pool@) && pool@.name == name@,
                None => pool_named(self@, name@) is None,
            },
    {
        proof {
            lemma_index_of(pool_names(self@), name@);
        }
        match self.position(name) {
            Some(i) => Some(&self.0[i]),
            None => None,
        }
    }
}

impl Schema {
    /// The pool that the model reads from, or the error that the pool is
    /// closed where the registry has no pool of the reader's name.
    pub fn init_reader<'a>(&self, pools: &'a ConnectionPools) -> (r: Result<
        &'a ConnectionPool,
        Error,
    >)
        ensures
            match r {
                Ok(pool) => pool_named(pools@, self@.reader_name) == Some(pool@),
                Err(error) => pool_named(pools@, self@.reader_name) is None && error@
                    == ErrorSpec::PoolClosed,
            },
    {
        match pools.get_pool(self.reader_name()) {
            Some(pool) => Ok(pool),
            None => Err(Error::PoolClosed),
        }
    }

    /// The pool that the model writes to, or the error that the pool is
    /// closed where the registry has no pool of the writer's name.
    pub fn init_writer<'a>(&self, pools: &'a ConnectionPools) -> (r: Result<
        &'a ConnectionPool,
        Error,
    >)
        ensures
            match r {
                Ok(pool) => pool_named(pools@, self@.writer_name) == Some(pool@),
                Err(error) => pool_named(pools@, self@.writer_name) is None && error@
                    == ErrorSpec::PoolClosed,
            },
    {
        match pools.get_pool(self.writer_name()) {
            Some(pool) => Ok(pool),
            None => Err(Error::PoolClosed),
        }
    }
}

} // verus!
