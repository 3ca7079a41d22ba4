use zino_core::column::{Column, ColumnType};
use zino_core::config::{get_bounded, get_duration};
use zino_core::database::{ConnectionPool, ConnectionPools};
use zino_core::duration::parse_duration;
use zino_core::operations::most_rows;
use zino_core::schema::Schema;
use zino_core::server::{failure_status, Failure, ServerOptions};
use zino_core::statement::Error;

fn table(text: &str) -> toml::value::Table {
    text.parse::<toml::Value>().unwrap().as_table().unwrap().clone()
}

#[test]
fn durations_are_numbers_with_units() {
    assert_eq!(parse_duration("30s"), Some(30_000));
    assert_eq!(parse_duration("10m"), Some(600_000));
    assert_eq!(parse_duration("1h"), Some(3_600_000));
    assert_eq!(parse_duration("2d"), Some(172_800_000));
    assert_eq!(parse_duration("250ms"), Some(250));
    assert_eq!(parse_duration("1h30m15s"), Some(5_415_000));
    assert_eq!(parse_duration("0s"), Some(0));
    assert_eq!(parse_duration(""), None);
    assert_eq!(parse_duration("30"), None);
    assert_eq!(parse_duration("s"), None);
    assert_eq!(parse_duration("30 s"), None);
    assert_eq!(parse_duration("30x"), None);
    assert_eq!(parse_duration("30sec"), None);
    assert_eq!(parse_duration("-30s"), None);
    assert_eq!(parse_duration("1h 30m"), None);
}

#[test]
fn a_duration_that_does_not_fit_is_no_duration() {
    assert_eq!(parse_duration("18446744073709551615ms"), Some(u64::MAX));
    assert_eq!(parse_duration("18446744073709551616ms"), None);
    assert_eq!(parse_duration("18446744073709551615s"), None);
    assert_eq!(parse_duration("18446744073709551615ms1ms"), None);
    assert_eq!(parse_duration("213503982334d"), Some(213503982334 * 86_400_000));
    assert_eq!(parse_duration("213503982335d"), None);
}

#[test]
fn a_pool_without_settings_has_every_default() {
    let config = table("");
    let pool = ConnectionPool::connect_lazy("app", &config);
    assert_eq!(pool.name(), "main");
    assert_eq!(pool.database(), "");
    assert_eq!(pool.application_name(), "app");
    assert_eq!(pool.statement_cache_capacity(), 100);
    assert_eq!(pool.host(), "127.0.0.1");
    assert_eq!(pool.port(), 5432);
    assert!(pool.credentials().is_none());
    assert_eq!(pool.max_connections(), 16);
    assert_eq!(pool.min_connections(), 2);
    assert_eq!(pool.max_lifetime(), 3_600_000);
    assert_eq!(pool.idle_timeout(), 600_000);
    assert_eq!(pool.acquire_timeout(), 30_000);
}

#[test]
fn a_pool_takes_its_settings_from_the_table() {
    let config = table(
        "name = \"replica\"\nhost = \"db.example\"\nport = 6432\ndatabase = \"cube\"\n\
         username = \"ann\"\npassword = \"secret\"\nstatement-cache-capacity = 7\n\
         max-connections = 40\nmin-connections = 4\nmax-lifetime = \"2h\"\n\
         idle-timeout = \"90s\"\nacquire-timeout = \"500ms\"\n",
    );
    assert!(ConnectionPool::can_connect(&config));
    let pool = ConnectionPool::try_connect_lazy("app", &config).unwrap();
    assert_eq!(pool.name(), "replica");
    assert_eq!(pool.database(), "cube");
    assert_eq!(pool.host(), "db.example");
    assert_eq!(pool.port(), 6432);
    let credentials = pool.credentials().unwrap();
    assert_eq!(credentials.database, "cube");
    assert_eq!(credentials.username, "ann");
    assert_eq!(credentials.password, "secret");
    assert_eq!(pool.statement_cache_capacity(), 7);
    assert_eq!(pool.max_connections(), 40);
    assert_eq!(pool.min_connections(), 4);
    assert_eq!(pool.max_lifetime(), 7_200_000);
    assert_eq!(pool.idle_timeout(), 90_000);
    assert_eq!(pool.acquire_timeout(), 500);
}

#[test]
fn a_setting_of_another_kind_or_out_of_range_has_its_default() {
    let config = table("port = 70000\nhost = 5\nmax-connections = -1\nmax-lifetime = 60\nname = true\n");
    let pool = ConnectionPool::connect_lazy("app", &config);
    assert_eq!(pool.port(), 5432);
    assert_eq!(pool.host(), "127.0.0.1");
    assert_eq!(pool.max_connections(), 16);
    assert_eq!(pool.max_lifetime(), 3_600_000);
    assert_eq!(pool.name(), "main");
    assert_eq!(get_bounded(&config, "port", 100_000), Some(70_000));
    assert_eq!(get_bounded(&config, "host", 100), Some(5));
    assert_eq!(get_bounded(&config, "max-connections", 100), None);
    assert_eq!(get_duration(&config, "max-lifetime"), None);
}

#[test]
fn a_database_needs_its_user_and_password() {
    assert!(!ConnectionPool::can_connect(&table("database = \"cube\"\n")));
    assert!(!ConnectionPool::can_connect(&table("database = \"cube\"\nusername = \"ann\"\n")));
    assert!(ConnectionPool::try_connect_lazy("app", &table("database = \"cube\"\npassword = \"x\"\n")).is_none());
    assert!(ConnectionPool::can_connect(&table("username = \"ann\"\n")));
}

fn pool(name: &str, host: &str) -> ConnectionPool {
    ConnectionPool::connect_lazy("app", &table(&format!("name = \"{}\"\nhost = \"{}\"\n", name, host)))
}

#[test]
fn the_registry_finds_a_pool_by_its_name() {
    let mut pools = ConnectionPools::new();
    assert!(pools.get_pool("main").is_none());
    assert!(pools.register(pool("main", "a")));
    assert!(pools.register(pool("replica", "b")));
    assert!(!pools.register(pool("main", "c")));
    assert_eq!(pools.len(), 2);
    assert_eq!(pools.get_pool("main").unwrap().host(), "a");
    assert_eq!(pools.get_pool("replica").unwrap().host(), "b");
    assert!(pools.get_pool("other").is_none());
}

#[test]
fn a_model_without_its_pool_finds_the_pool_closed() {
    let columns = vec![Column::new("id", ColumnType::Uuid, false).unwrap()];
    let schema = Schema::new("app", "user", columns).unwrap().with_reader_name("replica");
    assert_eq!(schema.reader_name(), "replica");
    assert_eq!(schema.writer_name(), "main");
    let mut pools = ConnectionPools::new();
    assert!(matches!(schema.init_reader(&pools), Err(Error::PoolClosed)));
    assert!(matches!(schema.init_writer(&pools), Err(Error::PoolClosed)));
    pools.register(pool("main", "a"));
    assert!(matches!(schema.init_reader(&pools), Err(Error::PoolClosed)));
    assert_eq!(schema.init_writer(&pools).unwrap().host(), "a");
    pools.register(pool("replica", "b"));
    assert_eq!(schema.init_reader(&pools).unwrap().host(), "b");
    let schema = schema.with_writer_name("replica");
    assert_eq!(schema.init_writer(&pools).unwrap().host(), "b");
}

#[test]
fn errors_have_messages() {
    assert_eq!(Error::PoolClosed.message(), "attempted to acquire a connection on a closed pool");
    assert_eq!(
        Error::RowNotFound.message(),
        "no rows returned by a query that expected to return at least one row"
    );
    assert_eq!(Error::Io("x".to_string()).message(), "x");
    assert_eq!(Error::Decode("y".to_string()).message(), "y");
}

#[test]
fn the_options_of_a_server() {
    let options = ServerOptions::from_config(None, "/srv/assets");
    assert_eq!(options.body_limit, 100 * 1024 * 1024);
    assert_eq!(options.request_timeout, 10_000);
    assert_eq!(options.public_dir, "/srv/assets");
    let server = table("body-limit = 1024\nrequest-timeout = \"3s\"\npublic-dir = \"public\"\n");
    let options = ServerOptions::from_config(Some(&server), "/srv/assets");
    assert_eq!(options.body_limit, 1024);
    assert_eq!(options.request_timeout, 3_000);
    assert_eq!(options.public_dir, "public");
    let options = ServerOptions::from_config(Some(&table("body-limit = \"big\"\n")), "assets");
    assert_eq!(options.body_limit, 100 * 1024 * 1024);
    assert_eq!(options.public_dir, "assets");
}

#[test]
fn the_status_of_a_failure() {
    assert_eq!(failure_status(Failure::Elapsed), 408);
    assert_eq!(failure_status(Failure::LengthLimit), 413);
    assert_eq!(failure_status(Failure::Other), 500);
}

#[test]
fn the_most_rows_of_the_statements_of_the_indexes() {
    assert_eq!(most_rows(0, 3), 3);
    assert_eq!(most_rows(3, 1), 3);
    assert_eq!(most_rows(2, 2), 2);
}
