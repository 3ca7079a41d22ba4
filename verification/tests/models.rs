use zino_core::dataset::Dataset;
use zino_core::datetime::{utc_string, DateTime};
use zino_core::model::{Uuid, Validation};
use zino_core::record::Record;
use zino_core::request::{first_of_list, AxumExtractor, Request};
use zino_core::value::{Object, Value};

fn text(s: &str) -> Value {
    Value::String(s.to_string())
}

#[test]
fn instants_from_timestamps() {
    let instant = DateTime::from_timestamp(1_431_648_000);
    assert_eq!(instant.timestamp(), 1_431_648_000);
    assert_eq!(instant.timestamp_millis(), 1_431_648_000_000);
    assert_eq!(instant.to_iso_string(), "2015-05-15T00:00:00.000Z");
    assert_eq!(instant.to_utc_string(), "Fri, 15 May 2015 00:00:00 GMT");
    let millis = DateTime::from_timestamp_millis(947_638_923_004);
    assert_eq!(millis.timestamp(), 947_638_923);
    assert_eq!(millis.timestamp_subsec_nanos(), 4_000_000);
    assert_eq!(millis.timestamp_millis(), 947_638_923_004);
    assert_eq!(millis.to_iso_string(), "2000-01-12T01:02:03.004Z");
}

#[test]
fn instants_before_the_epoch() {
    let instant = DateTime::from_timestamp_millis(-1);
    assert_eq!(instant.timestamp(), -1);
    assert_eq!(instant.timestamp_subsec_nanos(), 999_000_000);
    assert_eq!(instant.timestamp_millis(), -1);
    assert_eq!(instant.to_iso_string(), "1969-12-31T23:59:59.999Z");
    assert_eq!(DateTime::from_timestamp_millis(-1000).timestamp(), -1);
    assert_eq!(DateTime::from_timestamp_millis(-1000).timestamp_subsec_nanos(), 0);
    assert_eq!(DateTime::from_timestamp_millis(-1001).timestamp(), -2);
}

#[test]
fn an_instant_out_of_range_is_the_epoch() {
    assert_eq!(DateTime::from_timestamp(i64::MAX), DateTime::epoch());
    assert_eq!(DateTime::from_timestamp(i64::MIN).timestamp(), 0);
    assert_eq!(DateTime::from_timestamp_millis(i64::MAX).timestamp_millis(), 0);
    assert!(DateTime::from_parts(0, 2_000_000_000).is_none());
    assert!(DateTime::from_parts(0, 1_500_000_000).is_none());
    assert!(DateTime::from_parts(59, 1_500_000_000).is_some());
    assert_eq!(DateTime::epoch().to_iso_string(), "1970-01-01T00:00:00.000Z");
    assert_eq!(DateTime::epoch().to_utc_string(), "Thu, 1 Jan 1970 00:00:00 GMT");
}

#[test]
fn instants_are_ordered_by_time() {
    let early = DateTime::from_timestamp_millis(1_500);
    let late = DateTime::from_timestamp_millis(2_000);
    assert!(early < late);
    assert!(DateTime::from_timestamp(1) < early);
    assert_eq!(early, DateTime::from_parts(1, 500_000_000).unwrap());
}

#[test]
fn instants_read_from_text() {
    let instant = DateTime::parse_iso_str("1996-12-19T16:39:57-08:00").unwrap();
    assert_eq!(instant.timestamp(), 851_042_397);
    assert_eq!(instant.to_iso_string(), "1996-12-20T00:39:57.000Z");
    let instant = DateTime::parse_utc_str("Wed, 18 Feb 2015 23:16:09 GMT").unwrap();
    assert_eq!(instant.timestamp(), 1_424_301_369);
    assert_eq!(instant.to_utc_string(), "Wed, 18 Feb 2015 23:16:09 GMT");
    assert!(DateTime::parse_iso_str("yesterday").is_err());
    assert!(!DateTime::parse_utc_str("2015-02-18").unwrap_err().message.is_empty());
}

#[test]
fn an_instant_after_the_year_9999_has_no_utc_string() {
    let instant = DateTime::from_timestamp(253_402_300_800);
    assert!(!instant.has_utc_string());
    assert_eq!(instant.try_to_utc_string(), None);
    assert_eq!(instant.to_iso_string(), "+10000-01-01T00:00:00.000Z");
    let last = DateTime::from_timestamp(253_402_300_799);
    assert!(last.has_utc_string());
    assert_eq!(last.try_to_utc_string().unwrap(), "Fri, 31 Dec 9999 23:59:59 GMT");
}

#[test]
fn instants_a_duration_later_and_earlier() {
    let instant = DateTime::from_timestamp(10);
    assert_eq!(instant.add(5, 500_000_000).timestamp_millis(), 15_500);
    assert_eq!(instant.sub(11, 0).timestamp(), -1);
    assert_eq!(instant.checked_add(1, 0).unwrap().timestamp(), 11);
    assert_eq!(instant.checked_sub(0, 1).unwrap().timestamp_subsec_nanos(), 999_999_999);
    assert!(instant.checked_add(u64::MAX, 0).is_none());
    assert!(instant.checked_sub(u64::MAX, 0).is_none());
    assert!(instant.checked_add(9_000_000_000_000, 0).is_none());
}

#[test]
fn the_offset_of_a_utc_text_becomes_gmt() {
    assert_eq!(utc_string("Tue, 1 Jul 2003 10:52:37 +0000"), "Tue, 1 Jul 2003 10:52:37 GMT");
    assert_eq!(utc_string("x +0000 +0000"), "x GMT");
    assert_eq!(utc_string("x +0200"), "x +0200 GMT");
    assert_eq!(utc_string(" +0000"), " GMT");
    assert_eq!(utc_string(""), " GMT");
}

#[test]
fn identifiers_are_read_and_written() {
    let id = Uuid::parse("550e8400-e29b-41d4-a716-446655440000").unwrap();
    assert_eq!(id.0, 0x550e8400_e29b_41d4_a716_446655440000);
    assert_eq!(id.to_text(), "550e8400-e29b-41d4-a716-446655440000");
    assert_eq!(Uuid::parse("550E8400E29B41D4A716446655440000").unwrap(), id);
    assert_eq!(Uuid::nil().to_text(), "00000000-0000-0000-0000-000000000000");
    assert!(Uuid::parse("not an identifier").is_err());
}

#[test]
fn a_validation_records_failures() {
    let mut validation = Validation::new();
    assert!(validation.is_success());
    validation.record_fail("name", "must be nonempty".to_string());
    assert!(!validation.is_success());
    assert_eq!(validation.failed_entries, vec![("name".to_string(), "must be nonempty".to_string())]);
    assert!(Validation::parse_uuid(None).is_none());
    assert!(Validation::parse_uuid(Some(&Value::Number(1))).is_none());
    assert!(Validation::parse_uuid(Some(&text("x"))).unwrap().is_err());
    assert_eq!(Validation::parse_string(Some(&text("x"))), Some("x".to_string()));
    assert_eq!(Validation::parse_string(Some(&Value::Null)), None);
}

#[test]
fn the_record_model_describes_its_table() {
    let schema = Record::schema("app").unwrap();
    assert_eq!(schema.table_name(), "app_record");
    assert_eq!(schema.model_namespace(), "app:record");
    assert_eq!(schema.primary_key_name(), "id");
    assert_eq!(schema.columns().len(), 12);
    assert_eq!(schema.get_column("namespace").unwrap().default_value(), Some("app:record"));
    assert_eq!(schema.get_column("recorded_at").unwrap().index_type().unwrap(), "btree");
    assert!(Record::schema("1app").is_none());
    assert!(Record::schema("").is_none());
    assert_eq!(
        schema.create_table().sql,
        "CREATE TABLE IF NOT EXISTS app_record (id uuid, name text NOT NULL, namespace text DEFAULT 'app:record', visibility text DEFAULT 'internal', status text DEFAULT 'active', description text, integrity text, signature text, recorded_at timestamptz DEFAULT now(), content jsonb, metrics jsonb, extras jsonb, CONSTRAINT app_record_pkey PRIMARY KEY (id));"
    );
}

#[test]
fn a_record_reads_its_identifier_and_name() {
    let id = Uuid::parse("550e8400-e29b-41d4-a716-446655440000").unwrap();
    let mut record = Record::with_identity(Uuid::nil(), DateTime::from_timestamp(0));
    let mut data = Object::new();
    data.insert("id".to_string(), text("550e8400-e29b-41d4-a716-446655440000"));
    data.insert("name".to_string(), text("first"));
    let validation = record.read_map(&data);
    assert!(validation.is_success());
    assert_eq!(record.id, id);
    assert_eq!(record.name, "first");
    assert_eq!(record.primary_key(), "550e8400-e29b-41d4-a716-446655440000");

    let mut bad = Object::new();
    bad.insert("id".to_string(), text("xyz"));
    bad.insert("name".to_string(), text(""));
    let validation = record.read_map(&bad);
    assert_eq!(validation.failed_entries.len(), 2);
    assert_eq!(validation.failed_entries[0].0, "id");
    assert_eq!(validation.failed_entries[1], ("name".to_string(), "must be nonempty".to_string()));
    assert_eq!(record.id, id);
    assert_eq!(record.name, "");

    let mut fresh = Record::with_identity(id, DateTime::from_timestamp(0));
    let validation = fresh.read_map(&Object::new());
    assert_eq!(validation.failed_entries, vec![("name".to_string(), "must be nonempty".to_string())]);
}

#[test]
fn a_record_is_written_as_a_row() {
    let id = Uuid::parse("550e8400-e29b-41d4-a716-446655440000").unwrap();
    let mut record = Record::with_identity(id, DateTime::from_timestamp(86_400));
    record.name = "first".to_string();
    record.content.insert("k".to_string(), Value::Number(1));
    let row = record.into_map();
    assert_eq!(
        row.to_json(),
        "{\"id\":\"550e8400-e29b-41d4-a716-446655440000\",\"name\":\"first\",\"namespace\":\"\",\"visibility\":\"\",\"status\":\"\",\"description\":\"\",\"integrity\":\"\",\"signature\":\"\",\"recorded_at\":\"1970-01-02T00:00:00.000Z\",\"content\":{\"k\":1},\"metrics\":{},\"extras\":{}}"
    );
    let schema = Record::schema("app").unwrap();
    assert_eq!(
        schema.insert(&row).sql,
        "INSERT INTO app_record (id,name,namespace,visibility,status,description,integrity,signature,recorded_at,content,metrics,extras) VALUES ('550e8400-e29b-41d4-a716-446655440000','first','','','','','','','1970-01-02T00:00:00.000Z','{\"k\":1}','{}','{}');"
    );
}

#[test]
fn the_dataset_model_describes_its_table() {
    let schema = Dataset::schema("app").unwrap();
    assert_eq!(schema.table_name(), "app_dataset");
    assert_eq!(schema.model_namespace(), "app:dataset");
    assert_eq!(schema.model_name(), "dataset");
    assert_eq!(schema.columns().len(), 20);
    assert!(Dataset::schema("app name").is_none());
    let statements = schema.create_indexes();
    assert_eq!(
        statements,
        vec![
            "CREATE INDEX CONCURRENTLY IF NOT EXISTS app_dataset_namespace_index ON app_dataset USING hash(namespace);",
            "CREATE INDEX CONCURRENTLY IF NOT EXISTS app_dataset_status_index ON app_dataset USING hash(status);",
            "CREATE INDEX CONCURRENTLY IF NOT EXISTS app_dataset_tags_index ON app_dataset USING gin(tags);",
            "CREATE INDEX CONCURRENTLY IF NOT EXISTS app_dataset_created_at_index ON app_dataset USING btree(created_at DESC);",
            "CREATE INDEX CONCURRENTLY IF NOT EXISTS app_dataset_updated_at_index ON app_dataset USING btree(updated_at DESC);",
            "CREATE INDEX CONCURRENTLY IF NOT EXISTS app_dataset_text_search_english_index ON app_dataset USING gin(to_tsvector('english', coalesce(name, '') || ' ' || coalesce(description, '')));",
        ]
    );
}

#[test]
fn a_dataset_is_written_as_a_row() {
    let id = Uuid::parse("550e8400-e29b-41d4-a716-446655440000").unwrap();
    let mut dataset = Dataset::with_identity(id, DateTime::from_timestamp(0));
    dataset.name = "d".to_string();
    dataset.tags = vec![Uuid(1), Uuid(2)];
    dataset.version = u64::MAX;
    dataset.edition = 3;
    let row = dataset.into_map();
    assert_eq!(row.len(), 20);
    assert!(matches!(row.get("task_id"), Some(Value::Null)));
    assert!(matches!(row.get("version"), Some(Value::Number(n)) if *n == i64::MAX));
    assert!(matches!(row.get("edition"), Some(Value::Number(3))));
    match row.get("tags") {
        Some(value) => assert_eq!(
            value.to_json(),
            "[\"00000000-0000-0000-0000-000000000001\",\"00000000-0000-0000-0000-000000000002\"]"
        ),
        None => panic!("no tags"),
    }
    dataset.task_id = Some(Uuid(7));
    assert!(matches!(dataset.into_map().get("task_id"), Some(Value::String(s)) if s.ends_with("07")));
    assert_eq!(dataset.primary_key(), "550e8400-e29b-41d4-a716-446655440000");
    let mut data = Object::new();
    data.insert("name".to_string(), text("renamed"));
    assert!(dataset.read_map(&data).is_success());
    assert_eq!(dataset.name, "renamed");
    assert_eq!(dataset.edition, 3);
}

fn request() -> AxumExtractor<Request> {
    AxumExtractor(Request {
        method: "GET".to_string(),
        path: "/user/7/view".to_string(),
        matched_path: Some("/user/:id/view".to_string()),
        query: Some("a=1".to_string()),
        headers: vec![
            ("Content-Type".to_string(), "text/plain".to_string()),
            ("X-Real-IP".to_string(), "10.0.0.9".to_string()),
            ("content-type".to_string(), "text/html".to_string()),
        ],
        remote_addr: Some("192.168.0.1".to_string()),
    })
}

#[test]
fn what_the_handlers_read_from_a_request() {
    let mut extractor = request();
    assert_eq!(extractor.request_method(), "GET");
    assert_eq!(extractor.request_path(), "/user/7/view");
    assert_eq!(extractor.matched_route(), "/user/:id/view");
    assert_eq!(extractor.query_string(), Some("a=1"));
    assert_eq!(extractor.header_map().len(), 3);
    assert_eq!(extractor.get_header("content-type"), Some("text/plain"));
    assert_eq!(extractor.get_header("CONTENT-TYPE"), Some("text/plain"));
    assert_eq!(extractor.get_header("accept"), None);
    assert_eq!(extractor.path, "/user/7/view");
    extractor.deref_mut().matched_path = None;
    extractor.deref_mut().query = None;
    assert_eq!(extractor.matched_route(), "/user/7/view");
    assert_eq!(extractor.query_string(), None);
}

#[test]
fn the_address_of_the_client() {
    let mut extractor = request();
    assert_eq!(extractor.client_ip(), Some("10.0.0.9".to_string()));
    extractor.deref_mut().headers.push(("x-forwarded-for".to_string(), " 1.2.3.4, 5.6.7.8".to_string()));
    assert_eq!(extractor.client_ip(), Some("1.2.3.4".to_string()));
    extractor.deref_mut().headers.clear();
    assert_eq!(extractor.client_ip(), Some("192.168.0.1".to_string()));
    extractor.deref_mut().remote_addr = None;
    assert_eq!(extractor.client_ip(), None);
    assert_eq!(first_of_list("a,b"), "a");
    assert_eq!(first_of_list("  a b"), "a");
    assert_eq!(first_of_list(""), "");
    assert_eq!(first_of_list(","), "");
}
