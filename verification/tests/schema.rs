use zino_core::column::{Column, ColumnType, IndexType};
use zino_core::mutation::Mutation;
use zino_core::query::Query;
use zino_core::schema::Schema;
use zino_core::statement::{found, Error, Expectation};
use zino_core::value::{Object, Value};

fn column(name: &str, column_type: ColumnType, not_null: bool) -> Column {
    Column::new(name, column_type, not_null).unwrap()
}

fn user_schema() -> Schema {
    let columns = vec![
        column("id", ColumnType::Uuid, false),
        column("name", ColumnType::Text, true),
        column("age", ColumnType::Int, false),
        column("tags", ColumnType::TextArray, false),
        column("extra", ColumnType::Json, false),
    ];
    Schema::new("app", "user", columns).unwrap()
}

fn text(s: &str) -> Value {
    Value::String(s.to_string())
}

fn user_row() -> Object {
    let mut row = Object::new();
    row.insert("id".to_string(), text("u1"));
    row.insert("name".to_string(), text("O'Neil"));
    row.insert("age".to_string(), Value::Number(42));
    row.insert("tags".to_string(), Value::Array(vec![text("a"), text("b")]));
    let mut extra = Object::new();
    extra.insert("k".to_string(), Value::Bool(true));
    row.insert("extra".to_string(), Value::Object(extra));
    row
}

#[test]
fn dataset_names_follow_the_namespace_prefix() {
    let schema = Schema::new("app", "dataset", vec![column("id", ColumnType::Uuid, false)]).unwrap();
    assert_eq!(schema.table_name(), "app_dataset");
    assert_eq!(schema.model_namespace(), "app:dataset");
    assert_eq!(schema.model_name(), "dataset");
}

#[test]
fn colons_of_the_prefix_become_underscores_in_the_table_name() {
    let schema = Schema::new("org:app", "dataset", vec![column("id", ColumnType::Uuid, false)]).unwrap();
    assert_eq!(schema.table_name(), "org_app_dataset");
    assert_eq!(schema.model_namespace(), "org:app:dataset");
}

#[test]
fn a_schema_needs_its_primary_key_and_distinct_columns() {
    assert!(Schema::new("app", "user", vec![column("name", ColumnType::Text, true)]).is_none());
    let twice = vec![column("id", ColumnType::Uuid, false), column("id", ColumnType::Text, false)];
    assert!(Schema::new("app", "user", twice).is_none());
    assert!(Schema::new("1app", "user", vec![column("id", ColumnType::Uuid, false)]).is_none());
    assert!(Schema::new("app", "us er", vec![column("id", ColumnType::Uuid, false)]).is_none());
    let keyed = vec![column("code", ColumnType::Text, true)];
    assert!(Schema::with_primary_key("app", "user", "code", keyed).is_some());
}

#[test]
fn a_column_needs_an_identifier_as_its_name() {
    assert!(Column::new("name; drop table x", ColumnType::Text, false).is_none());
    assert!(Column::new("", ColumnType::Text, false).is_none());
    assert!(Column::new("9lives", ColumnType::Text, false).is_none());
    assert!(Column::new("_lives9", ColumnType::Text, false).is_some());
}

#[test]
fn get_column_finds_a_column_by_its_name() {
    let schema = user_schema();
    assert_eq!(schema.get_column("age").unwrap().name(), "age");
    assert!(schema.get_column("height").is_none());
}

#[test]
fn insert_names_every_column_once() {
    let statement = user_schema().insert(&user_row());
    assert_eq!(
        statement.sql,
        "INSERT INTO app_user (id,name,age,tags,extra) VALUES ('u1','O''Neil',42,ARRAY['a','b']::text[],'{\"k\":true}');"
    );
    assert_eq!(statement.expectation, Expectation::ExactlyOne);
}

#[test]
fn insert_writes_null_or_default_for_a_missing_field() {
    let columns = vec![
        column("id", ColumnType::Uuid, false),
        column("status", ColumnType::Text, false).with_default_value("active"),
        column("note", ColumnType::Text, false),
    ];
    let schema = Schema::new("app", "task", columns).unwrap();
    let mut row = Object::new();
    row.insert("id".to_string(), text("t1"));
    assert_eq!(
        schema.insert(&row).sql,
        "INSERT INTO app_task (id,status,note) VALUES ('t1',DEFAULT,NULL);"
    );
}

#[test]
fn insert_many_is_one_statement() {
    let schema = Schema::new(
        "app",
        "tag",
        vec![column("id", ColumnType::Uuid, false), column("name", ColumnType::Text, true)],
    )
    .unwrap();
    let mut first = Object::new();
    first.insert("id".to_string(), text("a"));
    first.insert("name".to_string(), text("x"));
    let mut second = Object::new();
    second.insert("id".to_string(), text("b"));
    second.insert("name".to_string(), text("y"));
    let statement = schema.insert_many(&vec![first, second]);
    assert_eq!(statement.sql, "INSERT INTO app_tag (id,name) VALUES ('a','x'),('b','y');");
    assert_eq!(statement.expectation, Expectation::Any);
    assert_eq!(statement.check(2).unwrap(), 2);
}

#[test]
fn update_leaves_the_primary_key_out_of_the_assignments() {
    let statement = user_schema().update("u1", &user_row());
    assert_eq!(
        statement.sql,
        "UPDATE app_user SET name = 'O''Neil',age = 42,tags = ARRAY['a','b']::text[],extra = '{\"k\":true}' WHERE id = 'u1';"
    );
    assert_eq!(statement.expectation, Expectation::ExactlyOne);
}

#[test]
fn upsert_updates_all_columns_but_the_key_on_conflict() {
    let schema = Schema::new(
        "app",
        "tag",
        vec![column("id", ColumnType::Uuid, false), column("name", ColumnType::Text, true)],
    )
    .unwrap();
    let mut row = Object::new();
    row.insert("id".to_string(), text("a"));
    row.insert("name".to_string(), text("x"));
    let statement = schema.upsert(&row);
    assert_eq!(
        statement.sql,
        "INSERT INTO app_tag (id,name) VALUES ('a','x') ON CONFLICT (id) DO UPDATE SET name = 'x';"
    );
    assert_eq!(statement.expectation, Expectation::ExactlyOne);
    assert!(statement.check(1).is_ok());
    assert!(statement.check(0).is_err());
}

#[test]
fn delete_of_a_missing_row_is_a_row_count_error() {
    let statement = user_schema().delete("nobody");
    assert_eq!(statement.sql, "DELETE FROM app_user WHERE id = 'nobody';");
    match statement.check(0) {
        Err(Error::Io(message)) => {
            assert_eq!(message, "0 rows are affected while it is expected to affect 1 row")
        }
        other => panic!("unexpected outcome: {:?}", other),
    }
    assert_eq!(statement.check(1).unwrap(), 1);
}

#[test]
fn a_key_with_a_quote_stays_inside_its_literal() {
    let statement = user_schema().delete("x' OR '1'='1");
    assert_eq!(statement.sql, "DELETE FROM app_user WHERE id = 'x'' OR ''1''=''1';");
}

#[test]
fn update_one_changes_the_first_match_only() {
    let mut query = Query::new();
    query.add_filter("age", Value::Number(42));
    query.order_by("name", false);
    let mut mutation = Mutation::new();
    mutation.set("name", text("Ann"));
    let statement = user_schema().update_one(&query, &mutation);
    assert_eq!(
        statement.sql,
        "UPDATE app_user SET name = 'Ann' WHERE id IN (SELECT id FROM app_user WHERE age = 42 ORDER BY name ASC LIMIT 1);"
    );
    assert_eq!(statement.expectation, Expectation::AtMostOne);
    assert!(statement.check(0).is_ok());
    assert!(statement.check(1).is_ok());
    match statement.check(3) {
        Err(Error::Io(message)) => assert_eq!(
            message,
            "3 rows are affected while it is expected to affect at most 1 row"
        ),
        other => panic!("unexpected outcome: {:?}", other),
    }
}

#[test]
fn update_many_never_rejects_a_count() {
    let mut query = Query::new();
    query.add_filter("age", Value::Number(42));
    let mut mutation = Mutation::new();
    mutation.set("name", text("Ann"));
    mutation.set("height", Value::Number(180));
    let statement = user_schema().update_many(&query, &mutation);
    assert_eq!(statement.sql, "UPDATE app_user SET name = 'Ann' WHERE age = 42;");
    assert_eq!(statement.check(0).unwrap(), 0);
    assert_eq!(statement.check(1000).unwrap(), 1000);
}

#[test]
fn delete_one_and_delete_many() {
    let mut query = Query::new();
    query.add_filter("name", text("Ann"));
    query.order_by("age", true);
    let schema = user_schema();
    let one = schema.delete_one(&query);
    assert_eq!(
        one.sql,
        "DELETE FROM app_user WHERE id IN (SELECT id FROM app_user WHERE name = 'Ann' ORDER BY age DESC LIMIT 1);"
    );
    assert_eq!(one.expectation, Expectation::AtMostOne);
    let many = schema.delete_many(&query);
    assert_eq!(many.sql, "DELETE FROM app_user WHERE name = 'Ann';");
    assert_eq!(many.expectation, Expectation::Any);
    assert_eq!(schema.delete_many(&Query::new()).sql, "DELETE FROM app_user;");
}

#[test]
fn find_writes_every_clause_of_the_query() {
    let mut query = Query::new();
    query.add_field("id");
    query.add_field("name");
    query.add_field("no_such_field");
    query.add_filter("age", Value::Number(42));
    query.order_by("name", true);
    query.set_pagination(20, 10);
    let schema = user_schema();
    assert_eq!(
        schema.find(&query),
        "SELECT id,name FROM app_user WHERE age = 42 ORDER BY name DESC OFFSET 20 LIMIT 10;"
    );
    assert_eq!(
        schema.find_one(&query),
        "SELECT id,name FROM app_user WHERE age = 42 ORDER BY name DESC LIMIT 1;"
    );
    assert_eq!(schema.find(&Query::new()), "SELECT * FROM app_user;");
}

#[test]
fn find_one_by_primary_key_selects_that_key() {
    let mut query = Query::new();
    query.add_filter("id", text("u1"));
    assert_eq!(user_schema().find_one(&query), "SELECT * FROM app_user WHERE id = 'u1' LIMIT 1;");
}

#[test]
fn try_get_model_reads_one_row_by_its_key() {
    assert_eq!(user_schema().try_get_model("u1"), "SELECT * FROM app_user WHERE id = 'u1';");
    assert!(matches!(found::<Object>(None), Err(Error::RowNotFound)));
    assert!(found(Some(7)).is_ok());
}

#[test]
fn count_does_not_depend_on_the_pagination() {
    let schema = user_schema();
    let mut query = Query::new();
    query.add_filter("age", Value::Number(42));
    let plain = schema.count(&query, &[("*", false)]);
    assert_eq!(plain, "SELECT count(*) FROM app_user WHERE age = 42;");
    query.set_pagination(5, 1);
    query.order_by("name", false);
    assert_eq!(schema.count(&query, &[("*", false)]), plain);
}

#[test]
fn count_of_columns() {
    let schema = user_schema();
    let sql = schema.count(&Query::new(), &[("name", true), ("age", false), ("nothing", false), ("*", true)]);
    assert_eq!(
        sql,
        "SELECT count(distinct name) as name_count_distinct,count(age) as age_count,count(*) FROM app_user;"
    );
}

#[test]
fn create_table_defines_every_column() {
    let columns = vec![
        column("id", ColumnType::Uuid, false),
        column("name", ColumnType::Text, true),
        column("status", ColumnType::Text, false).with_default_value("active"),
        column("created_at", ColumnType::DateTime, false).with_default_value("now"),
        column("version", ColumnType::BigInt, true).with_default_value("0"),
        column("done", ColumnType::Bool, false).with_default_value("false"),
    ];
    let schema = Schema::new("app", "task", columns).unwrap();
    let statement = schema.create_table();
    assert_eq!(
        statement.sql,
        "CREATE TABLE IF NOT EXISTS app_task (id uuid, name text NOT NULL, status text DEFAULT 'active', created_at timestamptz DEFAULT now(), version bigint DEFAULT 0, done boolean DEFAULT FALSE, CONSTRAINT app_task_pkey PRIMARY KEY (id));"
    );
    assert_eq!(statement.expectation, Expectation::Any);
    let distributed = schema.with_distribution_column("name").unwrap();
    assert!(distributed
        .create_table()
        .sql
        .ends_with("PRIMARY KEY (id)); SELECT create_distributed_table('app_task', 'name');"));
}

#[test]
fn create_indexes_merges_text_indexes_by_language() {
    let columns = vec![
        column("id", ColumnType::Uuid, false),
        column("name", ColumnType::Text, true).with_index_type("text").unwrap(),
        column("namespace", ColumnType::Text, false).with_index_type("hash").unwrap(),
        column("description", ColumnType::Text, false).with_index_type("text:english").unwrap(),
        column("resume", ColumnType::Text, false).with_index_type("text:french").unwrap(),
        column("created_at", ColumnType::DateTime, false).with_index_type("btree").unwrap(),
        column("tags", ColumnType::UuidArray, false).with_index_type("gin").unwrap(),
    ];
    let schema = Schema::new("app", "doc", columns).unwrap();
    let statements = schema.create_indexes();
    assert_eq!(
        statements,
        vec![
            "CREATE INDEX CONCURRENTLY IF NOT EXISTS app_doc_namespace_index ON app_doc USING hash(namespace);",
            "CREATE INDEX CONCURRENTLY IF NOT EXISTS app_doc_created_at_index ON app_doc USING btree(created_at DESC);",
            "CREATE INDEX CONCURRENTLY IF NOT EXISTS app_doc_tags_index ON app_doc USING gin(tags);",
            "CREATE INDEX CONCURRENTLY IF NOT EXISTS app_doc_text_search_english_index ON app_doc USING gin(to_tsvector('english', coalesce(name, '') || ' ' || coalesce(description, '')));",
            "CREATE INDEX CONCURRENTLY IF NOT EXISTS app_doc_text_search_french_index ON app_doc USING gin(to_tsvector('french', coalesce(resume, '')));",
        ]
    );
}

#[test]
fn an_index_kind_must_be_known() {
    assert!(column("name", ColumnType::Text, true).with_index_type("brin").is_none());
    assert!(column("name", ColumnType::Text, true).with_index_type("text:").is_none());
    assert!(column("name", ColumnType::Text, true).with_index_type("text:a b").is_none());
    let indexed = column("name", ColumnType::Text, true).with_index_type("text:german").unwrap();
    assert_eq!(indexed.index_type().unwrap(), "text:german");
    assert_eq!(column("name", ColumnType::Text, true).index_type(), None);
}

#[test]
fn column_accessors_return_what_the_column_was_made_with() {
    let plain = column("name", ColumnType::Text, true);
    assert_eq!(plain.name(), "name");
    assert!(plain.is_not_null());
    assert_eq!(plain.default_value(), None);
    assert_eq!(plain.column_type(), ColumnType::Text);
    let with_default = column("status", ColumnType::Text, false).with_default_value("active");
    assert_eq!(with_default.default_value(), Some("active"));
    assert!(!with_default.is_not_null());
}

#[test]
fn the_kinds_of_index_and_their_names() {
    assert!(matches!(IndexType::parse("hash"), Some(IndexType::Hash)));
    assert!(matches!(IndexType::parse("btree"), Some(IndexType::Btree)));
    assert!(matches!(IndexType::parse("gin"), Some(IndexType::Gin)));
    assert!(matches!(IndexType::parse("text"), Some(IndexType::Text(None))));
    assert!(matches!(IndexType::parse("text:dutch"), Some(IndexType::Text(Some(language))) if language == "dutch"));
    assert!(IndexType::parse("textile").is_none());
    assert!(IndexType::parse("Hash").is_none());
    assert!(IndexType::parse("").is_none());
    assert_eq!(IndexType::Hash.name(), "hash");
    assert_eq!(IndexType::Btree.name(), "btree");
    assert_eq!(IndexType::Gin.name(), "gin");
    assert_eq!(IndexType::Text(None).name(), "text");
    assert_eq!(IndexType::Text(Some("dutch".to_string())).clone().name(), "text:dutch");
    let indexed = column("name", ColumnType::Text, true).with_index_type("gin").unwrap();
    assert!(matches!(indexed.index(), Some(IndexType::Gin)));
    assert!(matches!(indexed.clone().index(), Some(IndexType::Gin)));
    assert!(column("name", ColumnType::Text, true).index().is_none());
    indexed.well_formed();
}

#[test]
fn the_names_of_a_schema() {
    let schema = user_schema();
    assert_eq!(schema.primary_key_name(), "id");
    assert_eq!(schema.distribution_column(), None);
    assert_eq!(schema.columns().len(), 5);
    assert!(user_schema().with_distribution_column("height").is_none());
    let distributed = user_schema().with_distribution_column("age").unwrap();
    assert_eq!(distributed.distribution_column(), Some("age"));
    let keyed = Schema::with_primary_key(
        "app",
        "user",
        "code",
        vec![column("code", ColumnType::Text, true), column("id", ColumnType::Uuid, false)],
    )
    .unwrap();
    assert_eq!(keyed.primary_key_name(), "code");
    assert_eq!(keyed.delete("c1").sql, "DELETE FROM app_user WHERE code = 'c1';");
    assert_eq!(keyed.update("c1", &Object::new()).sql, "UPDATE app_user SET id = NULL WHERE code = 'c1';");
}
