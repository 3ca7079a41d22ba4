use zino_core::column::{Column, ColumnType};
use zino_core::query::Query;
use zino_core::schema::Schema;
use zino_core::statement::Error;
use zino_core::value::{Object, Value};

fn text(s: &str) -> Value {
    Value::String(s.to_string())
}

fn user_schema() -> Schema {
    let columns = vec![
        Column::new("id", ColumnType::Uuid, false).unwrap(),
        Column::new("name", ColumnType::Text, true).unwrap(),
    ];
    Schema::new("app", "user", columns).unwrap()
}

fn user(id: &str, name: &str) -> Object {
    let mut row = Object::new();
    row.insert("id".to_string(), text(id));
    row.insert("name".to_string(), text(name));
    row
}

fn task(id: &str, owner: Value, watchers: Value) -> Object {
    let mut row = Object::new();
    row.insert("id".to_string(), text(id));
    row.insert("owner_id".to_string(), owner);
    row.insert("watcher_ids".to_string(), watchers);
    row
}

#[test]
fn find_related_asks_for_all_keys_in_one_statement() {
    let data = vec![
        task("t1", text("u1"), Value::Array(vec![text("u2"), text("u3")])),
        task("t2", text("u2"), Value::Array(vec![])),
        task("t3", Value::Null, Value::Array(vec![text("u9"), Value::Number(4)])),
    ];
    let mut query = Query::new();
    query.add_field("id");
    query.add_field("name");
    let sql = user_schema().find_related(&mut query, &data, &["owner_id", "watcher_ids"]);
    assert_eq!(
        sql,
        "SELECT id,name FROM app_user WHERE id IN ('u1','u2','u3','u2','u9');"
    );
}

#[test]
fn find_related_without_keys_leaves_the_filter_as_it_is() {
    let data = vec![task("t1", Value::Null, Value::Array(vec![]))];
    let mut query = Query::new();
    query.add_filter("name", text("Ann"));
    let sql = user_schema().find_related(&mut query, &data, &["owner_id", "watcher_ids"]);
    assert_eq!(sql, "SELECT * FROM app_user WHERE name = 'Ann';");
    let sql = user_schema().find_related(&mut Query::new(), &Vec::new(), &["owner_id"]);
    assert_eq!(sql, "SELECT * FROM app_user;");
}

#[test]
fn relate_puts_rows_in_place_of_their_keys() {
    let mut data = vec![
        task("t1", text("u1"), Value::Array(vec![text("u2"), text("u3")])),
        task("t2", text("u3"), Value::Array(vec![])),
    ];
    let rows = vec![user("u1", "Ann"), user("u2", "Bob")];
    let count = user_schema().relate(&mut data, &["owner_id", "watcher_ids"], &rows).unwrap();
    assert_eq!(count, 2);
    // A key with a row is replaced by the row.
    match data[0].get("owner_id") {
        Some(Value::Object(row)) => match row.get("name") {
            Some(Value::String(name)) => assert_eq!(name, "Ann"),
            other => panic!("unexpected name: {:?}", other),
        },
        other => panic!("unexpected owner: {:?}", other),
    }
    // So is each key in a list; a key without a row stays.
    match data[0].get("watcher_ids") {
        Some(Value::Array(items)) => {
            assert_eq!(items.len(), 2);
            assert!(matches!(&items[0], Value::Object(_)));
            assert!(matches!(&items[1], Value::String(key) if key == "u3"));
        }
        other => panic!("unexpected watchers: {:?}", other),
    }
    assert!(matches!(data[1].get("owner_id"), Some(Value::String(key)) if key == "u3"));
    // A column that was not named stays as it was.
    assert!(matches!(data[0].get("id"), Some(Value::String(key)) if key == "t1"));
    assert_eq!(data[0].to_json(), "{\"id\":\"t1\",\"owner_id\":{\"id\":\"u1\",\"name\":\"Ann\"},\"watcher_ids\":[{\"id\":\"u2\",\"name\":\"Bob\"},\"u3\"]}");
}

#[test]
fn relate_fails_on_a_row_without_a_key() {
    let mut data = vec![task("t1", text("u1"), Value::Null)];
    let mut nameless = Object::new();
    nameless.insert("name".to_string(), text("Ann"));
    let result = user_schema().relate(&mut data, &["owner_id"], &vec![nameless]);
    assert!(matches!(result, Err(Error::Decode(_))));
    assert!(matches!(data[0].get("owner_id"), Some(Value::String(key)) if key == "u1"));
}

#[test]
fn find_related_one_and_relate_one() {
    let mut data = task("t1", text("u1"), Value::Array(vec![text("u2")]));
    let schema = user_schema();
    let sql = schema.find_related_one(&mut Query::new(), &data, &["owner_id", "watcher_ids"]);
    assert_eq!(sql, "SELECT * FROM app_user WHERE id IN ('u1','u2');");
    schema.relate_one(&mut data, &["owner_id", "watcher_ids"], &vec![user("u2", "Bob")]).unwrap();
    assert_eq!(
        data.to_json(),
        "{\"id\":\"t1\",\"owner_id\":\"u1\",\"watcher_ids\":[{\"id\":\"u2\",\"name\":\"Bob\"}]}"
    );
}

#[test]
fn a_later_row_of_a_key_replaces_an_earlier_one() {
    let rows = vec![user("u1", "Ann"), user("u1", "Anna")];
    let found = user_schema().associate(&rows).unwrap();
    assert_eq!(found.len(), 1);
    assert_eq!(found.to_json(), "{\"u1\":{\"id\":\"u1\",\"name\":\"Anna\"}}");
}
