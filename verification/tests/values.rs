use zino_core::column::{Column, ColumnType};
use zino_core::format::format_query;
use zino_core::mutation::Mutation;
use zino_core::json::{push_json, push_json_string};
use zino_core::operations::push_spaced;
use zino_core::postgres::{
    column_type, encode_present, encode_scalar, encode_value, format_value, push_scalar,
};
use zino_core::query::{conditions, format_conditions, Query};
use zino_core::schema::Schema;
use zino_core::text::{
    check_identifier, chars_of, find_text, listed, push_decimal, push_literal,
    push_signed_decimal, same_text,
};
use zino_core::value::{Object, Value};

fn text(s: &str) -> Value {
    Value::String(s.to_string())
}

fn column(name: &str, column_type: ColumnType) -> Column {
    Column::new(name, column_type, false).unwrap()
}

fn schema() -> Schema {
    let columns = vec![
        column("id", ColumnType::Uuid),
        column("name", ColumnType::Text),
        column("age", ColumnType::Int),
        column("tags", ColumnType::TextArray),
        column("extra", ColumnType::Json),
    ];
    Schema::new("app", "user", columns).unwrap()
}

#[test]
fn signed_decimals() {
    let mut out = String::from("x=");
    push_signed_decimal(&mut out, -7);
    assert_eq!(out, "x=-7");
    let mut least = String::new();
    push_signed_decimal(&mut least, i64::MIN);
    assert_eq!(least, "-9223372036854775808");
    let mut greatest = String::new();
    push_signed_decimal(&mut greatest, i64::MAX);
    assert_eq!(greatest, "9223372036854775807");
}

#[test]
fn identifiers() {
    assert!(check_identifier("created_at"));
    assert!(check_identifier("_x1"));
    assert!(!check_identifier(""));
    assert!(!check_identifier("1x"));
    assert!(!check_identifier("a-b"));
    assert!(!check_identifier("a b"));
    assert!(!check_identifier("naïve"));
}

#[test]
fn characters_and_names() {
    assert_eq!(chars_of("añb"), vec!['a', 'ñ', 'b']);
    assert!(same_text("abc", "abc"));
    assert!(!same_text("abc", "abd"));
    let names = vec!["a".to_string(), "b".to_string(), "a".to_string()];
    assert_eq!(find_text(&names, "a"), Some(0));
    assert_eq!(find_text(&names, "b"), Some(1));
    assert_eq!(find_text(&names, "c"), None);
    assert!(listed(&["x", "y"], "y"));
    assert!(!listed(&["x", "y"], "z"));
}

#[test]
fn json_text_of_values() {
    assert_eq!(Value::Null.to_json(), "null");
    assert_eq!(Value::Bool(false).to_json(), "false");
    assert_eq!(Value::Number(-12).to_json(), "-12");
    assert_eq!(text("a\"b\\c\n\t\r\u{1}é").to_json(), "\"a\\\"b\\\\c\\n\\t\\r\\u0001é\"");
    let mut inner = Object::new();
    inner.insert("k".to_string(), Value::Array(vec![Value::Number(1), Value::Null]));
    inner.insert("e".to_string(), Value::Object(Object::new()));
    let value = Value::Array(vec![Value::Object(inner), Value::Array(vec![])]);
    assert_eq!(value.to_json(), "[{\"k\":[1,null],\"e\":{}},[]]");
    assert_eq!(text("\u{1f}").to_json(), "\"\\u001f\"");
}

#[test]
fn objects_keep_one_entry_for_a_key() {
    let mut object = Object::new();
    assert!(object.is_empty());
    object.insert("a".to_string(), Value::Number(1));
    object.insert("b".to_string(), Value::Number(2));
    object.insert("a".to_string(), Value::Number(3));
    assert_eq!(object.len(), 2);
    assert_eq!(object.to_json(), "{\"a\":3,\"b\":2}");
    assert!(object.contains_key("b"));
    assert!(!object.contains_key("c"));
    assert_eq!(object.position("b"), Some(1));
    assert!(object.get("c").is_none());
    let mut more = Object::new();
    more.insert("b".to_string(), Value::Null);
    more.insert("c".to_string(), Value::Bool(true));
    object.append(&more);
    assert_eq!(object.to_json(), "{\"a\":3,\"b\":null,\"c\":true}");
    let copy = object.clone();
    assert_eq!(copy.to_json(), object.to_json());
    assert_eq!(Value::Object(copy).clone().to_json(), object.to_json());
}

#[test]
fn values_are_written_by_the_type_of_the_column() {
    assert_eq!(encode_present(ColumnType::Text, &Value::Null), "NULL");
    assert_eq!(encode_present(ColumnType::Bool, &Value::Bool(true)), "TRUE");
    assert_eq!(encode_present(ColumnType::Bool, &Value::Bool(false)), "FALSE");
    assert_eq!(encode_present(ColumnType::BigInt, &Value::Number(-5)), "-5");
    assert_eq!(encode_present(ColumnType::Text, &text("it's")), "'it''s'");
    let list = Value::Array(vec![text("a'b"), Value::Number(2), Value::Null]);
    assert_eq!(encode_present(ColumnType::TextArray, &list), "ARRAY['a''b',2,NULL]::text[]");
    assert_eq!(encode_present(ColumnType::UuidArray, &Value::Array(vec![])), "ARRAY[]::uuid[]");
    assert_eq!(encode_present(ColumnType::Json, &list), "'[\"a''b\",2,null]'");
    assert_eq!(encode_present(ColumnType::Text, &list), "'[\"a''b\",2,null]'");
    assert_eq!(encode_present(ColumnType::Json, &text("x")), "'\"x\"'");
    assert_eq!(encode_present(ColumnType::Json, &Value::Null), "NULL");
    let mut object = Object::new();
    object.insert("k".to_string(), text("v"));
    assert_eq!(encode_present(ColumnType::Json, &Value::Object(object)), "'{\"k\":\"v\"}'");
    assert_eq!(encode_scalar(&text("q")), "'q'");
}

#[test]
fn a_missing_value_is_the_default_or_null() {
    let plain = column("note", ColumnType::Text);
    assert_eq!(encode_value(&plain, None), "NULL");
    assert_eq!(encode_value(&plain, Some(&text("x"))), "'x'");
    let with_default = column("status", ColumnType::Text).with_default_value("active");
    assert_eq!(encode_value(&with_default, None), "DEFAULT");
    assert_eq!(encode_value(&with_default, Some(&Value::Null)), "NULL");
}

#[test]
fn types_and_default_values_of_columns() {
    assert_eq!(column_type(&column("a", ColumnType::Bool)), "boolean");
    assert_eq!(column_type(&column("a", ColumnType::SmallInt)), "smallint");
    assert_eq!(column_type(&column("a", ColumnType::Int)), "int");
    assert_eq!(column_type(&column("a", ColumnType::BigInt)), "bigint");
    assert_eq!(column_type(&column("a", ColumnType::Text)), "text");
    assert_eq!(column_type(&column("a", ColumnType::Uuid)), "uuid");
    assert_eq!(column_type(&column("a", ColumnType::DateTime)), "timestamptz");
    assert_eq!(column_type(&column("a", ColumnType::TextArray)), "text[]");
    assert_eq!(column_type(&column("a", ColumnType::UuidArray)), "uuid[]");
    assert_eq!(column_type(&column("a", ColumnType::Json)), "jsonb");
    assert_eq!(format_value(&column("a", ColumnType::Bool), "true"), "TRUE");
    assert_eq!(format_value(&column("a", ColumnType::Bool), "false"), "FALSE");
    assert_eq!(format_value(&column("a", ColumnType::Bool), "yes"), "'yes'");
    assert_eq!(format_value(&column("a", ColumnType::Int), "-12"), "-12");
    assert_eq!(format_value(&column("a", ColumnType::Int), "12; drop"), "'12; drop'");
    assert_eq!(format_value(&column("a", ColumnType::Int), "-"), "'-'");
    assert_eq!(format_value(&column("a", ColumnType::Int), ""), "''");
    assert_eq!(format_value(&column("a", ColumnType::Text), "12"), "'12'");
    assert_eq!(format_value(&column("a", ColumnType::DateTime), "now"), "now()");
    assert_eq!(format_value(&column("a", ColumnType::DateTime), "epoch"), "'epoch'");
    assert_eq!(format_value(&column("a", ColumnType::Text), "now"), "'now'");
}

fn operators(pairs: Vec<(&str, Value)>) -> Value {
    let mut object = Object::new();
    for (key, value) in pairs {
        object.insert(key.to_string(), value);
    }
    Value::Object(object)
}

#[test]
fn filters_with_operators() {
    let schema = schema();
    let mut query = Query::new();
    query.add_filter("age", operators(vec![("$ge", Value::Number(18)), ("$lt", Value::Number(65))]));
    query.add_filter("name", operators(vec![("$in", Value::Array(vec![text("Ann"), text("Bob")]))]));
    query.add_filter("id", operators(vec![("$ne", Value::Null), ("$like", text("x"))]));
    query.add_filter("height", Value::Number(180));
    assert_eq!(
        query.format_filters(&schema),
        "WHERE age >= 18 AND age < 65 AND name IN ('Ann','Bob') AND id IS NOT NULL"
    );
}

#[test]
fn every_operator_of_a_filter() {
    let schema = schema();
    let one = |operator: &str, operand: Value| {
        let mut query = Query::new();
        query.add_filter("age", operators(vec![(operator, operand)]));
        query.format_filters(&schema)
    };
    assert_eq!(one("$eq", Value::Number(1)), "WHERE age = 1");
    assert_eq!(one("$ne", Value::Number(1)), "WHERE age <> 1");
    assert_eq!(one("$lt", Value::Number(1)), "WHERE age < 1");
    assert_eq!(one("$le", Value::Number(1)), "WHERE age <= 1");
    assert_eq!(one("$gt", Value::Number(1)), "WHERE age > 1");
    assert_eq!(one("$ge", Value::Number(1)), "WHERE age >= 1");
    assert_eq!(one("$eq", Value::Null), "WHERE age IS NULL");
    assert_eq!(one("$ne", Value::Null), "WHERE age IS NOT NULL");
    assert_eq!(one("$in", Value::Array(vec![Value::Number(1), Value::Number(2)])), "WHERE age IN (1,2)");
    assert_eq!(one("$nin", Value::Array(vec![Value::Number(1)])), "WHERE age NOT IN (1)");
    assert_eq!(one("$in", Value::Array(vec![])), "WHERE FALSE");
    assert_eq!(one("$nin", Value::Array(vec![])), "WHERE TRUE");
    assert_eq!(one("$in", Value::Number(1)), "");
    assert_eq!(one("$regex", text("x")), "");
}

#[test]
fn a_filter_on_null_or_a_plain_value() {
    let schema = schema();
    let mut query = Query::new();
    assert_eq!(query.format_filters(&schema), "");
    query.add_filter("name", Value::Null);
    query.add_filter("age", Value::Number(3));
    assert_eq!(query.format_filters(&schema), "WHERE name IS NULL AND age = 3");
    query.add_filter("name", text("x' OR 1=1 --"));
    assert_eq!(query.format_filters(&schema), "WHERE name = 'x'' OR 1=1 --' AND age = 3");
}

#[test]
fn filters_that_are_appended_replace_those_of_the_same_key() {
    let schema = schema();
    let mut query = Query::new();
    query.add_filter("age", Value::Number(3));
    let mut more = Object::new();
    more.insert("name".to_string(), text("Ann"));
    more.insert("age".to_string(), Value::Number(4));
    query.append_filters(&more);
    assert_eq!(query.format_filters(&schema), "WHERE age = 4 AND name = 'Ann'");
}

#[test]
fn sort_pagination_and_projection() {
    let schema = schema();
    let mut query = Query::new();
    assert_eq!(query.format_sort(&schema), "");
    assert_eq!(query.format_pagination(), "");
    assert_eq!(query.format_fields(&schema), "*");
    query.order_by("age", true);
    query.order_by("name; drop table x", false);
    query.order_by("name", false);
    assert_eq!(query.format_sort(&schema), "ORDER BY age DESC, name ASC");
    query.set_pagination(0, 25);
    assert_eq!(query.format_pagination(), "OFFSET 0 LIMIT 25");
    query.add_field("name");
    query.add_field("*");
    query.add_field("age");
    assert_eq!(query.format_fields(&schema), "name,age");
}

#[test]
fn updates_of_a_mutation() {
    let schema = schema();
    let mut mutation = Mutation::new();
    assert_eq!(mutation.format_updates(&schema), "");
    mutation.set("name", text("Ann"));
    mutation.set("unknown", Value::Number(1));
    mutation.set("tags", Value::Array(vec![text("a")]));
    mutation.set("age", Value::Null);
    mutation.set("name", text("Bob"));
    assert_eq!(mutation.format_updates(&schema), "name = 'Bob',tags = ARRAY['a']::text[],age = NULL");
}

#[test]
fn templates_take_encoded_values() {
    let mut params = Object::new();
    params.insert("name".to_string(), text("O'Neil"));
    params.insert("age".to_string(), Value::Number(42));
    params.insert("tags".to_string(), Value::Array(vec![text("a")]));
    let sql = format_query(
        "SELECT * FROM t WHERE name = ${name} AND age > ${age} AND tags = ${tags} AND x = ${missing};",
        Some(&params),
    );
    assert_eq!(
        sql,
        "SELECT * FROM t WHERE name = 'O''Neil' AND age > 42 AND tags = '[\"a\"]' AND x = ${missing};"
    );
    assert_eq!(format_query("a ${name} b", None), "a ${name} b");
    assert_eq!(format_query("${name}${name}", Some(&params)), "'O''Neil''O''Neil'");
    assert_eq!(format_query("${} ${name ${na me} $name {name} ${name", Some(&params)), "${} ${name ${na me} $name {name} ${name");
    assert_eq!(format_query("$${age}}", Some(&params)), "$42}");
    assert_eq!(format_query("", Some(&params)), "");
}

#[test]
fn execute_and_query_format_their_templates() {
    let schema = schema();
    let mut params = Object::new();
    params.insert("id".to_string(), text("u1"));
    let statement = schema.execute("DELETE FROM app_user WHERE id = ${id};", Some(&params));
    assert_eq!(statement.sql, "DELETE FROM app_user WHERE id = 'u1';");
    assert_eq!(statement.check(5).unwrap(), 5);
    assert_eq!(schema.query("SELECT 1;", None), "SELECT 1;");
    assert_eq!(schema.query_one("SELECT ${id};", Some(&params)), "SELECT 'u1';");
}

#[test]
fn texts_are_appended_to_what_is_there() {
    let mut out = String::from("a");
    push_decimal(&mut out, 120);
    push_literal(&mut out, "b'c");
    push_json_string(&mut out, "d\"e");
    push_json(&mut out, &Value::Array(vec![Value::Null]));
    push_scalar(&mut out, &Value::Bool(true));
    push_spaced(&mut out, "");
    push_spaced(&mut out, "WHERE x");
    assert_eq!(out, "a120'b''c'\"d\\\"e\"[null]TRUE WHERE x");
}

#[test]
fn the_conditions_of_a_filter_one_by_one() {
    let schema = schema();
    let mut filters = Object::new();
    filters.insert("age".to_string(), operators(vec![("$gt", Value::Number(1)), ("$lt", Value::Number(9))]));
    filters.insert("name".to_string(), text("Ann"));
    assert_eq!(conditions(&schema, &filters), vec!["age > 1", "age < 9", "name = 'Ann'"]);
    assert_eq!(format_conditions(&schema, &filters), "WHERE age > 1 AND age < 9 AND name = 'Ann'");
    assert_eq!(conditions(&schema, &Object::new()), Vec::<String>::new());
}
