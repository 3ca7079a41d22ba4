//! Related data: rows that hold the primary keys of rows of another
//! model get those rows in place of the keys, with one statement for all
//! of them.
//!
//! [`Schema::find_related`] collects the keys and returns the one
//! statement that reads their rows. [`Schema::relate`] takes what the
//! statement returned and puts each row in place of its key.
use vstd::prelude::*;
use crate::operations::rows_view;
use crate::query::{Query, QuerySpec};
use crate::schema::{Schema, SchemaSpec};
use crate::statement::{Error, ErrorSpec};
use crate::text::{index_of, listed, strs, texts};
use crate::value::{entries_view, keys, lookup, put, values_view, Json, Object, Value};

verus! {

// ---------------------------------------------------------------------
// The keys that rows refer to
// ---------------------------------------------------------------------
/// The strings among the items of a list, in order.
pub open spec fn text_items(items: Seq<Json>) -> Seq<Seq<char>>
    decreases items.len(),
{
    if items.len() == 0 {
        Seq::empty()
    } else {
        let rest = text_items(items.drop_last());
        match items.last() {
            Json::Text(s) => rest.push(s),
            _ => rest,
        }
    }
}

/// The keys that a value refers to: a string is one key, a list refers to
/// each string among its items, and anything else to nothing.
pub open spec fn references(value: Option<Json>) -> Seq<Seq<char>> {
    match value {
        Some(Json::Text(s)) => seq![s],
        Some(Json::Array(items)) => text_items(items),
        _ => Seq::empty(),
    }
}

/// The keys that a row refers to in the named columns, in the order of
/// the columns.
pub open spec fn row_references(row: Seq<(Seq<char>, Json)>, columns: Seq<Seq<char>>) -> Seq<
    Seq<char>,
>
    decreases columns.len(),
{
    if columns.len() == 0 {
        Seq::empty()
    } else {
        row_references(row, columns.drop_last()) + references(lookup(row, columns.last()))
    }
}

/// The keys that the rows refer to in the named columns, row by row.
pub open spec fn data_references(
    data: Seq<Seq<(Seq<char>, Json)>>,
    columns: Seq<Seq<char>>,
) -> Seq<Seq<char>>
    decreases data.len(),
{
    if data.len() == 0 {
        Seq::empty()
    } else {
        data_references(data.drop_last(), columns) + row_references(data.last(), columns)
    }
}

/// The strings of a list of keys, one for one.
pub open spec fn key_items(found: Seq<Seq<char>>) -> Seq<Json> {
    Seq::new(found.len(), |i: int| Json::Text(found[i]))
}

/// The condition that a column is one of the keys.
pub open spec fn one_of(found: Seq<Seq<char>>) -> Json {
    Json::Object(seq![("$in"@, Json::Array(key_items(found)))])
}

/// The filter that reads the rows of the keys: where there are keys, the
/// condition that the primary key is one of them is put on the primary key,
/// in place of the condition it had; where there are none, the filter is
/// left as it is.
pub open spec fn related_filters(
    schema: SchemaSpec,
    filters: Seq<(Seq<char>, Json)>,
    found: Seq<Seq<char>>,
) -> Seq<(Seq<char>, Json)> {
    if found.len() == 0 {
        filters
    } else {
        put(filters, schema.primary_key_name, one_of(found))
    }
}

impl SchemaSpec {
    /// The statement of [`Schema::find_related`] for the keys `found`.
    pub open spec fn find_related(self, query: QuerySpec, found: Seq<Seq<char>>) -> Seq<char> {
        self.select(QuerySpec { filters: related_filters(self, query.filters, found), ..query })
            + ";"@
    }
}

/// Appends the keys that `value` refers to.
fn push_references(found: &mut Vec<String>, value: Option<&Value>)
    ensures
        texts(final(found)@) == texts(old(found)@) + references(
            match value {
                Some(v) => Some(v@),
                None => None,
            },
        ),
{
    let ghost before = texts(found@);
    match value {
        Some(Value::String(s)) => {
            found.push(s.clone());
            proof {
                assert(texts(found@) == before + seq![s@]);
            }
        },
        Some(Value::Array(items)) => {
            let ghost all = values_view(items@);
            let mut i: usize = 0;
            while i < items.len()
                invariant
                    i <= items.len(),
                    all == values_view(items@),
                    texts(found@) == before + text_items(all.take(i as int)),
                decreases items.len() - i,
            {
                let ghost done = texts(found@);
                proof {
                    assert(all.take(i + 1).drop_last() == all.take(i as int));
                    assert(all.take(i + 1).last() == items@[i as int]@);
                }
                match &items[i] {
                    Value::String(s) => {
                        found.push(s.clone());
                        proof {
                            assert(texts(found@) == done.push(s@));
                        }
                    },
                    _ => {},
                }
                i += 1;
            }
            proof {
                assert(all.take(items.len() as int) == all);
            }
        },
        _ => {
            proof {
                assert(texts(found@) == before + Seq::<Seq<char>>::empty());
            }
        },
    }
}

/// Appends the keys that `row` refers to in `columns`.
fn push_row_references(found: &mut Vec<String>, row: &Object, columns: &[&str])
    ensures
        texts(final(found)@) == texts(old(found)@) + row_references(row@, strs(columns@)),
{
    let ghost before = texts(found@);
    let ghost names = strs(columns@);
    let mut i: usize = 0;
    while i < columns.len()
        invariant
            i <= columns.len(),
            names == strs(columns@),
            texts(found@) == before + row_references(row@, names.take(i as int)),
        decreases columns.len() - i,
    {
        proof {
            assert(names.take(i + 1).drop_last() == names.take(i as int));
            assert(names.take(i + 1).last() == columns@[i as int]@);
        }
        push_references(found, row.get(columns[i]));
        i += 1;
    }
    proof {
        assert(names.take(columns.len() as int) == names);
    }
}

/// The condition that a column is one of `found`, as a value.
fn one_of_value(found: Vec<String>) -> (r: Value)
    ensures
        r@ == one_of(texts(found@)),
{
    let ghost all = texts(found@);
    let mut found = found;
    let mut items: Vec<Value> = Vec::new();
    let mut i: usize = 0;
    while i < found.len()
        invariant
            i <= found.len(),
            all == texts(found@),
            values_view(items@) == key_items(all).take(i as int),
        decreases found.len() - i,
    {
        let ghost done = values_view(items@);
        items.push(Value::String(found[i].clone()));
        proof {
            assert(values_view(items@) == done.push(Json::Text(all[i as int])));
        }
        i += 1;
    }
    proof {
        assert(key_items(all).take(found.len() as int) == key_items(all));
    }
    let mut operators = Object::new();
    operators.insert(String::from_str("$in"), Value::Array(items));
    proof {
        assert(index_of(keys(Seq::<(Seq<char>, Json)>::empty()), "$in"@) == -1);
        assert(operators@ == seq![("$in"@, Json::Array(key_items(all)))]);
    }
    Value::Object(operators)
}

impl Schema {
    /// Puts the condition that the primary key is one of `found` into
    /// `query`, where there are keys, and returns the statement that reads
    /// the rows that the query then selects.
    fn related_statement(&self, query: &mut Query, found: Vec<String>) -> (sql: String)
        ensures
            final(query)@ == (QuerySpec {
                filters: related_filters(self@, old(query)@.filters, texts(found@)),
                ..old(query)@
            }),
            sql@ == self@.find_related(old(query)@, texts(found@)),
    {
        if found.len() > 0 {
            let condition = one_of_value(found);
            query.add_filter(self.primary_key_name(), condition);
        }
        let mut sql = self.select(query);
        sql.append(";");
        sql
    }

    /// The one statement that reads the rows that `data` refers to in
    /// `columns`, whatever the number of rows and of keys.
    ///
    /// The keys are collected row by row ([`data_references`]). Where
    /// there are any, `query` gets the condition that the primary key is
    /// one of them; the statement reads the rows that `query` then
    /// selects, with the fields that it asks for.
    pub fn find_related(&self, query: &mut Query, data: &Vec<Object>, columns: &[&str]) -> (sql:
        String)
        ensures
            final(query)@ == (QuerySpec {
                filters: related_filters(
                    self@,
                    old(query)@.filters,
                    data_references(rows_view(data@), strs(columns@)),
                ),
                ..old(query)@
            }),
            sql@ == self@.find_related(
                old(query)@,
                data_references(rows_view(data@), strs(columns@)),
            ),
    {
        let ghost rows = rows_view(data@);
        let mut found: Vec<String> = Vec::new();
        let mut i: usize = 0;
        while i < data.len()
            invariant
                i <= data.len(),
                rows == rows_view(data@),
                texts(found@) == data_references(rows.take(i as int), strs(columns@)),
            decreases data.len() - i,
        {
            proof {
                assert(rows.take(i + 1).drop_last() == rows.take(i as int));
                assert(rows.take(i + 1).last() == data@[i as int]@);
            }
            push_row_references(&mut found, &data[i], columns);
            i += 1;
        }
        proof {
            assert(rows.take(data.len() as int) == rows);
        }
        self.related_statement(query, found)
    }

    /// The one statement that reads the rows that the row `data` refers
    /// to in `columns`.
    pub fn find_related_one(&self, query: &mut Query, data: &Object, columns: &[&str]) -> (sql:
        String)
        ensures
            final(query)@ == (QuerySpec {
                filters: related_filters(
                    self@,
                    old(query)@.filters,
                    row_references(data@, strs(columns@)),
                ),
                ..old(query)@
            }),
            sql@ == self@.find_related(old(query)@, row_references(data@, strs(columns@))),
    {
        let mut found: Vec<String> = Vec::new();
        push_row_references(&mut found, data, columns);
        proof {
            assert(texts(found@) == row_references(data@, strs(columns@)));
        }
        self.related_statement(query, found)
    }
}

// ---------------------------------------------------------------------
// Putting rows in place of keys
// ---------------------------------------------------------------------
/// The rows that were read, each under its primary key; a later row of a
/// key replaces an earlier one. Nothing where a row holds no string under
/// the name of the primary key.
pub open spec fn associations(primary_key_name: Seq<char>, rows: Seq<Seq<(Seq<char>, Json)>>)
    -> Option<Seq<(Seq<char>, Json)>>
    decreases rows.len(),
{
    if rows.len() == 0 {
        Some(Seq::empty())
    } else {
        match (
            associations(primary_key_name, rows.drop_last()),
            lookup(rows.last(), primary_key_name),
        ) {
            (Some(rest), Some(Json::Text(key))) => Some(put(rest, key, Json::Object(rows.last()))),
            _ => None,
        }
    }
}

/// An item with the row in its place where it is the key of one;
/// unchanged where it is a key without a row, or no string.
pub open spec fn resolved_item(item: Json, found: Seq<(Seq<char>, Json)>) -> Json {
    match item {
        Json::Text(key) => match lookup(found, key) {
            Some(row) => row,
            None => item,
        },
        _ => item,
    }
}

/// The items of a list, each resolved.
pub open spec fn resolved_items(items: Seq<Json>, found: Seq<(Seq<char>, Json)>) -> Seq<Json> {
    Seq::new(items.len(), |i: int| resolved_item(items[i], found))
}

/// A value with rows in place of keys: a list with each item resolved,
/// anything else resolved as one item.
pub open spec fn resolved(value: Json, found: Seq<(Seq<char>, Json)>) -> Json {
    match value {
        Json::Array(items) => Json::Array(resolved_items(items, found)),
        _ => resolved_item(value, found),
    }
}

/// A row with the values of the named columns resolved, and every other
/// entry as it was.
pub open spec fn resolved_row(
    row: Seq<(Seq<char>, Json)>,
    columns: Seq<Seq<char>>,
    found: Seq<(Seq<char>, Json)>,
) -> Seq<(Seq<char>, Json)> {
    Seq::new(
        row.len(),
        |i: int|
            if index_of(columns, row[i].0) >= 0 {
                (row[i].0, resolved(row[i].1, found))
            } else {
                row[i]
            },
    )
}

/// The rows, each with the values of the named columns resolved.
pub open spec fn resolved_rows(
    data: Seq<Seq<(Seq<char>, Json)>>,
    columns: Seq<Seq<char>>,
    found: Seq<(Seq<char>, Json)>,
) -> Seq<Seq<(Seq<char>, Json)>> {
    Seq::new(data.len(), |i: int| resolved_row(data[i], columns, found))
}

/// A key that has a row is replaced by the row, and a key without a row
/// stays as it is.
pub proof fn lemma_resolved_key(key: Seq<char>, found: Seq<(Seq<char>, Json)>)
    ensures
        match lookup(found, key) {
            Some(row) => resolved(Json::Text(key), found) == row,
            None => resolved(Json::Text(key), found) == Json::Text(key),
        },
{
}

/// In a list, each key that has a row is replaced by the row; every
/// other item stays as it is, and the list keeps its length.
pub proof fn lemma_resolved_list(items: Seq<Json>, found: Seq<(Seq<char>, Json)>)
    ensures
        resolved(Json::Array(items), found) == Json::Array(resolved_items(items, found)),
        resolved_items(items, found).len() == items.len(),
        forall|i: int|
            0 <= i < items.len() ==> #[trigger] resolved_items(items, found)[i] == (
            match items[i] {
                Json::Text(key) => match lookup(found, key) {
                    Some(row) => row,
                    None => items[i],
                },
                _ => items[i],
            }),
{
}

/// Resolving changes values only, and only in the named columns: the
/// rows keep their number and their keys, and every entry of another
/// column stays as it is.
pub proof fn lemma_resolved_rows_keep_shape(
    data: Seq<Seq<(Seq<char>, Json)>>,
    columns: Seq<Seq<char>>,
    found: Seq<(Seq<char>, Json)>,
)
    ensures
        resolved_rows(data, columns, found).len() == data.len(),
        forall|i: int|
            0 <= i < data.len() ==> keys(#[trigger] resolved_rows(data, columns, found)[i])
                == keys(data[i]),
        forall|i: int, j: int|
            0 <= i < data.len() && 0 <= j < data[i].len() && index_of(columns, data[i][j].0) < 0
                ==> #[trigger] resolved_rows(data, columns, found)[i][j] == data[i][j],
{
    assert forall|i: int| 0 <= i < data.len() implies keys(
        #[trigger] resolved_rows(data, columns, found)[i],
    ) == keys(data[i]) by {
        assert(keys(resolved_row(data[i], columns, found)) =~= keys(data[i]));
    }
}

/// Where no row was read, nothing changes: a key without a row stays as
/// it is, whatever the column.
pub proof fn lemma_nothing_found_changes_nothing(
    data: Seq<Seq<(Seq<char>, Json)>>,
    columns: Seq<Seq<char>>,
)
    ensures
        resolved_rows(data, columns, Seq::empty()) == data,
{
    let found = Seq::<(Seq<char>, Json)>::empty();
    assert forall|key: Seq<char>| lookup(found, key) is None by {
        assert(keys(found).len() == 0);
    }
    assert forall|value: Json| #[trigger] resolved(value, found) == value by {
        match value {
            Json::Array(items) => {
                assert(resolved_items(items, found) =~= items);
            },
            _ => {},
        }
    }
    assert forall|i: int| 0 <= i < data.len() implies resolved_row(data[i], columns, found)
        == data[i] by {
        assert(resolved_row(data[i], columns, found) =~= data[i]);
    }
    assert(resolved_rows(data, columns, found) =~= data);
}

fn resolve_item(item: &Value, found: &Object) -> (r: Value)
    ensures
        r@ == resolved_item(item@, found@),
{
    match item {
        Value::String(key) => match found.get(key.as_str()) {
            Some(row) => row.clone(),
            None => item.clone(),
        },
        _ => item.clone(),
    }
}

fn resolve(value: &Value, found: &Object) -> (r: Value)
    ensures
        r@ == resolved(value@, found@),
{
    match value {
        Value::Array(items) => {
            let ghost all = resolved_items(values_view(items@), found@);
            let mut out: Vec<Value> = Vec::new();
            let mut i: usize = 0;
            while i < items.len()
                invariant
                    i <= items.len(),
                    all == resolved_items(values_view(items@), found@),
                    values_view(out@) == all.take(i as int),
                decreases items.len() - i,
            {
                let ghost done = values_view(out@);
                let item = resolve_item(&items[i], found);
                out.push(item);
                proof {
                    assert(values_view(out@) == done.push(all[i as int]));
                }
                i += 1;
            }
            proof {
                assert(all.take(items.len() as int) == all);
            }
            Value::Array(out)
        },
        _ => resolve_item(value, found),
    }
}

fn resolve_row(row: &Object, columns: &[&str], found: &Object) -> (r: Object)
    ensures
        r@ == resolved_row(row@, strs(columns@), found@),
{
    let ghost all = resolved_row(row@, strs(columns@), found@);
    let mut entries: Vec<(String, Value)> = Vec::new();
    let mut i: usize = 0;
    while i < row.entries.len()
        invariant
            i <= row.entries.len(),
            all == resolved_row(row@, strs(columns@), found@),
            entries_view(entries@) == all.take(i as int),
        decreases row.entries.len() - i,
    {
        let ghost done = entries_view(entries@);
        let key = row.entries[i].0.clone();
        let value = if listed(columns, key.as_str()) {
            resolve(&row.entries[i].1, found)
        } else {
            row.entries[i].1.clone()
        };
        entries.push((key, value));
        proof {
            assert(entries_view(entries@) == done.push(all[i as int]));
        }
        i += 1;
    }
    proof {
        assert(all.take(row.entries.len() as int) == all);
    }
    Object { entries }
}

impl Schema {
    /// The rows of `rows`, each under its primary key.
    ///
    /// An error where a row holds no string under the name of the primary
    /// key: such a row cannot stand for a key.
    pub fn associate(&self, rows: &Vec<Object>) -> (r: Result<Object, Error>)
        ensures
            match r {
                Ok(found) => associations(self@.primary_key_name, rows_view(rows@)) == Some(
                    found@,
                ),
                Err(error) => associations(self@.primary_key_name, rows_view(rows@)) is None
                    && error@ == ErrorSpec::Decode(
                    "a related row holds no string under the primary key"@,
                ),
            },
    {
        let key_name = self.primary_key_name();
        let ghost all = rows_view(rows@);
        let mut found = Object::new();
        let mut i: usize = 0;
        while i < rows.len()
            invariant
                i <= rows.len(),
                all == rows_view(rows@),
                key_name@ == self@.primary_key_name,
                associations(key_name@, all.take(i as int)) == Some(found@),
            decreases rows.len() - i,
        {
            proof {
                assert(all.take(i + 1).drop_last() == all.take(i as int));
                assert(all.take(i + 1).last() == rows@[i as int]@);
            }
            match rows[i].get(key_name) {
                Some(Value::String(key)) => {
                    found.insert(key.clone(), Value::Object(rows[i].clone()));
                },
                _ => {
                    proof {
                        lemma_associations_fail(key_name@, all, i as int);
                    }
                    return Err(
                        Error::Decode(
                            String::from_str("a related row holds no string under the primary key"),
                        ),
                    );
                },
            }
            i += 1;
        }
        proof {
            assert(all.take(rows.len() as int) == all);
        }
        Ok(found)
    }

    /// Puts, in every row of `data`, the rows of `rows` in place of their
    /// keys in `columns`, and returns the number of rows that were put
    /// under a key.
    ///
    /// In the value of a named column, a string that is the primary key of
    /// one of `rows` is replaced by that row, as an object; so is each such
    /// string in a list. A key without a row stays as it is, and so does
    /// everything else.
    ///
    /// An error, and `data` as it was, where one of `rows` holds no string
    /// under the name of the primary key.
    pub fn relate(&self, data: &mut Vec<Object>, columns: &[&str], rows: &Vec<Object>) -> (r:
        Result<u64, Error>)
        ensures
            match r {
                Ok(count) => {
                    let found = associations(self@.primary_key_name, rows_view(rows@));
                    &&& found is Some
                    &&& count == found->0.len()
                    &&& rows_view(final(data)@) == resolved_rows(
                        rows_view(old(data)@),
                        strs(columns@),
                        found->0,
                    )
                },
                Err(error) => {
                    &&& associations(self@.primary_key_name, rows_view(rows@)) is None
                    &&& error@ == ErrorSpec::Decode(
                        "a related row holds no string under the primary key"@,
                    )
                    &&& final(data)@ == old(data)@
                },
            },
    {
        let found = match self.associate(rows) {
            Ok(found) => found,
            Err(error) => {
                return Err(error);
            },
        };
        let ghost before = rows_view(data@);
        let ghost all = resolved_rows(before, strs(columns@), found@);
        let mut i: usize = 0;
        while i < data.len()
            invariant
                i <= data.len(),
                data@.len() == before.len(),
                all == resolved_rows(before, strs(columns@), found@),
                forall|j: int| 0 <= j < i ==> (#[trigger] data@[j])@ == all[j],
                forall|j: int| i <= j < data@.len() ==> (#[trigger] data@[j])@ == before[j],
            decreases data.len() - i,
        {
            let row = resolve_row(&data[i], columns, &found);
            data.set(i, row);
            i += 1;
        }
        proof {
            assert(rows_view(data@) =~= all);
        }
        Ok(found.len() as u64)
    }

    /// Puts, in the row `data`, the rows of `rows` in place of their keys
    /// in `columns`, as [`Schema::relate`] does in every row.
    pub fn relate_one(&self, data: &mut Object, columns: &[&str], rows: &Vec<Object>) -> (r:
        Result<(), Error>)
        ensures
            match r {
                Ok(_) => {
                    let found = associations(self@.primary_key_name, rows_view(rows@));
                    &&& found is Some
                    &&& final(data)@ == resolved_row(old(data)@, strs(columns@), found->0)
                },
                Err(error) => {
                    &&& associations(self@.primary_key_name, rows_view(rows@)) is None
                    &&& error@ == ErrorSpec::Decode(
                        "a related row holds no string under the primary key"@,
                    )
                    &&& final(data)@ == old(data)@
                },
            },
    {
        let found = match self.associate(rows) {
            Ok(found) => found,
            Err(error) => {
                return Err(error);
            },
        };
        let row = resolve_row(data, columns, &found);
        *data = row;
        Ok(())
    }
}

/// Where a row holds no string under the name of the primary key, the
/// rows have no associations.
proof fn lemma_associations_fail(
    primary_key_name: Seq<char>,
    rows: Seq<Seq<(Seq<char>, Json)>>,
    at: int,
)
    requires
        0 <= at < rows.len(),
        !(lookup(rows[at], primary_key_name) matches Some(Json::Text(_))),
    ensures
        associations(primary_key_name, rows) is None,
    decreases rows.len(),
{
    if at < rows.len() - 1 {
        lemma_associations_fail(primary_key_name, rows.drop_last(), at);
    }
}

} // verus!
