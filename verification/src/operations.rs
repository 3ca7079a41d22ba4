//! The operations on a model: for each, the statement to execute, and
//! what the operation returns for what the database answers.
//!
//! No function here touches a database. An operation is carried out by
//! executing the statement that the function of its name returns, and
//! handing the answer to [`Statement::check`], [`found`] or
//! [`Schema::relate`].
use vstd::prelude::*;
use crate::column::{ColumnSpec, ColumnType, IndexType};
use crate::format::{expand, format_query};
use crate::mutation::{set_clause, Mutation};
use crate::postgres::{
    column_type, encode_value, encoded_value, format_value, formatted_value, sql_type,
};
use crate::query::{
    equality, filter_conditions, known_columns, order_clause, pagination_clause, projection,
    sort_terms, where_clause, Query, QuerySpec,
};
use crate::schema::{columns_view, Schema, SchemaSpec};
use crate::statement::{Expectation, Statement};
use crate::text::{
    find_text, index_of, join, join_strings, lemma_index_of, literal, quote_literal, same_text,
    texts,
};
use crate::value::{lookup, Json, Object};

verus! {

/// A clause after a space, or nothing where the clause is empty.
pub open spec fn spaced(clause: Seq<char>) -> Seq<char> {
    if clause.len() == 0 {
        clause
    } else {
        " "@ + clause
    }
}

/// The definition of a column in `CREATE TABLE`: its name and type, then
/// its default value where it has one, else `NOT NULL` where it refuses
/// null.
pub open spec fn column_definition(column: ColumnSpec) -> Seq<char> {
    column.name + " "@ + sql_type(column.column_type) + (match column.default_value {
        Some(value) => " DEFAULT "@ + formatted_value(column.column_type, value),
        None => if column.not_null {
            " NOT NULL"@
        } else {
            Seq::empty()
        },
    })
}

/// The definitions of the columns, one for one.
pub open spec fn column_definitions(columns: Seq<ColumnSpec>) -> Seq<Seq<char>> {
    Seq::new(columns.len(), |i: int| column_definition(columns[i]))
}

/// What is written for each column of the model in a row, one for one:
/// the value that the row holds under the column's name, encoded for the
/// column.
pub open spec fn row_values(schema: SchemaSpec, row: Seq<(Seq<char>, Json)>) -> Seq<Seq<char>> {
    Seq::new(
        schema.columns.len(),
        |i: int| encoded_value(schema.columns[i], lookup(row, schema.columns[i].name)),
    )
}

/// The rows of an insert of many, one for one: the values of a row
/// between brackets.
pub open spec fn row_tuples(schema: SchemaSpec, rows: Seq<Seq<(Seq<char>, Json)>>) -> Seq<
    Seq<char>,
> {
    Seq::new(rows.len(), |i: int| "("@ + join(row_values(schema, rows[i]), ","@) + ")"@)
}

/// The assignments that write a row over the one it replaces: one for
/// each column but the primary key, in order.
pub open spec fn row_assignments(
    columns: Seq<ColumnSpec>,
    primary_key_name: Seq<char>,
    row: Seq<(Seq<char>, Json)>,
) -> Seq<Seq<char>>
    decreases columns.len(),
{
    if columns.len() == 0 {
        Seq::empty()
    } else {
        let rest = row_assignments(columns.drop_last(), primary_key_name, row);
        let column = columns.last();
        if column.name != primary_key_name {
            rest.push(column.name + " = "@ + encoded_value(column, lookup(row, column.name)))
        } else {
            rest
        }
    }
}

impl SchemaSpec {
    /// The condition that the primary key is `key`.
    pub open spec fn key_condition(self, key: Seq<char>) -> Seq<char> {
        self.primary_key_name + " = "@ + quote_literal(key)
    }

    /// The condition that a row is the first that the filter selects in
    /// the sort order.
    pub open spec fn first_match(self, query: QuerySpec) -> Seq<char> {
        self.primary_key_name + " IN (SELECT "@ + self.primary_key_name + " FROM "@
            + self.table_name() + spaced(where_clause(self, query.filters)) + spaced(
            order_clause(self, query.sort),
        ) + " LIMIT 1)"@
    }

    /// The statement of [`Schema::create_table`].
    pub open spec fn create_table(self) -> Seq<char> {
        "CREATE TABLE IF NOT EXISTS "@ + self.table_name() + " ("@ + join(
            column_definitions(self.columns),
            ", "@,
        ) + ", CONSTRAINT "@ + self.table_name() + "_pkey PRIMARY KEY ("@ + self.primary_key_name
            + "));"@ + (match self.distribution_column {
            Some(column) => " SELECT create_distributed_table('"@ + self.table_name() + "', '"@
                + column + "');"@,
            None => Seq::empty(),
        })
    }

    /// The statement of [`Schema::insert`].
    pub open spec fn insert(self, row: Seq<(Seq<char>, Json)>) -> Seq<char> {
        "INSERT INTO "@ + self.table_name() + " ("@ + join(self.column_names(), ","@)
            + ") VALUES ("@ + join(row_values(self, row), ","@) + ");"@
    }

    /// The statement of [`Schema::insert_many`].
    pub open spec fn insert_many(self, rows: Seq<Seq<(Seq<char>, Json)>>) -> Seq<char> {
        "INSERT INTO "@ + self.table_name() + " ("@ + join(self.column_names(), ","@)
            + ") VALUES "@ + join(row_tuples(self, rows), ","@) + ";"@
    }

    /// The statement of [`Schema::update`].
    pub open spec fn update(self, key: Seq<char>, row: Seq<(Seq<char>, Json)>) -> Seq<char> {
        "UPDATE "@ + self.table_name() + " SET "@ + join(
            row_assignments(self.columns, self.primary_key_name, row),
            ","@,
        ) + " WHERE "@ + self.key_condition(key) + ";"@
    }

    /// The statement of [`Schema::update_one`].
    pub open spec fn update_one(self, query: QuerySpec, updates: Seq<(Seq<char>, Json)>) -> Seq<
        char,
    > {
        "UPDATE "@ + self.table_name() + " SET "@ + set_clause(self, updates) + " WHERE "@
            + self.first_match(query) + ";"@
    }

    /// The statement of [`Schema::update_many`].
    pub open spec fn update_many(self, query: QuerySpec, updates: Seq<(Seq<char>, Json)>) -> Seq<
        char,
    > {
        "UPDATE "@ + self.table_name() + " SET "@ + set_clause(self, updates) + spaced(
            where_clause(self, query.filters),
        ) + ";"@
    }

    /// The statement of [`Schema::upsert`].
    pub open spec fn upsert(self, row: Seq<(Seq<char>, Json)>) -> Seq<char> {
        "INSERT INTO "@ + self.table_name() + " ("@ + join(self.column_names(), ","@)
            + ") VALUES ("@ + join(row_values(self, row), ","@) + ") ON CONFLICT ("@
            + self.primary_key_name + ") DO UPDATE SET "@ + join(
            row_assignments(self.columns, self.primary_key_name, row),
            ","@,
        ) + ";"@
    }

    /// The statement of [`Schema::delete`].
    pub open spec fn delete(self, key: Seq<char>) -> Seq<char> {
        "DELETE FROM "@ + self.table_name() + " WHERE "@ + self.key_condition(key) + ";"@
    }

    /// The statement of [`Schema::delete_one`].
    pub open spec fn delete_one(self, query: QuerySpec) -> Seq<char> {
        "DELETE FROM "@ + self.table_name() + " WHERE "@ + self.first_match(query) + ";"@
    }

    /// The statement of [`Schema::delete_many`].
    pub open spec fn delete_many(self, query: QuerySpec) -> Seq<char> {
        "DELETE FROM "@ + self.table_name() + spaced(where_clause(self, query.filters)) + ";"@
    }

    /// A selection of the fields of the rows that the filter selects,
    /// without the semicolon at its end.
    pub open spec fn select(self, query: QuerySpec) -> Seq<char> {
        "SELECT "@ + projection(self, query.fields) + " FROM "@ + self.table_name() + spaced(
            where_clause(self, query.filters),
        )
    }

    /// The statement of [`Schema::find`].
    pub open spec fn find(self, query: QuerySpec) -> Seq<char> {
        self.select(query) + spaced(order_clause(self, query.sort)) + spaced(
            pagination_clause(query.pagination),
        ) + ";"@
    }

    /// The statement of [`Schema::find_one`].
    pub open spec fn find_one(self, query: QuerySpec) -> Seq<char> {
        self.select(query) + spaced(order_clause(self, query.sort)) + " LIMIT 1;"@
    }

    /// The statement of [`Schema::try_get_model`].
    pub open spec fn try_get_model(self, key: Seq<char>) -> Seq<char> {
        "SELECT * FROM "@ + self.table_name() + " WHERE "@ + self.key_condition(key) + ";"@
    }
}

/// An insert writes every column of the model once, in the order of
/// the columns, each with what the row holds under the column's name.
pub proof fn lemma_insert_writes_every_column(schema: SchemaSpec, row: Seq<(Seq<char>, Json)>)
    requires
        schema.wf(),
    ensures
        schema.column_names().len() == schema.columns.len(),
        row_values(schema, row).len() == schema.columns.len(),
        forall|i: int, j: int|
            0 <= i < j < schema.columns.len() ==> schema.column_names()[i]
                != schema.column_names()[j],
        forall|i: int|
            0 <= i < schema.columns.len() ==> #[trigger] row_values(schema, row)[i]
                == encoded_value(schema.columns[i], lookup(row, schema.column_names()[i])),
{
}

/// A filter that holds the primary key and a key selects by the same
/// condition as the operations that take a key: a search for the key of a
/// row that was inserted reads the row of that key.
///
/// This holds where the primary key is no `jsonb` column, in which a
/// string is written as JSON text.
pub proof fn lemma_key_filter_is_key_condition(schema: SchemaSpec, key: Seq<char>)
    requires
        schema.wf(),
        schema.column(schema.primary_key_name).column_type != ColumnType::Json,
    ensures
        where_clause(schema, seq![(schema.primary_key_name, Json::Text(key))]) == "WHERE "@
            + schema.key_condition(key),
        schema.find_one(
            QuerySpec {
                fields: Seq::empty(),
                filters: seq![(schema.primary_key_name, Json::Text(key))],
                sort: Seq::empty(),
                pagination: None,
            },
        ) == "SELECT * FROM "@ + schema.table_name() + " WHERE "@ + schema.key_condition(key)
            + " LIMIT 1;"@,
{
    let name = schema.primary_key_name;
    let filters = seq![(name, Json::Text(key))];
    let column = schema.column(name);
    lemma_index_of(schema.column_names(), name);
    assert(column.name == name);
    assert(filters.drop_last() == Seq::<(Seq<char>, Json)>::empty());
    assert(filter_conditions(schema, filters.drop_last()) == Seq::<Seq<char>>::empty());
    let conditions = filter_conditions(schema, filters);
    assert(conditions == seq![equality(column, Json::Text(key))]);
    assert(equality(column, Json::Text(key)) == schema.key_condition(key));
    assert(join(conditions, " AND "@) == schema.key_condition(key));
    reveal_strlit(" ");
    reveal_strlit("WHERE ");
    reveal_strlit(" WHERE ");
    reveal_strlit("SELECT ");
    reveal_strlit("*");
    reveal_strlit(" FROM ");
    reveal_strlit("SELECT * FROM ");
    let clause = where_clause(schema, filters);
    assert(clause.len() > 0);
    assert(known_columns(schema, Seq::empty()) == Seq::<Seq<char>>::empty());
    assert(sort_terms(schema, Seq::empty()) == Seq::<Seq<char>>::empty());
    assert(spaced(order_clause(schema, Seq::empty())) == Seq::<char>::empty());
    let query = QuerySpec {
        fields: Seq::empty(),
        filters,
        sort: Seq::empty(),
        pagination: None,
    };
    assert(projection(schema, query.fields) == "*"@);
    assert("SELECT "@ + "*"@ + " FROM "@ =~= "SELECT * FROM "@);
    assert(spaced(clause) =~= " WHERE "@ + schema.key_condition(key));
    assert(schema.select(query) =~= "SELECT * FROM "@ + schema.table_name() + " WHERE "@
        + schema.key_condition(key));
}

/// Which row is the first match depends on the filter and the sort order
/// of the query and on nothing else of it, and the update and the deletion
/// of the first match select it in the same way.
pub proof fn lemma_first_match_depends_on_filter_and_sort(
    schema: SchemaSpec,
    first: QuerySpec,
    second: QuerySpec,
    updates: Seq<(Seq<char>, Json)>,
)
    requires
        first.filters == second.filters,
        first.sort == second.sort,
    ensures
        schema.first_match(first) == schema.first_match(second),
        schema.update_one(first, updates) == schema.update_one(second, updates),
        schema.delete_one(first) == schema.delete_one(second),
{
}

/// Appends a clause after a space, or nothing where the clause is empty.
pub fn push_spaced(out: &mut String, clause: &str)
    ensures
        final(out)@ == old(out)@ + spaced(clause@),
{
    if clause.is_empty() {
        assert(out@ == out@ + clause@);
    } else {
        let mut padded = String::from_str(" ");
        padded.append(clause);
        out.append(padded.as_str());
    }
}

impl Schema {
    /// The names of the columns, joined by commas.
    fn column_list(&self) -> (r: String)
        ensures
            r@ == join(self@.column_names(), ","@),
    {
        let columns = self.columns();
        let ghost names = self@.column_names();
        let mut parts: Vec<String> = Vec::new();
        let mut i: usize = 0;
        while i < columns.len()
            invariant
                i <= columns.len(),
                columns_view(columns@) == self@.columns,
                names == self@.column_names(),
                texts(parts@) == names.take(i as int),
            decreases columns.len() - i,
        {
            let ghost done = texts(parts@);
            let name = String::from_str(columns[i].name());
            proof {
                assert(columns_view(columns@)[i as int] == columns@[i as int]@);
            }
            parts.push(name);
            proof {
                assert(texts(parts@) == done.push(names[i as int]));
            }
            i += 1;
        }
        proof {
            assert(names.take(columns.len() as int) == names);
        }
        join_strings(&parts, ",")
    }

    /// What is written for each column in `row`, joined by commas.
    fn value_list(&self, row: &Object) -> (r: String)
        ensures
            r@ == join(row_values(self@, row@), ","@),
    {
        let columns = self.columns();
        let ghost values = row_values(self@, row@);
        let mut parts: Vec<String> = Vec::new();
        let mut i: usize = 0;
        while i < columns.len()
            invariant
                i <= columns.len(),
                columns_view(columns@) == self@.columns,
                values == row_values(self@, row@),
                texts(parts@) == values.take(i as int),
            decreases columns.len() - i,
        {
            let ghost done = texts(parts@);
            proof {
                assert(columns_view(columns@)[i as int] == columns@[i as int]@);
            }
            let value = encode_value(&columns[i], row.get(columns[i].name()));
            parts.push(value);
            proof {
                assert(texts(parts@) == done.push(values[i as int]));
            }
            i += 1;
        }
        proof {
            assert(values.take(columns.len() as int) == values);
        }
        join_strings(&parts, ",")
    }

    /// The assignments that write `row` over the row it replaces, joined
    /// by commas.
    fn assignment_list(&self, row: &Object) -> (r: String)
        ensures
            r@ == join(row_assignments(self@.columns, self@.primary_key_name, row@), ","@),
    {
        let columns = self.columns();
        let key_name = self.primary_key_name();
        let ghost all = self@.columns;
        let mut parts: Vec<String> = Vec::new();
        let mut i: usize = 0;
        while i < columns.len()
            invariant
                i <= columns.len(),
                columns_view(columns@) == self@.columns,
                all == self@.columns,
                key_name@ == self@.primary_key_name,
                texts(parts@) == row_assignments(all.take(i as int), key_name@, row@),
            decreases columns.len() - i,
        {
            let ghost done = texts(parts@);
            proof {
                assert(columns_view(columns@)[i as int] == columns@[i as int]@);
                assert(all.take(i + 1).drop_last() == all.take(i as int));
                assert(all.take(i + 1).last() == columns@[i as int]@);
            }
            let name = columns[i].name();
            if !same_text(name, key_name) {
                let mut text = String::from_str(name);
                text.append(" = ");
                text.append(encode_value(&columns[i], row.get(name)).as_str());
                parts.push(text);
                proof {
                    assert(texts(parts@) == done.push(text@));
                }
            }
            i += 1;
        }
        proof {
            assert(all.take(columns.len() as int) == all);
        }
        join_strings(&parts, ",")
    }

    /// The condition that the primary key is `key`.
    fn key_condition(&self, key: &str) -> (r: String)
        ensures
            r@ == self@.key_condition(key@),
    {
        let mut r = String::from_str(self.primary_key_name());
        r.append(" = ");
        r.append(literal(key).as_str());
        r
    }

    /// The condition that a row is the first that `query` selects.
    fn first_match(&self, query: &Query) -> (r: String)
        ensures
            r@ == self@.first_match(query@),
    {
        let mut r = String::from_str(self.primary_key_name());
        r.append(" IN (SELECT ");
        r.append(self.primary_key_name());
        r.append(" FROM ");
        r.append(self.table_name().as_str());
        push_spaced(&mut r, query.format_filters(self).as_str());
        push_spaced(&mut r, query.format_sort(self).as_str());
        r.append(" LIMIT 1)");
        r
    }

    /// A selection of the fields of the rows that `query` selects.
    pub(crate) fn select(&self, query: &Query) -> (r: String)
        ensures
            r@ == self@.select(query@),
    {
        let mut r = String::from_str("SELECT ");
        r.append(query.format_fields(self).as_str());
        r.append(" FROM ");
        r.append(self.table_name().as_str());
        push_spaced(&mut r, query.format_filters(self).as_str());
        r
    }

    /// The statement that creates the table of the model, if there is
    /// none: a column for each column of the model, and the primary key.
    /// For a model with a distribution column, a second statement follows
    /// that distributes the table by it.
    pub fn create_table(&self) -> (r: Statement)
        ensures
            r.sql@ == self@.create_table(),
            r.expectation == Expectation::Any,
    {
        let columns = self.columns();
        let table = self.table_name();
        let ghost definitions = column_definitions(self@.columns);
        let mut parts: Vec<String> = Vec::new();
        let mut i: usize = 0;
        while i < columns.len()
            invariant
                i <= columns.len(),
                columns_view(columns@) == self@.columns,
                definitions == column_definitions(self@.columns),
                texts(parts@) == definitions.take(i as int),
            decreases columns.len() - i,
        {
            let ghost done = texts(parts@);
            proof {
                assert(columns_view(columns@)[i as int] == columns@[i as int]@);
            }
            let column = &columns[i];
            let mut text = String::from_str(column.name());
            text.append(" ");
            text.append(column_type(column));
            let mut rest = String::new();
            match column.default_value() {
                Some(value) => {
                    rest.append(" DEFAULT ");
                    rest.append(format_value(column, value).as_str());
                    assert(rest@ == " DEFAULT "@ + formatted_value(column@.column_type, value@));
                },
                None => {
                    if column.is_not_null() {
                        rest.append(" NOT NULL");
                        assert(rest@ == " NOT NULL"@);
                    }
                },
            }
            text.append(rest.as_str());
            parts.push(text);
            proof {
                assert(texts(parts@) == done.push(definitions[i as int]));
            }
            i += 1;
        }
        proof {
            assert(definitions.take(columns.len() as int) == definitions);
        }
        let mut sql = String::from_str("CREATE TABLE IF NOT EXISTS ");
        sql.append(table.as_str());
        sql.append(" (");
        sql.append(join_strings(&parts, ", ").as_str());
        sql.append(", CONSTRAINT ");
        sql.append(table.as_str());
        sql.append("_pkey PRIMARY KEY (");
        sql.append(self.primary_key_name());
        sql.append("));");
        let mut distribution = String::new();
        match self.distribution_column() {
            Some(column) => {
                distribution.append(" SELECT create_distributed_table('");
                distribution.append(table.as_str());
                distribution.append("', '");
                distribution.append(column);
                distribution.append("');");
                assert(distribution@ == " SELECT create_distributed_table('"@ + table@ + "', '"@
                    + column@ + "');"@);
            },
            None => {},
        }
        sql.append(distribution.as_str());
        Statement { sql, expectation: Expectation::Any }
    }

    /// The statement that inserts `row`: every column of the model, in
    /// order, with what the row holds for it. It must affect one row.
    pub fn insert(&self, row: &Object) -> (r: Statement)
        ensures
            r.sql@ == self@.insert(row@),
            r.expectation == Expectation::ExactlyOne,
    {
        let mut sql = String::from_str("INSERT INTO ");
        sql.append(self.table_name().as_str());
        sql.append(" (");
        sql.append(self.column_list().as_str());
        sql.append(") VALUES (");
        sql.append(self.value_list(row).as_str());
        sql.append(");");
        Statement { sql, expectation: Expectation::ExactlyOne }
    }

    /// The one statement that inserts all of `rows`, whatever their
    /// number. It may affect any number of rows.
    pub fn insert_many(&self, rows: &Vec<Object>) -> (r: Statement)
        ensures
            r.sql@ == self@.insert_many(rows_view(rows@)),
            r.expectation == Expectation::Any,
    {
        let ghost tuples = row_tuples(self@, rows_view(rows@));
        let mut parts: Vec<String> = Vec::new();
        let mut i: usize = 0;
        while i < rows.len()
            invariant
                i <= rows.len(),
                tuples == row_tuples(self@, rows_view(rows@)),
                texts(parts@) == tuples.take(i as int),
            decreases rows.len() - i,
        {
            let ghost done = texts(parts@);
            let mut text = String::from_str("(");
            text.append(self.value_list(&rows[i]).as_str());
            text.append(")");
            parts.push(text);
            proof {
                assert(texts(parts@) == done.push(tuples[i as int]));
            }
            i += 1;
        }
        proof {
            assert(tuples.take(rows.len() as int) == tuples);
        }
        let mut sql = String::from_str("INSERT INTO ");
        sql.append(self.table_name().as_str());
        sql.append(" (");
        sql.append(self.column_list().as_str());
        sql.append(") VALUES ");
        sql.append(join_strings(&parts, ",").as_str());
        sql.append(";");
        Statement { sql, expectation: Expectation::Any }
    }

    /// The statement that writes `row` over the row whose primary key is
    /// `primary_key`: every column but the primary key is assigned. It must
    /// affect one row.
    pub fn update(&self, primary_key: &str, row: &Object) -> (r: Statement)
        ensures
            r.sql@ == self@.update(primary_key@, row@),
            r.expectation == Expectation::ExactlyOne,
    {
        let mut sql = String::from_str("UPDATE ");
        sql.append(self.table_name().as_str());
        sql.append(" SET ");
        sql.append(self.assignment_list(row).as_str());
        sql.append(" WHERE ");
        sql.append(self.key_condition(primary_key).as_str());
        sql.append(";");
        Statement { sql, expectation: Expectation::ExactlyOne }
    }

    /// The statement that applies `mutation` to the first row that
    /// `query` selects in its sort order, and to no other. It may affect
    /// one row or none.
    pub fn update_one(&self, query: &Query, mutation: &Mutation) -> (r: Statement)
        ensures
            r.sql@ == self@.update_one(query@, mutation@),
            r.expectation == Expectation::AtMostOne,
    {
        let mut sql = String::from_str("UPDATE ");
        sql.append(self.table_name().as_str());
        sql.append(" SET ");
        sql.append(mutation.format_updates(self).as_str());
        sql.append(" WHERE ");
        sql.append(self.first_match(query).as_str());
        sql.append(";");
        Statement { sql, expectation: Expectation::AtMostOne }
    }

    /// The statement that applies `mutation` to every row that `query`
    /// selects. It may affect any number of rows.
    pub fn update_many(&self, query: &Query, mutation: &Mutation) -> (r: Statement)
        ensures
            r.sql@ == self@.update_many(query@, mutation@),
            r.expectation == Expectation::Any,
    {
        let mut sql = String::from_str("UPDATE ");
        sql.append(self.table_name().as_str());
        sql.append(" SET ");
        sql.append(mutation.format_updates(self).as_str());
        push_spaced(&mut sql, query.format_filters(self).as_str());
        sql.append(";");
        Statement { sql, expectation: Expectation::Any }
    }

    /// The statement that inserts `row`, or, where a row has its primary
    /// key already, writes every column but the primary key over that row.
    /// It must affect one row.
    pub fn upsert(&self, row: &Object) -> (r: Statement)
        ensures
            r.sql@ == self@.upsert(row@),
            r.expectation == Expectation::ExactlyOne,
    {
        let mut sql = String::from_str("INSERT INTO ");
        sql.append(self.table_name().as_str());
        sql.append(" (");
        sql.append(self.column_list().as_str());
        sql.append(") VALUES (");
        sql.append(self.value_list(row).as_str());
        sql.append(") ON CONFLICT (");
        sql.append(self.primary_key_name());
        sql.append(") DO UPDATE SET ");
        sql.append(self.assignment_list(row).as_str());
        sql.append(";");
        Statement { sql, expectation: Expectation::ExactlyOne }
    }

    /// The statement that deletes the row whose primary key is
    /// `primary_key`. It must affect one row.
    pub fn delete(&self, primary_key: &str) -> (r: Statement)
        ensures
            r.sql@ == self@.delete(primary_key@),
            r.expectation == Expectation::ExactlyOne,
    {
        let mut sql = String::from_str("DELETE FROM ");
        sql.append(self.table_name().as_str());
        sql.append(" WHERE ");
        sql.append(self.key_condition(primary_key).as_str());
        sql.append(";");
        Statement { sql, expectation: Expectation::ExactlyOne }
    }

    /// The statement that deletes the first row that `query` selects in
    /// its sort order, and no other. It may affect one row or none.
    pub fn delete_one(&self, query: &Query) -> (r: Statement)
        ensures
            r.sql@ == self@.delete_one(query@),
            r.expectation == Expectation::AtMostOne,
    {
        let mut sql = String::from_str("DELETE FROM ");
        sql.append(self.table_name().as_str());
        sql.append(" WHERE ");
        sql.append(self.first_match(query).as_str());
        sql.append(";");
        Statement { sql, expectation: Expectation::AtMostOne }
    }

    /// The statement that deletes every row that `query` selects. It may
    /// affect any number of rows.
    pub fn delete_many(&self, query: &Query) -> (r: Statement)
        ensures
            r.sql@ == self@.delete_many(query@),
            r.expectation == Expectation::Any,
    {
        let mut sql = String::from_str("DELETE FROM ");
        sql.append(self.table_name().as_str());
        push_spaced(&mut sql, query.format_filters(self).as_str());
        sql.append(";");
        Statement { sql, expectation: Expectation::Any }
    }

    /// The statement that reads the rows that `query` selects: its fields,
    /// in its sort order, the part that its pagination asks for.
    pub fn find(&self, query: &Query) -> (sql: String)
        ensures
            sql@ == self@.find(query@),
    {
        let mut sql = self.select(query);
        push_spaced(&mut sql, query.format_sort(self).as_str());
        push_spaced(&mut sql, query.format_pagination().as_str());
        sql.append(";");
        sql
    }

    /// The statement that reads the first row that `query` selects in
    /// its sort order.
    pub fn find_one(&self, query: &Query) -> (sql: String)
        ensures
            sql@ == self@.find_one(query@),
    {
        let mut sql = self.select(query);
        push_spaced(&mut sql, query.format_sort(self).as_str());
        sql.append(" LIMIT 1;");
        sql
    }

    /// The statement that reads the row whose primary key is
    /// `primary_key`, with all its columns.
    pub fn try_get_model(&self, primary_key: &str) -> (sql: String)
        ensures
            sql@ == self@.try_get_model(primary_key@),
    {
        let mut sql = String::from_str("SELECT * FROM ");
        sql.append(self.table_name().as_str());
        sql.append(" WHERE ");
        sql.append(self.key_condition(primary_key).as_str());
        sql.append(";");
        sql
    }
}

// ---------------------------------------------------------------------
// Counting
// ---------------------------------------------------------------------
/// The contents of a list of columns to count, one for one.
pub open spec fn counted(columns: Seq<(&str, bool)>) -> Seq<(Seq<char>, bool)> {
    Seq::new(columns.len(), |i: int| (columns[i].0@, columns[i].1))
}

/// The terms of a count, in order: `count(*)` for `*`; for a column of the
/// model, the number of its values, or of its distinct values, under a
/// name made of the column's name. Any other name is left out.
pub open spec fn count_terms(schema: SchemaSpec, columns: Seq<(Seq<char>, bool)>) -> Seq<Seq<char>>
    decreases columns.len(),
{
    if columns.len() == 0 {
        Seq::empty()
    } else {
        let rest = count_terms(schema, columns.drop_last());
        let key = columns.last().0;
        if key == "*"@ {
            rest.push("count(*)"@)
        } else if schema.has_column(key) {
            if columns.last().1 {
                rest.push("count(distinct "@ + key + ") as "@ + key + "_count_distinct"@)
            } else {
                rest.push("count("@ + key + ") as "@ + key + "_count"@)
            }
        } else {
            rest
        }
    }
}

impl SchemaSpec {
    /// The statement of [`Schema::count`]. Of the query it holds the
    /// filter, and nothing else.
    pub open spec fn count(self, query: QuerySpec, columns: Seq<(Seq<char>, bool)>) -> Seq<char> {
        "SELECT "@ + join(count_terms(self, columns), ","@) + " FROM "@ + self.table_name()
            + spaced(where_clause(self, query.filters)) + ";"@
    }
}

/// The statement of a count holds the filter of the query and nothing
/// else of it: two queries with the same filter give the same statement,
/// whatever their pagination, sort order and projection.
pub proof fn lemma_count_ignores_pagination(
    schema: SchemaSpec,
    first: QuerySpec,
    second: QuerySpec,
    columns: Seq<(Seq<char>, bool)>,
)
    requires
        first.filters == second.filters,
    ensures
        schema.count(first, columns) == schema.count(second, columns),
{
}

impl Schema {
    /// The statement that counts the rows that `query` selects: for each
    /// of `columns`, the rows (`*`) or the values of a column, all of them
    /// or the distinct ones. The pagination of the query plays no part.
    pub fn count(&self, query: &Query, columns: &[(&str, bool)]) -> (sql: String)
        ensures
            sql@ == self@.count(query@, counted(columns@)),
    {
        let ghost all = counted(columns@);
        let mut parts: Vec<String> = Vec::new();
        let mut i: usize = 0;
        while i < columns.len()
            invariant
                i <= columns.len(),
                all == counted(columns@),
                texts(parts@) == count_terms(self@, all.take(i as int)),
            decreases columns.len() - i,
        {
            let ghost done = texts(parts@);
            proof {
                assert(all.take(i + 1).drop_last() == all.take(i as int));
                assert(all.take(i + 1).last() == (columns@[i as int].0@, columns@[i as int].1));
            }
            let key = columns[i].0;
            let distinct = columns[i].1;
            if same_text(key, "*") {
                let text = String::from_str("count(*)");
                parts.push(text);
                proof {
                    assert(texts(parts@) == done.push("count(*)"@));
                }
            } else {
                match self.get_column(key) {
                    Some(column) => {
                        let name = column.name();
                        let mut text = String::new();
                        if distinct {
                            text.append("count(distinct ");
                            text.append(name);
                            text.append(") as ");
                            text.append(name);
                            text.append("_count_distinct");
                        } else {
                            text.append("count(");
                            text.append(name);
                            text.append(") as ");
                            text.append(name);
                            text.append("_count");
                        }
                        parts.push(text);
                        proof {
                            assert(texts(parts@) == done.push(text@));
                        }
                    },
                    None => {},
                }
            }
            i += 1;
        }
        proof {
            assert(all.take(columns.len() as int) == all);
        }
        let mut sql = String::from_str("SELECT ");
        sql.append(join_strings(&parts, ",").as_str());
        sql.append(" FROM ");
        sql.append(self.table_name().as_str());
        push_spaced(&mut sql, query.format_filters(self).as_str());
        sql.append(";");
        sql
    }

    /// The statement of a template: each parameter that has a value in
    /// `params` is replaced by the value, encoded. It may affect any number
    /// of rows.
    pub fn execute(&self, query: &str, params: Option<&Object>) -> (r: Statement)
        ensures
            r.sql@ == match params {
                Some(params) => expand(query@, params@),
                None => query@,
            },
            r.expectation == Expectation::Any,
    {
        Statement { sql: format_query(query, params), expectation: Expectation::Any }
    }

    /// The statement of a template that reads rows.
    pub fn query(&self, query: &str, params: Option<&Object>) -> (sql: String)
        ensures
            sql@ == match params {
                Some(params) => expand(query@, params@),
                None => query@,
            },
    {
        format_query(query, params)
    }

    /// The statement of a template that reads one row.
    pub fn query_one(&self, query: &str, params: Option<&Object>) -> (sql: String)
        ensures
            sql@ == match params {
                Some(params) => expand(query@, params@),
                None => query@,
            },
    {
        format_query(query, params)
    }
}

// ---------------------------------------------------------------------
// Indexes
// ---------------------------------------------------------------------
/// The statement that creates the index of a column that is not a
/// full-text index. An index of kind `btree` is kept in descending order.
pub open spec fn plain_index(table: Seq<char>, column: ColumnSpec) -> Seq<char> {
    "CREATE INDEX CONCURRENTLY IF NOT EXISTS "@ + table + "_"@ + column.name + "_index ON "@
        + table + " USING "@ + column.index_type->0.name() + "("@ + column.name + (
    if column.index_type->0 is Btree {
        " DESC"@
    } else {
        Seq::empty()
    }) + ");"@
}

/// The statements for the columns that have an index other than a
/// full-text index, in the order of the columns.
pub open spec fn plain_indexes(table: Seq<char>, columns: Seq<ColumnSpec>) -> Seq<Seq<char>>
    decreases columns.len(),
{
    if columns.len() == 0 {
        Seq::empty()
    } else {
        let rest = plain_indexes(table, columns.drop_last());
        let column = columns.last();
        if column.index_type is Some && !column.index_type->0.is_text() {
            rest.push(plain_index(table, column))
        } else {
            rest
        }
    }
}

/// Whether the column has a full-text index.
pub open spec fn has_text_index(column: ColumnSpec) -> bool {
    column.index_type is Some && column.index_type->0.is_text()
}

/// The languages of the full-text indexes, each once, in the order in
/// which the columns first name them.
pub open spec fn text_languages(columns: Seq<ColumnSpec>) -> Seq<Seq<char>>
    decreases columns.len(),
{
    if columns.len() == 0 {
        Seq::empty()
    } else {
        let rest = text_languages(columns.drop_last());
        let column = columns.last();
        if has_text_index(column) && index_of(rest, column.index_type->0.language()) < 0 {
            rest.push(column.index_type->0.language())
        } else {
            rest
        }
    }
}

/// The text of each column with a full-text index in `language`, the
/// empty string standing for null, in the order of the columns.
pub open spec fn text_documents(columns: Seq<ColumnSpec>, language: Seq<char>) -> Seq<Seq<char>>
    decreases columns.len(),
{
    if columns.len() == 0 {
        Seq::empty()
    } else {
        let rest = text_documents(columns.drop_last(), language);
        let column = columns.last();
        if has_text_index(column) && column.index_type->0.language() == language {
            rest.push("coalesce("@ + column.name + ", '')"@)
        } else {
            rest
        }
    }
}

/// The statement that creates the one full-text index of a language,
/// over all the columns with a full-text index in that language.
pub open spec fn text_index(table: Seq<char>, columns: Seq<ColumnSpec>, language: Seq<char>) -> Seq<
    char,
> {
    "CREATE INDEX CONCURRENTLY IF NOT EXISTS "@ + table + "_text_search_"@ + language
        + "_index ON "@ + table + " USING gin(to_tsvector('"@ + language + "', "@ + join(
        text_documents(columns, language),
        " || ' ' || "@,
    ) + "));"@
}

/// The statements for the full-text indexes, one for each language.
pub open spec fn text_indexes(table: Seq<char>, columns: Seq<ColumnSpec>) -> Seq<Seq<char>> {
    Seq::new(
        text_languages(columns).len(),
        |i: int| text_index(table, columns, text_languages(columns)[i]),
    )
}

impl SchemaSpec {
    /// The statements of [`Schema::create_indexes`].
    pub open spec fn create_indexes(self) -> Seq<Seq<char>> {
        plain_indexes(self.table_name(), self.columns) + text_indexes(
            self.table_name(),
            self.columns,
        )
    }
}

/// The language of an index of a column, as a string.
fn language_of(index: &IndexType) -> (r: String)
    ensures
        r@ == index@.language(),
{
    match index {
        IndexType::Text(Some(language)) => language.clone(),
        _ => String::from_str("english"),
    }
}

impl Schema {
    /// The text of each column with a full-text index in `language`.
    fn documents(&self, language: &str) -> (parts: Vec<String>)
        ensures
            texts(parts@) == text_documents(self@.columns, language@),
    {
        let columns = self.columns();
        let ghost all = self@.columns;
        let mut parts: Vec<String> = Vec::new();
        let mut i: usize = 0;
        while i < columns.len()
            invariant
                i <= columns.len(),
                columns_view(columns@) == all,
                texts(parts@) == text_documents(all.take(i as int), language@),
            decreases columns.len() - i,
        {
            let ghost done = texts(parts@);
            proof {
                assert(columns_view(columns@)[i as int] == columns@[i as int]@);
                assert(all.take(i + 1).drop_last() == all.take(i as int));
                assert(all.take(i + 1).last() == columns@[i as int]@);
            }
            match columns[i].index() {
                Some(index) => {
                    let is_text = match index {
                        IndexType::Text(_) => true,
                        _ => false,
                    };
                    if is_text && same_text(language_of(index).as_str(), language) {
                        let mut text = String::from_str("coalesce(");
                        text.append(columns[i].name());
                        text.append(", '')");
                        parts.push(text);
                        proof {
                            assert(texts(parts@) == done.push(text@));
                        }
                    }
                },
                None => {},
            }
            i += 1;
        }
        proof {
            assert(all.take(columns.len() as int) == all);
        }
        parts
    }

    /// The statements that create the indexes of the model, each if there
    /// is none yet: first one for each column with an index of kind `hash`,
    /// `btree` or `gin`, in the order of the columns; then one full-text
    /// index for each language, over all the columns with a full-text index
    /// in that language.
    ///
    /// The operation executes them in order and returns the greatest number
    /// of rows that one of them affected ([`most_rows`]).
    pub fn create_indexes(&self) -> (statements: Vec<String>)
        ensures
            texts(statements@) == self@.create_indexes(),
    {
        let columns = self.columns();
        let table = self.table_name();
        let ghost all = self@.columns;
        let mut statements: Vec<String> = Vec::new();
        let mut languages: Vec<String> = Vec::new();
        let mut i: usize = 0;
        while i < columns.len()
            invariant
                i <= columns.len(),
                columns_view(columns@) == all,
                table@ == self@.table_name(),
                texts(statements@) == plain_indexes(table@, all.take(i as int)),
                texts(languages@) == text_languages(all.take(i as int)),
            decreases columns.len() - i,
        {
            let ghost done = texts(statements@);
            let ghost known = texts(languages@);
            proof {
                assert(columns_view(columns@)[i as int] == columns@[i as int]@);
                assert(all.take(i + 1).drop_last() == all.take(i as int));
                assert(all.take(i + 1).last() == columns@[i as int]@);
            }
            let column = &columns[i];
            match column.index() {
                Some(index) => {
                    match index {
                        IndexType::Text(_) => {
                            let language = language_of(index);
                            if find_text(&languages, language.as_str()).is_none() {
                                languages.push(language);
                                proof {
                                    assert(texts(languages@) == known.push(index@.language()));
                                }
                            }
                        },
                        _ => {
                            let mut sql = String::from_str(
                                "CREATE INDEX CONCURRENTLY IF NOT EXISTS ",
                            );
                            sql.append(table.as_str());
                            sql.append("_");
                            sql.append(column.name());
                            sql.append("_index ON ");
                            sql.append(table.as_str());
                            sql.append(" USING ");
                            sql.append(index.name().as_str());
                            sql.append("(");
                            sql.append(column.name());
                            let mut order = String::new();
                            match index {
                                IndexType::Btree => {
                                    order.append(" DESC");
                                    assert(order@ == " DESC"@);
                                },
                                _ => {},
                            }
                            sql.append(order.as_str());
                            sql.append(");");
                            statements.push(sql);
                            proof {
                                assert(texts(statements@) == done.push(sql@));
                            }
                        },
                    }
                },
                None => {},
            }
            i += 1;
        }
        proof {
            assert(all.take(columns.len() as int) == all);
        }
        let ghost plain = texts(statements@);
        let ghost full = text_indexes(table@, all);
        let mut k: usize = 0;
        while k < languages.len()
            invariant
                k <= languages.len(),
                all == self@.columns,
                table@ == self@.table_name(),
                texts(languages@) == text_languages(all),
                full == text_indexes(table@, all),
                texts(statements@) == plain + full.take(k as int),
            decreases languages.len() - k,
        {
            let ghost done = texts(statements@);
            let language = languages[k].as_str();
            proof {
                assert(texts(languages@)[k as int] == language@);
            }
            let mut sql = String::from_str("CREATE INDEX CONCURRENTLY IF NOT EXISTS ");
            sql.append(table.as_str());
            sql.append("_text_search_");
            sql.append(language);
            sql.append("_index ON ");
            sql.append(table.as_str());
            sql.append(" USING gin(to_tsvector('");
            sql.append(language);
            sql.append("', ");
            sql.append(join_strings(&self.documents(language), " || ' ' || ").as_str());
            sql.append("));");
            statements.push(sql);
            proof {
                assert(texts(statements@) == done.push(full[k as int]));
                assert(plain + full.take(k + 1) == (plain + full.take(k as int)).push(
                    full[k as int],
                ));
            }
            k += 1;
        }
        proof {
            assert(full.take(languages.len() as int) == full);
        }
        statements
    }
}

/// The greater of the number of rows that the statements executed so far
/// affected at most, and the number that one more statement affected.
pub fn most_rows(so_far: u64, rows_affected: u64) -> (r: u64)
    ensures
        r == if rows_affected > so_far {
            rows_affected
        } else {
            so_far
        },
{
    if rows_affected > so_far {
        rows_affected
    } else {
        so_far
    }
}

/// The contents of a sequence of rows, one for one.
pub open spec fn rows_view(rows: Seq<Object>) -> Seq<Seq<(Seq<char>, Json)>> {
    Seq::new(rows.len(), |i: int| rows[i]@)
}

} // verus!
