//! Queries: a filter, a sort order, a pagination and a projection, and how
//! each is written as a clause of a statement.
//!
//! One policy holds for every clause: a name that is not the name of a
//! column of the model is left out, and so is an operator that is not
//! known. What is written holds column names of the model and encoded
//! values, and nothing else of the caller's text.
use vstd::prelude::*;
use crate::column::{Column, ColumnSpec, ColumnType};
use crate::postgres::{encode_present, encoded_present};
use crate::schema::{Schema, SchemaSpec};
use crate::text::{decimal, join, join_strings, push_decimal, same_text, texts};
use crate::value::{put, put_all, values_view, Json, Object, Value};

verus! {

// ---------------------------------------------------------------------
// Filters
// ---------------------------------------------------------------------
/// The comparison that an operator of a filter stands for, if it stands
/// for one: `$eq`, `$ne`, `$lt`, `$le`, `$gt` and `$ge`.
pub open spec fn comparison(operator: Seq<char>) -> Option<Seq<char>> {
    if operator == "$eq"@ {
        Some("="@)
    } else if operator == "$ne"@ {
        Some("<>"@)
    } else if operator == "$lt"@ {
        Some("<"@)
    } else if operator == "$le"@ {
        Some("<="@)
    } else if operator == "$gt"@ {
        Some(">"@)
    } else if operator == "$ge"@ {
        Some(">="@)
    } else {
        None
    }
}

/// The items of a list, each written for a column of type `t`.
pub open spec fn list_items(t: ColumnType, items: Seq<Json>) -> Seq<Seq<char>> {
    Seq::new(items.len(), |i: int| encoded_present(t, items[i]))
}

/// The condition that one operator with its operand puts on a column, if
/// it puts one:
/// - `$in` with a list: the column is one of the items; with the empty
///   list, `FALSE`;
/// - `$nin` with a list: the column is none of the items; with the empty
///   list, `TRUE`;
/// - `$eq` and `$ne` with null: the column is, or is not, null;
/// - a comparison with any other operand;
/// - nothing for `$in` and `$nin` with an operand that is no list, and for
///   any other operator.
pub open spec fn operator_condition(
    column: ColumnSpec,
    operator: Seq<char>,
    operand: Json,
) -> Option<Seq<char>> {
    if operator == "$in"@ {
        if operand is Array {
            if operand->Array_0.len() == 0 {
                Some("FALSE"@)
            } else {
                Some(
                    column.name + " IN ("@ + join(
                        list_items(column.column_type, operand->Array_0),
                        ","@,
                    ) + ")"@,
                )
            }
        } else {
            None
        }
    } else if operator == "$nin"@ {
        if operand is Array {
            if operand->Array_0.len() == 0 {
                Some("TRUE"@)
            } else {
                Some(
                    column.name + " NOT IN ("@ + join(
                        list_items(column.column_type, operand->Array_0),
                        ","@,
                    ) + ")"@,
                )
            }
        } else {
            None
        }
    } else if operator == "$eq"@ && operand is Null {
        Some(column.name + " IS NULL"@)
    } else if operator == "$ne"@ && operand is Null {
        Some(column.name + " IS NOT NULL"@)
    } else if comparison(operator) is Some {
        Some(
            column.name + " "@ + comparison(operator)->0 + " "@ + encoded_present(
                column.column_type,
                operand,
            ),
        )
    } else {
        None
    }
}

/// The conditions that a map of operators puts on a column, in the order
/// of the map.
pub open spec fn operator_conditions(column: ColumnSpec, operators: Seq<(Seq<char>, Json)>) -> Seq<
    Seq<char>,
>
    decreases operators.len(),
{
    if operators.len() == 0 {
        Seq::empty()
    } else {
        let rest = operator_conditions(column, operators.drop_last());
        match operator_condition(column, operators.last().0, operators.last().1) {
            Some(condition) => rest.push(condition),
            None => rest,
        }
    }
}

/// The condition that the column equals `value`; for null, that it is
/// null.
pub open spec fn equality(column: ColumnSpec, value: Json) -> Seq<char> {
    if value is Null {
        column.name + " IS NULL"@
    } else {
        column.name + " = "@ + encoded_present(column.column_type, value)
    }
}

/// The conditions that one entry of a filter puts on its column: those of
/// its operators where the entry holds an object, else that the column
/// equals what the entry holds.
pub open spec fn entry_conditions(column: ColumnSpec, condition: Json) -> Seq<Seq<char>> {
    match condition {
        Json::Object(operators) => operator_conditions(column, operators),
        _ => seq![equality(column, condition)],
    }
}

/// The conditions of a filter, in the order of its entries. An entry whose
/// key is not a column of the model puts no condition.
pub open spec fn filter_conditions(schema: SchemaSpec, filters: Seq<(Seq<char>, Json)>) -> Seq<
    Seq<char>,
>
    decreases filters.len(),
{
    if filters.len() == 0 {
        Seq::empty()
    } else {
        let rest = filter_conditions(schema, filters.drop_last());
        if schema.has_column(filters.last().0) {
            rest + entry_conditions(schema.column(filters.last().0), filters.last().1)
        } else {
            rest
        }
    }
}

/// The `WHERE` clause of a filter: its conditions joined by `AND`, or
/// nothing where it has none.
pub open spec fn where_clause(schema: SchemaSpec, filters: Seq<(Seq<char>, Json)>) -> Seq<char> {
    let conditions = filter_conditions(schema, filters);
    if conditions.len() == 0 {
        Seq::empty()
    } else {
        "WHERE "@ + join(conditions, " AND "@)
    }
}

// ---------------------------------------------------------------------
// Projection, sort order and pagination
// ---------------------------------------------------------------------
/// Those of `names` that are columns of the model, in order.
pub open spec fn known_columns(schema: SchemaSpec, names: Seq<Seq<char>>) -> Seq<Seq<char>>
    decreases names.len(),
{
    if names.len() == 0 {
        Seq::empty()
    } else {
        let rest = known_columns(schema, names.drop_last());
        if schema.has_column(names.last()) {
            rest.push(names.last())
        } else {
            rest
        }
    }
}

/// The projection: the fields that are columns of the model, joined by
/// commas, or `*` where there is none.
pub open spec fn projection(schema: SchemaSpec, fields: Seq<Seq<char>>) -> Seq<char> {
    let known = known_columns(schema, fields);
    if known.len() == 0 {
        "*"@
    } else {
        join(known, ","@)
    }
}

/// The terms of a sort order: each column of the model with its
/// direction.
pub open spec fn sort_terms(schema: SchemaSpec, sort: Seq<(Seq<char>, bool)>) -> Seq<Seq<char>>
    decreases sort.len(),
{
    if sort.len() == 0 {
        Seq::empty()
    } else {
        let rest = sort_terms(schema, sort.drop_last());
        if schema.has_column(sort.last().0) {
            rest.push(
                sort.last().0 + (if sort.last().1 {
                    " DESC"@
                } else {
                    " ASC"@
                }),
            )
        } else {
            rest
        }
    }
}

/// The `ORDER BY` clause of a sort order, or nothing where it has no
/// term.
pub open spec fn order_clause(schema: SchemaSpec, sort: Seq<(Seq<char>, bool)>) -> Seq<char> {
    let terms = sort_terms(schema, sort);
    if terms.len() == 0 {
        Seq::empty()
    } else {
        "ORDER BY "@ + join(terms, ", "@)
    }
}

/// The clause of a pagination: the offset and the limit, or nothing
/// where the query has none.
pub open spec fn pagination_clause(pagination: Option<(u64, u64)>) -> Seq<char> {
    match pagination {
        Some((offset, limit)) => "OFFSET "@ + decimal(offset as nat) + " LIMIT "@ + decimal(
            limit as nat,
        ),
        None => Seq::empty(),
    }
}

/// The mathematical content of a [`Query`].
pub struct QuerySpec {
    pub fields: Seq<Seq<char>>,
    pub filters: Seq<(Seq<char>, Json)>,
    pub sort: Seq<(Seq<char>, bool)>,
    pub pagination: Option<(u64, u64)>,
}

/// What is to be read: which fields, of which rows, in which order, and
/// which part of the result.
#[derive(Debug)]
pub struct Query {
    pub fields: Vec<String>,
    pub filters: Object,
    pub sort: Vec<(String, bool)>,
    pub pagination: Option<(u64, u64)>,
}

/// The contents of a sort order, one for one.
pub open spec fn sort_view(sort: Seq<(String, bool)>) -> Seq<(Seq<char>, bool)> {
    Seq::new(sort.len(), |i: int| (sort[i].0@, sort[i].1))
}

impl View for Query {
    type V = QuerySpec;

    open spec fn view(&self) -> QuerySpec {
        QuerySpec {
            fields: texts(self.fields@),
            filters: self.filters@,
            sort: sort_view(self.sort@),
            pagination: self.pagination,
        }
    }
}

/// Appends the conditions that `operators` put on `column` to `parts`.
fn push_operator_conditions(parts: &mut Vec<String>, column: &Column, operators: &Object)
    ensures
        texts(final(parts)@) == texts(old(parts)@) + operator_conditions(column@, operators@),
{
    let ghost before = texts(parts@);
    let t = column.column_type();
    let mut i: usize = 0;
    while i < operators.entries.len()
        invariant
            i <= operators.entries.len(),
            t == column@.column_type,
            texts(parts@) == before + operator_conditions(column@, operators@.take(i as int)),
        decreases operators.entries.len() - i,
    {
        let ghost done = texts(parts@);
        proof {
            assert(operators@.take(i + 1).drop_last() == operators@.take(i as int));
            assert(operators@.take(i + 1).last() == operators@[i as int]);
        }
        let operator = operators.entries[i].0.as_str();
        let operand = &operators.entries[i].1;
        let is_in = same_text(operator, "$in");
        let is_nin = same_text(operator, "$nin");
        let mut made: Option<String> = None;
        if is_in || is_nin {
            match operand {
                Value::Array(items) => {
                    if items.len() == 0 {
                        if is_in {
                            made = Some(String::from_str("FALSE"));
                        } else {
                            made = Some(String::from_str("TRUE"));
                        }
                    } else {
                        let ghost list = list_items(t, values_view(items@));
                        let mut encoded: Vec<String> = Vec::new();
                        let mut k: usize = 0;
                        while k < items.len()
                            invariant
                                k <= items.len(),
                                list == list_items(t, values_view(items@)),
                                texts(encoded@) == list.take(k as int),
                            decreases items.len() - k,
                        {
                            let ghost so_far = texts(encoded@);
                            let item = encode_present(t, &items[k]);
                            encoded.push(item);
                            proof {
                                assert(texts(encoded@) == so_far.push(list[k as int]));
                            }
                            k += 1;
                        }
                        proof {
                            assert(list.take(items.len() as int) == list);
                        }
                        let mut text = String::from_str(column.name());
                        if is_in {
                            text.append(" IN (");
                        } else {
                            text.append(" NOT IN (");
                        }
                        text.append(join_strings(&encoded, ",").as_str());
                        text.append(")");
                        made = Some(text);
                    }
                },
                _ => {},
            }
        } else {
            let is_eq = same_text(operator, "$eq");
            let is_ne = same_text(operator, "$ne");
            let is_null = match operand {
                Value::Null => true,
                _ => false,
            };
            if is_eq && is_null {
                let mut text = String::from_str(column.name());
                text.append(" IS NULL");
                made = Some(text);
            } else if is_ne && is_null {
                let mut text = String::from_str(column.name());
                text.append(" IS NOT NULL");
                made = Some(text);
            } else {
                let sign: Option<&'static str> = if is_eq {
                    Some("=")
                } else if is_ne {
                    Some("<>")
                } else if same_text(operator, "$lt") {
                    Some("<")
                } else if same_text(operator, "$le") {
                    Some("<=")
                } else if same_text(operator, "$gt") {
                    Some(">")
                } else if same_text(operator, "$ge") {
                    Some(">=")
                } else {
                    None
                };
                match sign {
                    Some(sign) => {
                        let mut text = String::from_str(column.name());
                        text.append(" ");
                        text.append(sign);
                        text.append(" ");
                        text.append(encode_present(t, operand).as_str());
                        made = Some(text);
                    },
                    None => {},
                }
            }
        }
        proof {
            reveal_strlit("$in");
            reveal_strlit("$nin");
            reveal_strlit("$eq");
            reveal_strlit("$ne");
            reveal_strlit("$lt");
            reveal_strlit("$le");
            reveal_strlit("$gt");
            reveal_strlit("$ge");
            assert(match made {
                Some(text) => operator_condition(column@, operator@, operand@) == Some(text@),
                None => operator_condition(column@, operator@, operand@) is None,
            });
        }
        match made {
            Some(text) => {
                parts.push(text);
                proof {
                    assert(texts(parts@) == done.push(text@));
                }
            },
            None => {},
        }
        i += 1;
    }
    proof {
        assert(operators@.take(operators@.len() as int) == operators@);
    }
}

/// The condition that `column` equals `value`.
fn equality_condition(column: &Column, value: &Value) -> (r: String)
    ensures
        r@ == equality(column@, value@),
{
    let mut text = String::from_str(column.name());
    match value {
        Value::Null => {
            text.append(" IS NULL");
        },
        _ => {
            text.append(" = ");
            text.append(encode_present(column.column_type(), value).as_str());
        },
    }
    text
}

/// The conditions of `filters` for the model of `schema`, in order.
pub fn conditions(schema: &Schema, filters: &Object) -> (parts: Vec<String>)
    ensures
        texts(parts@) == filter_conditions(schema@, filters@),
{
    let mut parts: Vec<String> = Vec::new();
    let mut i: usize = 0;
    while i < filters.entries.len()
        invariant
            i <= filters.entries.len(),
            texts(parts@) == filter_conditions(schema@, filters@.take(i as int)),
        decreases filters.entries.len() - i,
    {
        let ghost done = texts(parts@);
        proof {
            assert(filters@.take(i + 1).drop_last() == filters@.take(i as int));
            assert(filters@.take(i + 1).last() == filters@[i as int]);
        }
        match schema.get_column(filters.entries[i].0.as_str()) {
            Some(column) => {
                match &filters.entries[i].1 {
                    Value::Object(operators) => {
                        push_operator_conditions(&mut parts, column, operators);
                    },
                    condition => {
                        let text = equality_condition(column, condition);
                        parts.push(text);
                        proof {
                            assert(texts(parts@) == done + seq![text@]);
                        }
                    },
                }
            },
            None => {},
        }
        i += 1;
    }
    proof {
        assert(filters@.take(filters@.len() as int) == filters@);
    }
    parts
}

/// The `WHERE` clause of `filters` for the model of `schema`.
pub fn format_conditions(schema: &Schema, filters: &Object) -> (r: String)
    ensures
        r@ == where_clause(schema@, filters@),
{
    let parts = conditions(schema, filters);
    if parts.len() == 0 {
        String::new()
    } else {
        let mut r = String::from_str("WHERE ");
        r.append(join_strings(&parts, " AND ").as_str());
        r
    }
}

impl Query {
    /// A query that reads every field of every row.
    pub fn new() -> (r: Query)
        ensures
            r@ == (QuerySpec {
                fields: Seq::empty(),
                filters: Seq::empty(),
                sort: Seq::empty(),
                pagination: None,
            }),
    {
        let r = Query {
            fields: Vec::new(),
            filters: Object::new(),
            sort: Vec::new(),
            pagination: None,
        };
        proof {
            assert(r@.fields =~= Seq::empty());
            assert(r@.sort =~= Seq::empty());
        }
        r
    }

    /// Adds a field to the projection.
    pub fn add_field(&mut self, name: &str)
        ensures
            final(self)@ == (QuerySpec { fields: old(self)@.fields.push(name@), ..old(self)@ }),
    {
        self.fields.push(String::from_str(name));
        proof {
            assert(self@.fields =~= old(self)@.fields.push(name@));
            assert(self@.sort =~= old(self)@.sort);
        }
    }

    /// Puts a condition on `key`, in place of the one it had.
    pub fn add_filter(&mut self, key: &str, condition: Value)
        ensures
            final(self)@ == (QuerySpec {
                filters: put(old(self)@.filters, key@, condition@),
                ..old(self)@
            }),
    {
        self.filters.insert(String::from_str(key), condition);
    }

    /// Puts every entry of `filters`, in order.
    pub fn append_filters(&mut self, filters: &Object)
        ensures
            final(self)@ == (QuerySpec {
                filters: put_all(old(self)@.filters, filters@),
                ..old(self)@
            }),
    {
        self.filters.append(filters);
    }

    /// Adds a term to the sort order.
    pub fn order_by(&mut self, column: &str, descending: bool)
        ensures
            final(self)@ == (QuerySpec {
                sort: old(self)@.sort.push((column@, descending)),
                ..old(self)@
            }),
    {
        self.sort.push((String::from_str(column), descending));
        proof {
            assert(self@.sort =~= old(self)@.sort.push((column@, descending)));
            assert(self@.fields =~= old(self)@.fields);
        }
    }

    /// Asks for `limit` rows after the first `offset` rows.
    pub fn set_pagination(&mut self, offset: u64, limit: u64)
        ensures
            final(self)@ == (QuerySpec { pagination: Some((offset, limit)), ..old(self)@ }),
    {
        self.pagination = Some((offset, limit));
    }

    /// The projection for the model of `schema`.
    pub fn format_fields(&self, schema: &Schema) -> (r: String)
        ensures
            r@ == projection(schema@, self@.fields),
    {
        let ghost fields = self@.fields;
        let mut known: Vec<String> = Vec::new();
        let mut i: usize = 0;
        while i < self.fields.len()
            invariant
                i <= self.fields.len(),
                fields == texts(self.fields@),
                texts(known@) == known_columns(schema@, fields.take(i as int)),
            decreases self.fields.len() - i,
        {
            let ghost done = texts(known@);
            proof {
                assert(fields.take(i + 1).drop_last() == fields.take(i as int));
                assert(fields.take(i + 1).last() == self.fields@[i as int]@);
            }
            match schema.get_column(self.fields[i].as_str()) {
                Some(column) => {
                    let name = String::from_str(column.name());
                    known.push(name);
                    proof {
                        assert(texts(known@) == done.push(self.fields@[i as int]@));
                    }
                },
                None => {},
            }
            i += 1;
        }
        proof {
            assert(fields.take(fields.len() as int) == fields);
        }
        if known.len() == 0 {
            String::from_str("*")
        } else {
            join_strings(&known, ",")
        }
    }

    /// The `WHERE` clause for the model of `schema`.
    pub fn format_filters(&self, schema: &Schema) -> (r: String)
        ensures
            r@ == where_clause(schema@, self@.filters),
    {
        format_conditions(schema, &self.filters)
    }

    /// The `ORDER BY` clause for the model of `schema`.
    pub fn format_sort(&self, schema: &Schema) -> (r: String)
        ensures
            r@ == order_clause(schema@, self@.sort),
    {
        let ghost sort = self@.sort;
        let mut terms: Vec<String> = Vec::new();
        let mut i: usize = 0;
        while i < self.sort.len()
            invariant
                i <= self.sort.len(),
                sort == sort_view(self.sort@),
                texts(terms@) == sort_terms(schema@, sort.take(i as int)),
            decreases self.sort.len() - i,
        {
            let ghost done = texts(terms@);
            proof {
                assert(sort.take(i + 1).drop_last() == sort.take(i as int));
                assert(sort.take(i + 1).last() == (self.sort@[i as int].0@, self.sort@[i as int].1));
            }
            match schema.get_column(self.sort[i].0.as_str()) {
                Some(column) => {
                    let mut term = String::from_str(column.name());
                    if self.sort[i].1 {
                        term.append(" DESC");
                    } else {
                        term.append(" ASC");
                    }
                    terms.push(term);
                    proof {
                        assert(texts(terms@) == done.push(term@));
                    }
                },
                None => {},
            }
            i += 1;
        }
        proof {
            assert(sort.take(sort.len() as int) == sort);
        }
        if terms.len() == 0 {
            String::new()
        } else {
            let mut r = String::from_str("ORDER BY ");
            r.append(join_strings(&terms, ", ").as_str());
            r
        }
    }

    /// The clause of the pagination.
    pub fn format_pagination(&self) -> (r: String)
        ensures
            r@ == pagination_clause(self@.pagination),
    {
        match self.pagination {
            Some((offset, limit)) => {
                let mut r = String::from_str("OFFSET ");
                push_decimal(&mut r, offset);
                r.append(" LIMIT ");
                push_decimal(&mut r, limit);
                r
            },
            None => String::new(),
        }
    }
}

} // verus!
