//! Mutations: the new values of fields, and how they are written as the
//! assignments of an update.
use vstd::prelude::*;
use crate::postgres::{encode_present, encoded_present};
use crate::schema::{Schema, SchemaSpec};
use crate::text::{join, join_strings, texts};
use crate::value::{put, Json, Object, Value};

verus! {

/// The assignments of a list of updates, in order. An update whose key is
/// not a column of the model is left out.
pub open spec fn update_assignments(schema: SchemaSpec, updates: Seq<(Seq<char>, Json)>) -> Seq<
    Seq<char>,
>
    decreases updates.len(),
{
    if updates.len() == 0 {
        Seq::empty()
    } else {
        let rest = update_assignments(schema, updates.drop_last());
        let key = updates.last().0;
        if schema.has_column(key) {
            rest.push(
                key + " = "@ + encoded_present(schema.column(key).column_type, updates.last().1),
            )
        } else {
            rest
        }
    }
}

/// The assignments of a list of updates, joined by commas.
pub open spec fn set_clause(schema: SchemaSpec, updates: Seq<(Seq<char>, Json)>) -> Seq<char> {
    join(update_assignments(schema, updates), ","@)
}

/// The new values of fields.
#[derive(Debug)]
pub struct Mutation {
    pub updates: Object,
}

impl View for Mutation {
    type V = Seq<(Seq<char>, Json)>;

    open spec fn view(&self) -> Seq<(Seq<char>, Json)> {
        self.updates@
    }
}

impl Mutation {
    /// A mutation that changes nothing.
    pub fn new() -> (r: Mutation)
        ensures
            r@ == Seq::<(Seq<char>, Json)>::empty(),
    {
        Mutation { updates: Object::new() }
    }

    /// Gives the field `key` the new value `value`.
    pub fn set(&mut self, key: &str, value: Value)
        ensures
            final(self)@ == put(old(self)@, key@, value@),
    {
        self.updates.insert(String::from_str(key), value);
    }

    /// The assignments for the model of `schema`, joined by commas.
    pub fn format_updates(&self, schema: &Schema) -> (r: String)
        ensures
            r@ == set_clause(schema@, self@),
    {
        let ghost updates = self@;
        let mut parts: Vec<String> = Vec::new();
        let mut i: usize = 0;
        while i < self.updates.entries.len()
            invariant
                i <= self.updates.entries.len(),
                updates == self.updates@,
                texts(parts@) == update_assignments(schema@, updates.take(i as int)),
            decreases self.updates.entries.len() - i,
        {
            let ghost done = texts(parts@);
            proof {
                assert(updates.take(i + 1).drop_last() == updates.take(i as int));
                assert(updates.take(i + 1).last() == updates[i as int]);
            }
            match schema.get_column(self.updates.entries[i].0.as_str()) {
                Some(column) => {
                    let mut text = String::from_str(column.name());
                    text.append(" = ");
                    text.append(
                        encode_present(column.column_type(), &self.updates.entries[i].1).as_str(),
                    );
                    parts.push(text);
                    proof {
                        assert(texts(parts@) == done.push(text@));
                    }
                },
                None => {},
            }
            i += 1;
        }
        proof {
            assert(updates.take(updates.len() as int) == updates);
        }
        join_strings(&parts, ",")
    }
}

} // verus!
