//! The record model.
use vstd::prelude::*;
use crate::column::{lemma_index_names, Column, ColumnSpec, ColumnType, IndexSpec};
use crate::datetime::{rfc3339_text, DateTime};
use crate::model::{uuid_text, value_string, value_uuid, Uuid, Validation};
use crate::schema::{columns_view, is_namespace_prefix, Schema, SchemaSpec};
use crate::text::is_identifier;
use crate::value::{entries_view, lookup, Json, Object, Value};

verus! {

/// The record model.
#[derive(Debug)]
pub struct Record {
    // Basic fields.
    pub id: Uuid,
    pub name: String,
    pub namespace: String,
    pub visibility: String,
    pub status: String,
    pub description: String,
    // Info fields.
    pub integrity: String,
    pub signature: String,
    pub recorded_at: DateTime,
    // Extensions.
    pub content: Object,
    pub metrics: Object,
    pub extras: Object,
}

/// A column without default value or index.
pub open spec fn plain_column(name: Seq<char>, column_type: ColumnType, not_null: bool)
    -> ColumnSpec {
    ColumnSpec { name, column_type, not_null, default_value: None, index_type: None }
}

impl Record {
    /// The name of the model.
    pub open spec fn model_name() -> Seq<char> {
        "record"@
    }

    /// The columns of the model, for the given namespace prefix.
    pub open spec fn column_specs(namespace_prefix: Seq<char>) -> Seq<ColumnSpec> {
        seq![
            plain_column("id"@, ColumnType::Uuid, false),
            ColumnSpec {
                index_type: Some(IndexSpec::Text(None)),
                ..plain_column("name"@, ColumnType::Text, true)
            },
            ColumnSpec {
                default_value: Some(namespace_prefix + seq![':'] + "record"@),
                index_type: Some(IndexSpec::Hash),
                ..plain_column("namespace"@, ColumnType::Text, false)
            },
            ColumnSpec {
                default_value: Some("internal"@),
                ..plain_column("visibility"@, ColumnType::Text, false)
            },
            ColumnSpec {
                default_value: Some("active"@),
                index_type: Some(IndexSpec::Hash),
                ..plain_column("status"@, ColumnType::Text, false)
            },
            ColumnSpec {
                index_type: Some(IndexSpec::Text(None)),
                ..plain_column("description"@, ColumnType::Text, false)
            },
            plain_column("integrity"@, ColumnType::Text, false),
            plain_column("signature"@, ColumnType::Text, false),
            ColumnSpec {
                default_value: Some("now"@),
                index_type: Some(IndexSpec::Btree),
                ..plain_column("recorded_at"@, ColumnType::DateTime, false)
            },
            plain_column("content"@, ColumnType::Json, false),
            plain_column("metrics"@, ColumnType::Json, false),
            plain_column("extras"@, ColumnType::Json, false),
        ]
    }

    /// The descriptor of the model, for the given namespace prefix.
    pub open spec fn described(namespace_prefix: Seq<char>) -> SchemaSpec {
        Schema::assembled(
            namespace_prefix,
            Self::model_name(),
            "id"@,
            Self::column_specs(namespace_prefix),
        )
    }

    /// The descriptor of the model. `None` where `namespace_prefix` is
    /// no namespace prefix.
    pub fn schema(namespace_prefix: &str) -> (r: Option<Schema>)
        ensures
            r is Some <==> is_namespace_prefix(namespace_prefix@),
            r matches Some(schema) ==> schema@ == Self::described(namespace_prefix@),
    {
        proof {
            reveal_strlit("id");
            reveal_strlit("name");
            reveal_strlit("namespace");
            reveal_strlit("visibility");
            reveal_strlit("status");
            reveal_strlit("description");
            reveal_strlit("integrity");
            reveal_strlit("signature");
            reveal_strlit("recorded_at");
            reveal_strlit("content");
            reveal_strlit("metrics");
            reveal_strlit("extras");
            reveal_strlit("record");
            lemma_index_names();
        }
        let mut namespace = String::from_str(namespace_prefix);
        crate::text::push_char(&mut namespace, ':');
        namespace.append("record");
        assert(namespace@ == namespace_prefix@ + seq![':'] + "record"@);
        let mut columns: Vec<Column> = Vec::new();
        columns.push(Column::new("id", ColumnType::Uuid, false).unwrap());
        columns.push(
            Column::new("name", ColumnType::Text, true).unwrap().with_index_type("text").unwrap(),
        );
        columns.push(
            Column::new("namespace", ColumnType::Text, false).unwrap().with_default_value(
                namespace.as_str(),
            ).with_index_type("hash").unwrap(),
        );
        columns.push(
            Column::new("visibility", ColumnType::Text, false).unwrap().with_default_value(
                "internal",
            ),
        );
        columns.push(
            Column::new("status", ColumnType::Text, false).unwrap().with_default_value(
                "active",
            ).with_index_type("hash").unwrap(),
        );
        columns.push(
            Column::new("description", ColumnType::Text, false).unwrap().with_index_type(
                "text",
            ).unwrap(),
        );
        columns.push(Column::new("integrity", ColumnType::Text, false).unwrap());
        columns.push(Column::new("signature", ColumnType::Text, false).unwrap());
        columns.push(
            Column::new("recorded_at", ColumnType::DateTime, false).unwrap().with_default_value(
                "now",
            ).with_index_type("btree").unwrap(),
        );
        columns.push(Column::new("content", ColumnType::Json, false).unwrap());
        columns.push(Column::new("metrics", ColumnType::Json, false).unwrap());
        columns.push(Column::new("extras", ColumnType::Json, false).unwrap());
        proof {
            lemma_index_names();
            let specs = Self::column_specs(namespace_prefix@);
            assert(columns@[0]@ == specs[0]);
            assert(columns@[1]@ == specs[1]);
            assert(columns@[2]@ == specs[2]);
            assert(columns@[3]@ == specs[3]);
            assert(columns@[4]@ == specs[4]);
            assert(columns@[5]@ == specs[5]);
            assert(columns@[6]@ == specs[6]);
            assert(columns@[7]@ == specs[7]);
            assert(columns@[8]@ == specs[8]);
            assert(columns@[9]@ == specs[9]);
            assert(columns@[10]@ == specs[10]);
            assert(columns@[11]@ == specs[11]);
            assert(columns_view(columns@) =~= specs);
            lemma_record_columns(namespace_prefix@);
        }
        Schema::new(namespace_prefix, "record", columns)
    }

    /// A record with the given identifier and time, and nothing else.
    pub fn with_identity(id: Uuid, recorded_at: DateTime) -> (r: Record)
        ensures
            r.id == id,
            r.recorded_at == recorded_at,
            r.name@.len() == 0,
            r.namespace@.len() == 0,
            r.visibility@.len() == 0,
            r.status@.len() == 0,
            r.description@.len() == 0,
            r.integrity@.len() == 0,
            r.signature@.len() == 0,
            r.content@.len() == 0,
            r.metrics@.len() == 0,
            r.extras@.len() == 0,
    {
        Record {
            id,
            name: String::new(),
            namespace: String::new(),
            visibility: String::new(),
            status: String::new(),
            description: String::new(),
            integrity: String::new(),
            signature: String::new(),
            recorded_at,
            content: Object::new(),
            metrics: Object::new(),
            extras: Object::new(),
        }
    }

    /// The primary key: the text of the identifier.
    pub fn primary_key(&self) -> (r: String)
        ensures
            r@ == uuid_text(self.id.0),
    {
        self.id.to_text()
    }

    /// The row of the record: its fields under their names, in order.
    pub open spec fn row(&self) -> Seq<(Seq<char>, Json)> {
        seq![
            ("id"@, Json::Text(uuid_text(self.id.0))),
            ("name"@, Json::Text(self.name@)),
            ("namespace"@, Json::Text(self.namespace@)),
            ("visibility"@, Json::Text(self.visibility@)),
            ("status"@, Json::Text(self.status@)),
            ("description"@, Json::Text(self.description@)),
            ("integrity"@, Json::Text(self.integrity@)),
            ("signature"@, Json::Text(self.signature@)),
            ("recorded_at"@, Json::Text(rfc3339_text(self.recorded_at@.secs, self.recorded_at@.nanos))),
            ("content"@, Json::Object(self.content@)),
            ("metrics"@, Json::Object(self.metrics@)),
            ("extras"@, Json::Object(self.extras@)),
        ]
    }

    /// The row of the record. The time is written in UTC.
    pub fn into_map(&self) -> (r: Object)
        ensures
            r@ == self.row(),
    {
        let mut entries: Vec<(String, Value)> = Vec::new();
        entries.push((String::from_str("id"), Value::String(self.id.to_text())));
        entries.push((String::from_str("name"), Value::String(self.name.clone())));
        entries.push((String::from_str("namespace"), Value::String(self.namespace.clone())));
        entries.push((String::from_str("visibility"), Value::String(self.visibility.clone())));
        entries.push((String::from_str("status"), Value::String(self.status.clone())));
        entries.push((String::from_str("description"), Value::String(self.description.clone())));
        entries.push((String::from_str("integrity"), Value::String(self.integrity.clone())));
        entries.push((String::from_str("signature"), Value::String(self.signature.clone())));
        entries.push(
            (String::from_str("recorded_at"), Value::String(self.recorded_at.to_iso_string())),
        );
        entries.push((String::from_str("content"), Value::Object(self.content.clone())));
        entries.push((String::from_str("metrics"), Value::Object(self.metrics.clone())));
        entries.push((String::from_str("extras"), Value::Object(self.extras.clone())));
        proof {
            assert(entries_view(entries@) =~= self.row());
        }
        Object { entries }
    }

    /// Takes the identifier and the name from `data`, and says what is
    /// wrong with them:
    /// - a string under `id` is read as the identifier; where it denotes
    ///   none, the field `id` fails with the reason, and the identifier
    ///   stays;
    /// - a string under `name` becomes the name;
    /// - where the name is empty afterwards, the field `name` fails.
    pub fn read_map(&mut self, data: &Object) -> (validation: Validation)
        ensures
            final(self).id.0 == (match value_uuid(lookup(data@, "id"@)) {
                Some(Ok(id)) => id,
                _ => old(self).id.0,
            }),
            final(self).name@ == (match value_string(lookup(data@, "name"@)) {
                Some(name) => name,
                None => old(self).name@,
            }),
            validation@ == Self::failures(
                value_uuid(lookup(data@, "id"@)),
                final(self).name@,
            ),
            final(self).namespace == old(self).namespace,
            final(self).visibility == old(self).visibility,
            final(self).status == old(self).status,
            final(self).description == old(self).description,
            final(self).integrity == old(self).integrity,
            final(self).signature == old(self).signature,
            final(self).recorded_at == old(self).recorded_at,
            final(self).content == old(self).content,
            final(self).metrics == old(self).metrics,
            final(self).extras == old(self).extras,
    {
        let mut validation = Validation::new();
        match Validation::parse_uuid(data.get("id")) {
            Some(Ok(id)) => {
                self.id = id;
            },
            Some(Err(message)) => {
                validation.record_fail("id", message);
            },
            None => {},
        }
        match Validation::parse_string(data.get("name")) {
            Some(name) => {
                self.name = name;
            },
            None => {},
        }
        if self.name.as_str().is_empty() {
            validation.record_fail("name", String::from_str("must be nonempty"));
        }
        validation
    }

    /// What is wrong with an identifier that was read and a name.
    pub open spec fn failures(id: Option<Result<u128, Seq<char>>>, name: Seq<char>) -> Seq<
        (Seq<char>, Seq<char>),
    > {
        let of_id = match id {
            Some(Err(message)) => seq![("id"@, message)],
            _ => Seq::empty(),
        };
        if name.len() == 0 {
            of_id.push(("name"@, "must be nonempty"@))
        } else {
            of_id
        }
    }
}

/// The columns of the record model make a well-formed descriptor with
/// every namespace prefix.
pub proof fn lemma_record_columns(namespace_prefix: Seq<char>)
    ensures
        Record::described(namespace_prefix).wf() <==> is_namespace_prefix(namespace_prefix),
{
    reveal_strlit("id");
    reveal_strlit("name");
    reveal_strlit("namespace");
    reveal_strlit("visibility");
    reveal_strlit("status");
    reveal_strlit("description");
    reveal_strlit("integrity");
    reveal_strlit("signature");
    reveal_strlit("recorded_at");
    reveal_strlit("content");
    reveal_strlit("metrics");
    reveal_strlit("extras");
    reveal_strlit("record");
    let schema = Record::described(namespace_prefix);
    let names = schema.column_names();
    assert(names[0] == "id"@);
    assert(crate::text::index_of(names, "id"@) == 0);
    assert(crate::schema::is_model_name("record"@));
    assert forall|i: int| 0 <= i < schema.columns.len() implies (#[trigger] schema.columns[i]).wf() by {
        assert(is_identifier(schema.columns[i].name));
    }
    assert(crate::schema::names_distinct(names));
}

} // verus!
