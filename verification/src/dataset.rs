//! The dataset model.
use vstd::prelude::*;
use crate::column::{lemma_index_names, Column, ColumnSpec, ColumnType, IndexSpec};
use crate::datetime::{rfc3339_text, DateTime};
use crate::model::{uuid_text, value_string, value_uuid, Uuid, Validation};
use crate::record::{plain_column, Record};
use crate::schema::{columns_view, is_namespace_prefix, Schema, SchemaSpec};
use crate::text::is_identifier;
use crate::value::{entries_view, lookup, values_view, Json, Object, Value};

verus! {

/// The dataset model.
#[derive(Debug)]
pub struct Dataset {
    // Basic fields.
    pub id: Uuid,
    pub name: String,
    pub namespace: String,
    pub visibility: String,
    pub status: String,
    pub description: String,
    // Info fields.
    pub project_id: Uuid,
    pub task_id: Option<Uuid>,
    pub valid_from: DateTime,
    pub expires_at: DateTime,
    pub tags: Vec<Uuid>,
    // Extensions.
    pub content: Object,
    pub metrics: Object,
    pub extras: Object,
    // Revisions.
    pub manager_id: Uuid,
    pub maintainer_id: Uuid,
    pub created_at: DateTime,
    pub updated_at: DateTime,
    pub version: u64,
    pub edition: u32,
}

/// A column of date and time whose default value is the time of the
/// insertion.
pub open spec fn time_column(name: Seq<char>) -> ColumnSpec {
    ColumnSpec { default_value: Some("now"@), ..plain_column(name, ColumnType::DateTime, false) }
}

/// The texts of a list of identifiers, one for one.
pub open spec fn uuid_items(ids: Seq<Uuid>) -> Seq<Json> {
    Seq::new(ids.len(), |i: int| Json::Text(uuid_text(ids[i].0)))
}

/// A number of 64 bits without sign as a number of a row: itself where it
/// fits in 64 bits with sign, else the greatest such number.
pub open spec fn row_number(n: u64) -> int {
    if n <= i64::MAX as u64 {
        n as int
    } else {
        i64::MAX as int
    }
}

/// The text of a date and time in a row: in UTC, with milliseconds.
pub open spec fn row_time(time: DateTime) -> Json {
    Json::Text(rfc3339_text(time@.secs, time@.nanos))
}

impl Dataset {
    /// The name of the model.
    pub open spec fn model_name() -> Seq<char> {
        "dataset"@
    }

    /// The columns of the model, for the given namespace prefix.
    pub open spec fn column_specs(namespace_prefix: Seq<char>) -> Seq<ColumnSpec> {
        seq![
            plain_column("id"@, ColumnType::Uuid, false),
            ColumnSpec {
                index_type: Some(IndexSpec::Text(None)),
                ..plain_column("name"@, ColumnType::Text, true)
            },
            ColumnSpec {
                default_value: Some(namespace_prefix + seq![':'] + "dataset"@),
                index_type: Some(IndexSpec::Hash),
                ..plain_column("namespace"@, ColumnType::Text, false)
            },
            ColumnSpec {
                default_value: Some("internal"@),
                ..plain_column("visibility"@, ColumnType::Text, false)
            },
            ColumnSpec {
                default_value: Some("active"@),
                index_type: Some(IndexSpec::Hash),
                ..plain_column("status"@, ColumnType::Text, false)
            },
            ColumnSpec {
                index_type: Some(IndexSpec::Text(None)),
                ..plain_column("description"@, ColumnType::Text, false)
            },
            plain_column("project_id"@, ColumnType::Uuid, false),
            plain_column("task_id"@, ColumnType::Uuid, false),
            time_column("valid_from"@),
            time_column("expires_at"@),
            ColumnSpec {
                index_type: Some(IndexSpec::Gin),
                ..plain_column("tags"@, ColumnType::UuidArray, false)
            },
            plain_column("content"@, ColumnType::Json, false),
            plain_column("metrics"@, ColumnType::Json, false),
            plain_column("extras"@, ColumnType::Json, false),
            plain_column("manager_id"@, ColumnType::Uuid, false),
            plain_column("maintainer_id"@, ColumnType::Uuid, false),
            ColumnSpec { index_type: Some(IndexSpec::Btree), ..time_column("created_at"@) },
            ColumnSpec { index_type: Some(IndexSpec::Btree), ..time_column("updated_at"@) },
            plain_column("version"@, ColumnType::BigInt, false),
            plain_column("edition"@, ColumnType::Int, false),
        ]
    }

    /// The descriptor of the model, for the given namespace prefix.
    pub open spec fn described(namespace_prefix: Seq<char>) -> SchemaSpec {
        Schema::assembled(
            namespace_prefix,
            Self::model_name(),
            "id"@,
            Self::column_specs(namespace_prefix),
        )
    }

    /// The descriptor of the model. `None` where `namespace_prefix` is
    /// no namespace prefix.
    pub fn schema(namespace_prefix: &str) -> (r: Option<Schema>)
        ensures
            r is Some <==> is_namespace_prefix(namespace_prefix@),
            r matches Some(schema) ==> schema@ == Self::described(namespace_prefix@),
    {
        proof {
            reveal_names();
            lemma_index_names();
        }
        let mut namespace = String::from_str(namespace_prefix);
        crate::text::push_char(&mut namespace, ':');
        namespace.append("dataset");
        assert(namespace@ == namespace_prefix@ + seq![':'] + "dataset"@);
        let mut columns: Vec<Column> = Vec::new();
        columns.push(Column::new("id", ColumnType::Uuid, false).unwrap());
        columns.push(
            Column::new("name", ColumnType::Text, true).unwrap().with_index_type("text").unwrap(),
        );
        columns.push(
            Column::new("namespace", ColumnType::Text, false).unwrap().with_default_value(
                namespace.as_str(),
            ).with_index_type("hash").unwrap(),
        );
        columns.push(
            Column::new("visibility", ColumnType::Text, false).unwrap().with_default_value(
                "internal",
            ),
        );
        columns.push(
            Column::new("status", ColumnType::Text, false).unwrap().with_default_value(
                "active",
            ).with_index_type("hash").unwrap(),
        );
        columns.push(
            Column::new("description", ColumnType::Text, false).unwrap().with_index_type(
                "text",
            ).unwrap(),
        );
        columns.push(Column::new("project_id", ColumnType::Uuid, false).unwrap());
        columns.push(Column::new("task_id", ColumnType::Uuid, false).unwrap());
        columns.push(
            Column::new("valid_from", ColumnType::DateTime, false).unwrap().with_default_value(
                "now",
            ),
        );
        columns.push(
            Column::new("expires_at", ColumnType::DateTime, false).unwrap().with_default_value(
                "now",
            ),
        );
        columns.push(
            Column::new("tags", ColumnType::UuidArray, false).unwrap().with_index_type(
                "gin",
            ).unwrap(),
        );
        columns.push(Column::new("content", ColumnType::Json, false).unwrap());
        columns.push(Column::new("metrics", ColumnType::Json, false).unwrap());
        columns.push(Column::new("extras", ColumnType::Json, false).unwrap());
        columns.push(Column::new("manager_id", ColumnType::Uuid, false).unwrap());
        columns.push(Column::new("maintainer_id", ColumnType::Uuid, false).unwrap());
        columns.push(
            Column::new("created_at", ColumnType::DateTime, false).unwrap().with_default_value(
                "now",
            ).with_index_type("btree").unwrap(),
        );
        columns.push(
            Column::new("updated_at", ColumnType::DateTime, false).unwrap().with_default_value(
                "now",
            ).with_index_type("btree").unwrap(),
        );
        columns.push(Column::new("version", ColumnType::BigInt, false).unwrap());
        columns.push(Column::new("edition", ColumnType::Int, false).unwrap());
        proof {
            let specs = Self::column_specs(namespace_prefix@);
            assert(columns@[0]@ == specs[0]);
            assert(columns@[1]@ == specs[1]);
            assert(columns@[2]@ == specs[2]);
            assert(columns@[3]@ == specs[3]);
            assert(columns@[4]@ == specs[4]);
            assert(columns@[5]@ == specs[5]);
            assert(columns@[6]@ == specs[6]);
            assert(columns@[7]@ == specs[7]);
            assert(columns@[8]@ == specs[8]);
            assert(columns@[9]@ == specs[9]);
            assert(columns@[10]@ == specs[10]);
            assert(columns@[11]@ == specs[11]);
            assert(columns@[12]@ == specs[12]);
            assert(columns@[13]@ == specs[13]);
            assert(columns@[14]@ == specs[14]);
            assert(columns@[15]@ == specs[15]);
            assert(columns@[16]@ == specs[16]);
            assert(columns@[17]@ == specs[17]);
            assert(columns@[18]@ == specs[18]);
            assert(columns@[19]@ == specs[19]);
            assert(columns_view(columns@) =~= specs);
            lemma_dataset_columns(namespace_prefix@);
        }
        Schema::new(namespace_prefix, "dataset", columns)
    }

    /// A dataset with the given identifier, made at the given time, and
    /// nothing else: the four times are that time, the other identifiers
    /// are nil, and every other field is empty or zero.
    pub fn with_identity(id: Uuid, now: DateTime) -> (r: Dataset)
        ensures
            r.id == id,
            r.valid_from == now,
            r.expires_at == now,
            r.created_at == now,
            r.updated_at == now,
            r.project_id.0 == 0,
            r.task_id is None,
            r.manager_id.0 == 0,
            r.maintainer_id.0 == 0,
            r.tags@.len() == 0,
            r.version == 0,
            r.edition == 0,
            r.name@.len() == 0,
            r.namespace@.len() == 0,
            r.visibility@.len() == 0,
            r.status@.len() == 0,
            r.description@.len() == 0,
            r.content@.len() == 0,
            r.metrics@.len() == 0,
            r.extras@.len() == 0,
    {
        Dataset {
            id,
            name: String::new(),
            namespace: String::new(),
            visibility: String::new(),
            status: String::new(),
            description: String::new(),
            project_id: Uuid::nil(),
            task_id: None,
            valid_from: now,
            expires_at: now,
            tags: Vec::new(),
            content: Object::new(),
            metrics: Object::new(),
            extras: Object::new(),
            manager_id: Uuid::nil(),
            maintainer_id: Uuid::nil(),
            created_at: now,
            updated_at: now,
            version: 0,
            edition: 0,
        }
    }

    /// The primary key: the text of the identifier.
    pub fn primary_key(&self) -> (r: String)
        ensures
            r@ == uuid_text(self.id.0),
    {
        self.id.to_text()
    }

    /// The row of the dataset: its fields under their names, in order.
    pub open spec fn row(&self) -> Seq<(Seq<char>, Json)> {
        seq![
            ("id"@, Json::Text(uuid_text(self.id.0))),
            ("name"@, Json::Text(self.name@)),
            ("namespace"@, Json::Text(self.namespace@)),
            ("visibility"@, Json::Text(self.visibility@)),
            ("status"@, Json::Text(self.status@)),
            ("description"@, Json::Text(self.description@)),
            ("project_id"@, Json::Text(uuid_text(self.project_id.0))),
            (
                "task_id"@,
                match self.task_id {
                    Some(id) => Json::Text(uuid_text(id.0)),
                    None => Json::Null,
                },
            ),
            ("valid_from"@, row_time(self.valid_from)),
            ("expires_at"@, row_time(self.expires_at)),
            ("tags"@, Json::Array(uuid_items(self.tags@))),
            ("content"@, Json::Object(self.content@)),
            ("metrics"@, Json::Object(self.metrics@)),
            ("extras"@, Json::Object(self.extras@)),
            ("manager_id"@, Json::Text(uuid_text(self.manager_id.0))),
            ("maintainer_id"@, Json::Text(uuid_text(self.maintainer_id.0))),
            ("created_at"@, row_time(self.created_at)),
            ("updated_at"@, row_time(self.updated_at)),
            ("version"@, Json::Number(row_number(self.version))),
            ("edition"@, Json::Number(self.edition as int)),
        ]
    }

    /// The row of the dataset. The times are written in UTC.
    pub fn into_map(&self) -> (r: Object)
        ensures
            r@ == self.row(),
    {
        let mut tags: Vec<Value> = Vec::new();
        let mut i: usize = 0;
        while i < self.tags.len()
            invariant
                i <= self.tags.len(),
                values_view(tags@) == uuid_items(self.tags@).take(i as int),
            decreases self.tags.len() - i,
        {
            let ghost done = values_view(tags@);
            tags.push(Value::String(self.tags[i].to_text()));
            proof {
                assert(values_view(tags@) == done.push(uuid_items(self.tags@)[i as int]));
            }
            i += 1;
        }
        proof {
            assert(uuid_items(self.tags@).take(self.tags.len() as int) == uuid_items(self.tags@));
        }
        let version: i64 = if self.version <= i64::MAX as u64 {
            self.version as i64
        } else {
            i64::MAX
        };
        let task_id = match self.task_id {
            Some(id) => Value::String(id.to_text()),
            None => Value::Null,
        };
        let mut entries: Vec<(String, Value)> = Vec::new();
        entries.push((String::from_str("id"), Value::String(self.id.to_text())));
        entries.push((String::from_str("name"), Value::String(self.name.clone())));
        entries.push((String::from_str("namespace"), Value::String(self.namespace.clone())));
        entries.push((String::from_str("visibility"), Value::String(self.visibility.clone())));
        entries.push((String::from_str("status"), Value::String(self.status.clone())));
        entries.push((String::from_str("description"), Value::String(self.description.clone())));
        entries.push((String::from_str("project_id"), Value::String(self.project_id.to_text())));
        entries.push((String::from_str("task_id"), task_id));
        entries.push(
            (String::from_str("valid_from"), Value::String(self.valid_from.to_iso_string())),
        );
        entries.push(
            (String::from_str("expires_at"), Value::String(self.expires_at.to_iso_string())),
        );
        entries.push((String::from_str("tags"), Value::Array(tags)));
        entries.push((String::from_str("content"), Value::Object(self.content.clone())));
        entries.push((String::from_str("metrics"), Value::Object(self.metrics.clone())));
        entries.push((String::from_str("extras"), Value::Object(self.extras.clone())));
        entries.push((String::from_str("manager_id"), Value::String(self.manager_id.to_text())));
        entries.push(
            (String::from_str("maintainer_id"), Value::String(self.maintainer_id.to_text())),
        );
        entries.push(
            (String::from_str("created_at"), Value::String(self.created_at.to_iso_string())),
        );
        entries.push(
            (String::from_str("updated_at"), Value::String(self.updated_at.to_iso_string())),
        );
        entries.push((String::from_str("version"), Value::Number(version)));
        entries.push((String::from_str("edition"), Value::Number(self.edition as i64)));
        proof {
            assert(entries_view(entries@) =~= self.row());
        }
        Object { entries }
    }

    /// Takes the identifier and the name from `data`, and says what is
    /// wrong with them:
    /// - a string under `id` is read as the identifier; where it denotes
    ///   none, the field `id` fails with the reason, and the identifier
    ///   stays;
    /// - a string under `name` becomes the name;
    /// - where the name is empty afterwards, the field `name` fails.
    ///
    /// No other field changes.
    pub fn read_map(&mut self, data: &Object) -> (validation: Validation)
        ensures
            final(self).id.0 == (match value_uuid(lookup(data@, "id"@)) {
                Some(Ok(id)) => id,
                _ => old(self).id.0,
            }),
            final(self).name@ == (match value_string(lookup(data@, "name"@)) {
                Some(name) => name,
                None => old(self).name@,
            }),
            validation@ == Record::failures(
                value_uuid(lookup(data@, "id"@)),
                final(self).name@,
            ),
            *final(self) == (Dataset { id: final(self).id, name: final(self).name, ..*old(self) }),
    {
        let mut validation = Validation::new();
        match Validation::parse_uuid(data.get("id")) {
            Some(Ok(id)) => {
                self.id = id;
            },
            Some(Err(message)) => {
                validation.record_fail("id", message);
            },
            None => {},
        }
        match Validation::parse_string(data.get("name")) {
            Some(name) => {
                self.name = name;
            },
            None => {},
        }
        if self.name.as_str().is_empty() {
            validation.record_fail("name", String::from_str("must be nonempty"));
        }
        validation
    }
}

/// What the names of the columns hold.
proof fn reveal_names()
    ensures
        is_identifier("id"@),
        is_identifier("name"@),
        is_identifier("namespace"@),
        is_identifier("visibility"@),
        is_identifier("status"@),
        is_identifier("description"@),
        is_identifier("project_id"@),
        is_identifier("task_id"@),
        is_identifier("valid_from"@),
        is_identifier("expires_at"@),
        is_identifier("tags"@),
        is_identifier("content"@),
        is_identifier("metrics"@),
        is_identifier("extras"@),
        is_identifier("manager_id"@),
        is_identifier("maintainer_id"@),
        is_identifier("created_at"@),
        is_identifier("updated_at"@),
        is_identifier("version"@),
        is_identifier("edition"@),
{
    reveal_strlit("id");
    reveal_strlit("name");
    reveal_strlit("namespace");
    reveal_strlit("visibility");
    reveal_strlit("status");
    reveal_strlit("description");
    reveal_strlit("project_id");
    reveal_strlit("task_id");
    reveal_strlit("valid_from");
    reveal_strlit("expires_at");
    reveal_strlit("tags");
    reveal_strlit("content");
    reveal_strlit("metrics");
    reveal_strlit("extras");
    reveal_strlit("manager_id");
    reveal_strlit("maintainer_id");
    reveal_strlit("created_at");
    reveal_strlit("updated_at");
    reveal_strlit("version");
    reveal_strlit("edition");
}

/// The columns of the dataset model make a well-formed descriptor with
/// every namespace prefix.
pub proof fn lemma_dataset_columns(namespace_prefix: Seq<char>)
    ensures
        Dataset::described(namespace_prefix).wf() <==> is_namespace_prefix(namespace_prefix),
{
    reveal_names();
    reveal_strlit("id");
    reveal_strlit("name");
    reveal_strlit("namespace");
    reveal_strlit("visibility");
    reveal_strlit("status");
    reveal_strlit("description");
    reveal_strlit("project_id");
    reveal_strlit("task_id");
    reveal_strlit("valid_from");
    reveal_strlit("expires_at");
    reveal_strlit("tags");
    reveal_strlit("content");
    reveal_strlit("metrics");
    reveal_strlit("extras");
    reveal_strlit("manager_id");
    reveal_strlit("maintainer_id");
    reveal_strlit("created_at");
    reveal_strlit("updated_at");
    reveal_strlit("version");
    reveal_strlit("edition");
    reveal_strlit("dataset");
    let schema = Dataset::described(namespace_prefix);
    let names = schema.column_names();
    assert(names[0] == "id"@);
    assert(crate::text::index_of(names, "id"@) == 0);
    assert(crate::schema::is_model_name("dataset"@));
    assert forall|i: int| 0 <= i < schema.columns.len() implies (#[trigger] schema.columns[i]).wf() by {
        assert(is_identifier(schema.columns[i].name));
    }
    assert(names[0] == "id"@ && names[0].len() == 2 && names[0][0] == 'i' && names[0][1] == 'd');
    assert(names[1] == "name"@ && names[1].len() == 4 && names[1][0] == 'n' && names[1][1] == 'a');
    assert(names[2] == "namespace"@ && names[2].len() == 9 && names[2][0] == 'n' && names[2][1] == 'a');
    assert(names[3] == "visibility"@ && names[3].len() == 10 && names[3][0] == 'v' && names[3][1] == 'i');
    assert(names[4] == "status"@ && names[4].len() == 6 && names[4][0] == 's' && names[4][1] == 't');
    assert(names[5] == "description"@ && names[5].len() == 11 && names[5][0] == 'd' && names[5][1] == 'e');
    assert(names[6] == "project_id"@ && names[6].len() == 10 && names[6][0] == 'p' && names[6][1] == 'r');
    assert(names[7] == "task_id"@ && names[7].len() == 7 && names[7][0] == 't' && names[7][1] == 'a');
    assert(names[8] == "valid_from"@ && names[8].len() == 10 && names[8][0] == 'v' && names[8][1] == 'a');
    assert(names[9] == "expires_at"@ && names[9].len() == 10 && names[9][0] == 'e' && names[9][1] == 'x');
    assert(names[10] == "tags"@ && names[10].len() == 4 && names[10][0] == 't' && names[10][1] == 'a');
    assert(names[11] == "content"@ && names[11].len() == 7 && names[11][0] == 'c' && names[11][1] == 'o');
    assert(names[12] == "metrics"@ && names[12].len() == 7 && names[12][0] == 'm' && names[12][1] == 'e');
    assert(names[13] == "extras"@ && names[13].len() == 6 && names[13][0] == 'e' && names[13][1] == 'x');
    assert(names[14] == "manager_id"@ && names[14].len() == 10 && names[14][0] == 'm' && names[14][1] == 'a');
    assert(names[15] == "maintainer_id"@ && names[15].len() == 13 && names[15][0] == 'm' && names[15][1] == 'a');
    assert(names[16] == "created_at"@ && names[16].len() == 10 && names[16][0] == 'c' && names[16][1] == 'r');
    assert(names[17] == "updated_at"@ && names[17].len() == 10 && names[17][0] == 'u' && names[17][1] == 'p');
    assert(names[18] == "version"@ && names[18].len() == 7 && names[18][0] == 'v' && names[18][1] == 'e');
    assert(names[19] == "edition"@ && names[19].len() == 7 && names[19][0] == 'e' && names[19][1] == 'd');
    assert forall|i: int, j: int| 0 <= i < j < names.len() implies names[i] != names[j] by {
        if names[i] == names[j] {
            assert(names[i].len() == names[j].len());
            assert(names[i][0] == names[j][0]);
            assert(names[i][1] == names[j][1]);
        }
    }
}

} // verus!
