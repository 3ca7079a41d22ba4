//! The descriptor of a model: its names, its columns and its primary key.
//!
//! A descriptor is checked once, when it is made. Every name that it hands
//! out can be written into a statement as it is.
use vstd::prelude::*;
use crate::column::{Column, ColumnSpec};
use crate::text::{
    chars_of, index_of, is_digit, is_identifier, is_identifier_char, lemma_index_of,
    lemma_index_of_is, lemma_index_of_none, push_char, same_text,
};

verus! {

/// A character that may stand in a namespace: an identifier character or
/// a colon.
pub open spec fn is_name_char(c: char) -> bool {
    is_identifier_char(c) || c == ':'
}

/// The name of a model: not empty and made of identifier characters and
/// colons.
pub open spec fn is_model_name(s: Seq<char>) -> bool {
    &&& s.len() > 0
    &&& forall|i: int| 0 <= i < s.len() ==> is_name_char(#[trigger] s[i])
}

/// A namespace prefix: a model name that does not start with a digit.
pub open spec fn is_namespace_prefix(s: Seq<char>) -> bool {
    is_model_name(s) && !is_digit(s[0])
}

/// `s` with an underscore in place of each colon.
pub open spec fn replace_colons(s: Seq<char>) -> Seq<char> {
    Seq::new(
        s.len(),
        |i: int|
            if s[i] == ':' {
                '_'
            } else {
                s[i]
            },
    )
}

/// No name occurs twice.
pub open spec fn names_distinct(names: Seq<Seq<char>>) -> bool {
    forall|i: int, j: int| 0 <= i < j < names.len() ==> names[i] != names[j]
}

/// The mathematical content of a [`Schema`].
pub struct SchemaSpec {
    pub namespace_prefix: Seq<char>,
    pub model_name: Seq<char>,
    pub primary_key_name: Seq<char>,
    pub reader_name: Seq<char>,
    pub writer_name: Seq<char>,
    pub distribution_column: Option<Seq<char>>,
    pub columns: Seq<ColumnSpec>,
}

impl SchemaSpec {
    /// The names of the columns, in order.
    pub open spec fn column_names(self) -> Seq<Seq<char>> {
        Seq::new(self.columns.len(), |i: int| self.columns[i].name)
    }

    /// Whether the model has a column of this name.
    pub open spec fn has_column(self, name: Seq<char>) -> bool {
        index_of(self.column_names(), name) >= 0
    }

    /// The column of this name. Meant for a name that [`Self::has_column`].
    pub open spec fn column(self, name: Seq<char>) -> ColumnSpec {
        self.columns[index_of(self.column_names(), name)]
    }

    /// What holds of every descriptor: its names are well formed, its
    /// columns are well formed and differ in name, and the primary key and
    /// the distribution column are among them.
    pub open spec fn wf(self) -> bool {
        &&& is_namespace_prefix(self.namespace_prefix)
        &&& is_model_name(self.model_name)
        &&& forall|i: int| 0 <= i < self.columns.len() ==> (#[trigger] self.columns[i]).wf()
        &&& names_distinct(self.column_names())
        &&& self.has_column(self.primary_key_name)
        &&& self.distribution_column matches Some(name) ==> self.has_column(name)
    }

    /// The namespace of the model: the prefix, a colon and the model name.
    pub open spec fn model_namespace(self) -> Seq<char> {
        self.namespace_prefix + seq![':'] + self.model_name
    }

    /// The name of the model's table: the prefix, an underscore and the
    /// model name, with an underscore in place of each colon.
    pub open spec fn table_name(self) -> Seq<char> {
        replace_colons(self.namespace_prefix + seq!['_'] + self.model_name)
    }
}

/// The table name of a well-formed descriptor is an identifier.
pub proof fn lemma_table_name_is_identifier(schema: SchemaSpec)
    requires
        schema.wf(),
    ensures
        is_identifier(schema.table_name()),
{
    let joined = schema.namespace_prefix + seq!['_'] + schema.model_name;
    let name = schema.table_name();
    let n = schema.namespace_prefix.len() as int;
    assert(joined[0] == schema.namespace_prefix[0]);
    assert forall|i: int| 0 <= i < name.len() implies is_identifier_char(#[trigger] name[i]) by {
        if i < n {
            assert(joined[i] == schema.namespace_prefix[i]);
        } else if i > n {
            assert(joined[i] == schema.model_name[i - n - 1]);
        }
    }
}

/// In a well-formed descriptor, the column found under the name of the
/// column at `i` is that column.
pub proof fn lemma_column_at(schema: SchemaSpec, i: int)
    requires
        schema.wf(),
        0 <= i < schema.columns.len(),
    ensures
        index_of(schema.column_names(), schema.columns[i].name) == i,
        schema.has_column(schema.columns[i].name),
        schema.column(schema.columns[i].name) == schema.columns[i],
{
    let names = schema.column_names();
    assert(names[i] == schema.columns[i].name);
    assert forall|j: int| 0 <= j < i implies names[j] != names[i] by {}
    lemma_index_of_is(names, schema.columns[i].name, i);
}

/// The descriptor of a model.
///
/// It is made by [`Schema::new`] or [`Schema::with_primary_key`], which
/// check it, and is not changed afterwards, so every descriptor is well
/// formed ([`SchemaSpec::wf`]).
#[derive(Debug)]
pub struct Schema {
    namespace_prefix: String,
    model_name: String,
    primary_key_name: String,
    reader_name: String,
    writer_name: String,
    distribution_column: Option<String>,
    columns: Vec<Column>,
}

/// The contents of a sequence of columns, one for one.
pub open spec fn columns_view(columns: Seq<Column>) -> Seq<ColumnSpec> {
    Seq::new(columns.len(), |i: int| columns[i]@)
}

impl View for Schema {
    type V = SchemaSpec;

    closed spec fn view(&self) -> SchemaSpec {
        SchemaSpec {
            namespace_prefix: self.namespace_prefix@,
            model_name: self.model_name@,
            primary_key_name: self.primary_key_name@,
            reader_name: self.reader_name@,
            writer_name: self.writer_name@,
            distribution_column: match self.distribution_column {
                Some(name) => Some(name@),
                None => None,
            },
            columns: columns_view(self.columns@),
        }
    }
}

fn check_model_name(s: &str) -> (r: bool)
    ensures
        r == is_model_name(s@),
{
    let chars = chars_of(s);
    if chars.len() == 0 {
        return false;
    }
    let mut i: usize = 0;
    while i < chars.len()
        invariant
            i <= chars.len(),
            chars@ == s@,
            forall|j: int| 0 <= j < i ==> is_name_char(#[trigger] s@[j]),
        decreases chars.len() - i,
    {
        let c = chars[i];
        let ok = ('a' <= c && c <= 'z') || ('A' <= c && c <= 'Z') || ('0' <= c && c <= '9') || c
            == '_' || c == ':';
        if !ok {
            return false;
        }
        i += 1;
    }
    true
}

fn check_namespace_prefix(s: &str) -> (r: bool)
    ensures
        r == is_namespace_prefix(s@),
{
    if !check_model_name(s) {
        return false;
    }
    let chars = chars_of(s);
    let c = chars[0];
    !('0' <= c && c <= '9')
}

/// The position of the first column named `name`.
fn find_column(columns: &Vec<Column>, name: &str) -> (r: Option<usize>)
    ensures
        match r {
            Some(i) => i < columns@.len() && i == index_of(
                Seq::new(columns@.len(), |k: int| columns@[k]@.name),
                name@,
            ),
            None => index_of(Seq::new(columns@.len(), |k: int| columns@[k]@.name), name@) == -1,
        },
{
    let ghost names = Seq::new(columns@.len(), |k: int| columns@[k]@.name);
    let mut i: usize = 0;
    while i < columns.len()
        invariant
            i <= columns.len(),
            names == Seq::new(columns@.len(), |k: int| columns@[k]@.name),
            forall|j: int| 0 <= j < i ==> names[j] != name@,
        decreases columns.len() - i,
    {
        if same_text(columns[i].name(), name) {
            proof {
                lemma_index_of_is(names, name@, i as int);
            }
            return Some(i);
        }
        i += 1;
    }
    proof {
        lemma_index_of_none(names, name@);
    }
    None
}

fn check_names_distinct(columns: &Vec<Column>) -> (r: bool)
    ensures
        r == names_distinct(Seq::new(columns@.len(), |k: int| columns@[k]@.name)),
{
    let ghost names = Seq::new(columns@.len(), |k: int| columns@[k]@.name);
    let mut j: usize = 0;
    while j < columns.len()
        invariant
            j <= columns.len(),
            names == Seq::new(columns@.len(), |k: int| columns@[k]@.name),
            forall|a: int, b: int| 0 <= a < b < j ==> names[a] != names[b],
        decreases columns.len() - j,
    {
        let mut i: usize = 0;
        while i < j
            invariant
                i <= j < columns.len(),
                names == Seq::new(columns@.len(), |k: int| columns@[k]@.name),
                forall|a: int| 0 <= a < i ==> names[a] != names[j as int],
            decreases j - i,
        {
            if same_text(columns[i].name(), columns[j].name()) {
                assert(names[i as int] == names[j as int]);
                return false;
            }
            i += 1;
        }
        j += 1;
    }
    true
}

impl Schema {
    #[verifier::type_invariant]
    spec fn inv(&self) -> bool {
        self@.wf()
    }

    /// What a descriptor made of these parts is, with `main` as the name
    /// of both its reader and its writer and no distribution column.
    pub open spec fn assembled(
        namespace_prefix: Seq<char>,
        model_name: Seq<char>,
        primary_key_name: Seq<char>,
        columns: Seq<ColumnSpec>,
    ) -> SchemaSpec {
        SchemaSpec {
            namespace_prefix,
            model_name,
            primary_key_name,
            reader_name: "main"@,
            writer_name: "main"@,
            distribution_column: None,
            columns,
        }
    }

    /// The descriptor of a model whose primary key is the column `id`.
    /// `None` where the parts do not make a well-formed descriptor.
    pub fn new(namespace_prefix: &str, model_name: &str, columns: Vec<Column>) -> (r: Option<
        Schema,
    >)
        ensures
            match r {
                Some(schema) => schema@ == Self::assembled(
                    namespace_prefix@,
                    model_name@,
                    "id"@,
                    columns_view(columns@),
                ) && schema@.wf(),
                None => !Self::assembled(
                    namespace_prefix@,
                    model_name@,
                    "id"@,
                    columns_view(columns@),
                ).wf(),
            },
    {
        Schema::with_primary_key(namespace_prefix, model_name, "id", columns)
    }

    /// The descriptor of a model whose primary key is the column
    /// `primary_key_name`. `None` where the parts do not make a well-formed
    /// descriptor.
    pub fn with_primary_key(
        namespace_prefix: &str,
        model_name: &str,
        primary_key_name: &str,
        columns: Vec<Column>,
    ) -> (r: Option<Schema>)
        ensures
            match r {
                Some(schema) => schema@ == Self::assembled(
                    namespace_prefix@,
                    model_name@,
                    primary_key_name@,
                    columns_view(columns@),
                ) && schema@.wf(),
                None => !Self::assembled(
                    namespace_prefix@,
                    model_name@,
                    primary_key_name@,
                    columns_view(columns@),
                ).wf(),
            },
    {
        let ghost spec = Self::assembled(
            namespace_prefix@,
            model_name@,
            primary_key_name@,
            columns_view(columns@),
        );
        proof {
            assert(spec.column_names() == Seq::new(columns@.len(), |k: int| columns@[k]@.name));
        }
        if !check_namespace_prefix(namespace_prefix) || !check_model_name(model_name) {
            return None;
        }
        if !check_names_distinct(&columns) {
            return None;
        }
        if find_column(&columns, primary_key_name).is_none() {
            return None;
        }
        let mut i: usize = 0;
        while i < columns.len()
            invariant
                i <= columns.len(),
                forall|j: int| 0 <= j < i ==> (#[trigger] columns@[j])@.wf(),
            decreases columns.len() - i,
        {
            columns[i].well_formed();
            i += 1;
        }
        Some(
            Schema {
                namespace_prefix: String::from_str(namespace_prefix),
                model_name: String::from_str(model_name),
                primary_key_name: String::from_str(primary_key_name),
                reader_name: String::from_str("main"),
                writer_name: String::from_str("main"),
                distribution_column: None,
                columns,
            },
        )
    }

    /// The descriptor with `name` as the name of its reader pool.
    pub fn with_reader_name(self, name: &str) -> (r: Schema)
        ensures
            r@ == (SchemaSpec { reader_name: name@, ..self@ }),
    {
        proof {
            use_type_invariant(&self);
        }
        Schema {
            namespace_prefix: self.namespace_prefix,
            model_name: self.model_name,
            primary_key_name: self.primary_key_name,
            reader_name: String::from_str(name),
            writer_name: self.writer_name,
            distribution_column: self.distribution_column,
            columns: self.columns,
        }
    }

    /// The descriptor with `name` as the name of its writer pool.
    pub fn with_writer_name(self, name: &str) -> (r: Schema)
        ensures
            r@ == (SchemaSpec { writer_name: name@, ..self@ }),
    {
        proof {
            use_type_invariant(&self);
        }
        Schema {
            namespace_prefix: self.namespace_prefix,
            model_name: self.model_name,
            primary_key_name: self.primary_key_name,
            reader_name: self.reader_name,
            writer_name: String::from_str(name),
            distribution_column: self.distribution_column,
            columns: self.columns,
        }
    }

    /// The descriptor with the column `name` as its distribution column.
    /// `None` where the model has no column of that name.
    pub fn with_distribution_column(self, name: &str) -> (r: Option<Schema>)
        ensures
            match r {
                Some(schema) => self@.has_column(name@) && schema@ == (SchemaSpec {
                    distribution_column: Some(name@),
                    ..self@
                }),
                None => !self@.has_column(name@),
            },
    {
        proof {
            use_type_invariant(&self);
            assert(self@.column_names() == Seq::new(
                self.columns@.len(),
                |k: int| self.columns@[k]@.name,
            ));
        }
        if find_column(&self.columns, name).is_none() {
            return None;
        }
        Some(
            Schema {
                namespace_prefix: self.namespace_prefix,
                model_name: self.model_name,
                primary_key_name: self.primary_key_name,
                reader_name: self.reader_name,
                writer_name: self.writer_name,
                distribution_column: Some(String::from_str(name)),
                columns: self.columns,
            },
        )
    }

    /// The name of the model's type.
    pub fn model_name(&self) -> (r: &str)
        ensures
            r@ == self@.model_name,
    {
        self.model_name.as_str()
    }

    /// The namespace of the model: the prefix, a colon and the model name.
    pub fn model_namespace(&self) -> (r: String)
        ensures
            r@ == self@.model_namespace(),
    {
        let mut r = self.namespace_prefix.clone();
        push_char(&mut r, ':');
        r.append(self.model_name.as_str());
        r
    }

    /// The name of the model's table: the prefix, an underscore and the
    /// model name, with an underscore in place of each colon. It is an
    /// identifier.
    pub fn table_name(&self) -> (r: String)
        ensures
            r@ == self@.table_name(),
            is_identifier(r@),
    {
        proof {
            use_type_invariant(self);
            lemma_table_name_is_identifier(self@);
        }
        let mut joined = self.namespace_prefix.clone();
        push_char(&mut joined, '_');
        joined.append(self.model_name.as_str());
        let chars = chars_of(joined.as_str());
        let mut r = String::new();
        let mut i: usize = 0;
        while i < chars.len()
            invariant
                i <= chars.len(),
                r@ == replace_colons(chars@).take(i as int),
            decreases chars.len() - i,
        {
            let c = chars[i];
            if c == ':' {
                push_char(&mut r, '_');
            } else {
                push_char(&mut r, c);
            }
            i += 1;
        }
        r
    }

    /// The name of the primary key column.
    pub fn primary_key_name(&self) -> (r: &str)
        ensures
            r@ == self@.primary_key_name,
            is_identifier(r@),
    {
        proof {
            use_type_invariant(self);
            let i = index_of(self@.column_names(), self@.primary_key_name);
            lemma_index_of(self@.column_names(), self@.primary_key_name);
            assert(self@.columns[i].wf());
        }
        self.primary_key_name.as_str()
    }

    /// The name of the pool that the model reads from.
    pub fn reader_name(&self) -> (r: &str)
        ensures
            r@ == self@.reader_name,
    {
        self.reader_name.as_str()
    }

    /// The name of the pool that the model writes to.
    pub fn writer_name(&self) -> (r: &str)
        ensures
            r@ == self@.writer_name,
    {
        self.writer_name.as_str()
    }

    /// The distribution column, if the model has one.
    pub fn distribution_column(&self) -> (r: Option<&str>)
        ensures
            match r {
                Some(name) => self@.distribution_column == Some(name@) && is_identifier(name@),
                None => self@.distribution_column is None,
            },
    {
        proof {
            use_type_invariant(self);
            if let Some(name) = self@.distribution_column {
                let i = index_of(self@.column_names(), name);
                lemma_index_of(self@.column_names(), name);
                assert(self@.columns[i].wf());
            }
        }
        match &self.distribution_column {
            Some(name) => Some(name.as_str()),
            None => None,
        }
    }

    /// The columns, in order.
    pub fn columns(&self) -> (r: &Vec<Column>)
        ensures
            columns_view(r@) == self@.columns,
            self@.wf(),
    {
        proof {
            use_type_invariant(self);
        }
        &self.columns
    }

    /// The column named `key`, if the model has one.
    pub fn get_column(&self, key: &str) -> (r: Option<&Column>)
        ensures
            match r {
                Some(column) => self@.has_column(key@) && column@ == self@.column(key@)
                    && column@.name == key@ && column@.wf(),
                None => !self@.has_column(key@),
            },
    {
        proof {
            use_type_invariant(self);
            assert(self@.column_names() == Seq::new(
                self.columns@.len(),
                |k: int| self.columns@[k]@.name,
            ));
            lemma_index_of(self@.column_names(), key@);
        }
        match find_column(&self.columns, key) {
            Some(i) => {
                assert(self@.columns[i as int].wf());
                Some(&self.columns[i])
            },
            None => None,
        }
    }
}

} // verus!
