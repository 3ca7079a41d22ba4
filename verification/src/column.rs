//! The descriptor of one column of a model: its name, type, nullability,
//! default value and index.
use vstd::prelude::*;
use crate::text::{check_identifier, chars_of, is_identifier, same_text};

verus! {

/// The type of the values of a column.
#[derive(Clone, Copy, Debug, PartialEq, Eq, Structural)]
pub enum ColumnType {
    Bool,
    SmallInt,
    Int,
    BigInt,
    Text,
    Uuid,
    DateTime,
    TextArray,
    UuidArray,
    Json,
}

/// The mathematical content of an [`IndexType`].
pub enum IndexSpec {
    Hash,
    Btree,
    Gin,
    /// A full-text index, with its language where one was named.
    Text(Option<Seq<char>>),
}

/// The kind of index kept on a column.
#[derive(Debug)]
pub enum IndexType {
    Hash,
    Btree,
    Gin,
    /// A full-text index, with its language where one was named.
    Text(Option<String>),
}

impl View for IndexType {
    type V = IndexSpec;

    open spec fn view(&self) -> IndexSpec {
        match self {
            IndexType::Hash => IndexSpec::Hash,
            IndexType::Btree => IndexSpec::Btree,
            IndexType::Gin => IndexSpec::Gin,
            IndexType::Text(None) => IndexSpec::Text(None),
            IndexType::Text(Some(language)) => IndexSpec::Text(Some(language@)),
        }
    }
}

/// The language that a full-text index uses where none was named.
pub open spec fn default_language() -> Seq<char> {
    "english"@
}

impl IndexSpec {
    /// An index whose parts can be written into a statement as they are.
    pub open spec fn wf(self) -> bool {
        self matches IndexSpec::Text(Some(language)) ==> is_identifier(language)
    }

    /// Whether this is a full-text index.
    pub open spec fn is_text(self) -> bool {
        self is Text
    }

    /// The language of a full-text index.
    pub open spec fn language(self) -> Seq<char> {
        match self {
            IndexSpec::Text(Some(language)) => language,
            _ => default_language(),
        }
    }

    /// The name of the index: `hash`, `btree`, `gin`, `text` or `text:`
    /// followed by the language.
    pub open spec fn name(self) -> Seq<char> {
        match self {
            IndexSpec::Hash => "hash"@,
            IndexSpec::Btree => "btree"@,
            IndexSpec::Gin => "gin"@,
            IndexSpec::Text(None) => "text"@,
            IndexSpec::Text(Some(language)) => "text:"@ + language,
        }
    }

    /// The index that `name` names, if it names one: exactly `hash`,
    /// `btree`, `gin` or `text`, or `text:` followed by a language that is an
    /// identifier.
    pub open spec fn parse(name: Seq<char>) -> Option<IndexSpec> {
        if name == "hash"@ {
            Some(IndexSpec::Hash)
        } else if name == "btree"@ {
            Some(IndexSpec::Btree)
        } else if name == "gin"@ {
            Some(IndexSpec::Gin)
        } else if name == "text"@ {
            Some(IndexSpec::Text(None))
        } else if name.len() > 5 && name.take(5) == "text:"@ && is_identifier(name.skip(5)) {
            Some(IndexSpec::Text(Some(name.skip(5))))
        } else {
            None
        }
    }
}

/// The four plain names name the four kinds of index.
pub proof fn lemma_index_names()
    ensures
        IndexSpec::parse("hash"@) == Some(IndexSpec::Hash),
        IndexSpec::parse("btree"@) == Some(IndexSpec::Btree),
        IndexSpec::parse("gin"@) == Some(IndexSpec::Gin),
        IndexSpec::parse("text"@) == Some(IndexSpec::Text(None)),
{
    reveal_strlit("hash");
    reveal_strlit("btree");
    reveal_strlit("gin");
    reveal_strlit("text");
    assert("hash"@[0] == 'h');
    assert("btree"@[0] == 'b');
    assert("gin"@[0] == 'g');
    assert("text"@[0] == 't');
}

impl IndexType {
    /// The index that `name` names, if it names one.
    pub fn parse(name: &str) -> (r: Option<IndexType>)
        ensures
            match r {
                Some(index) => IndexSpec::parse(name@) == Some(index@) && index@.wf(),
                None => IndexSpec::parse(name@) is None,
            },
    {
        if same_text(name, "hash") {
            return Some(IndexType::Hash);
        }
        if same_text(name, "btree") {
            return Some(IndexType::Btree);
        }
        if same_text(name, "gin") {
            return Some(IndexType::Gin);
        }
        if same_text(name, "text") {
            return Some(IndexType::Text(None));
        }
        let chars = chars_of(name);
        proof {
            reveal_strlit("text:");
        }
        if chars.len() > 5 && chars[0] == 't' && chars[1] == 'e' && chars[2] == 'x' && chars[3]
            == 't' && chars[4] == ':' {
            assert(name@.take(5) == "text:"@);
            let mut language = String::new();
            let mut i: usize = 5;
            while i < chars.len()
                invariant
                    5 <= i <= chars.len(),
                    chars@ == name@,
                    language@ == name@.subrange(5, i as int),
                decreases chars.len() - i,
            {
                crate::text::push_char(&mut language, chars[i]);
                i += 1;
            }
            assert(language@ == name@.skip(5));
            if check_identifier(language.as_str()) {
                return Some(IndexType::Text(Some(language)));
            }
            return None;
        }
        proof {
            if name@.len() > 5 && name@.take(5) == "text:"@ {
                assert(name@.take(5)[0] == name@[0]);
                assert(name@.take(5)[1] == name@[1]);
                assert(name@.take(5)[2] == name@[2]);
                assert(name@.take(5)[3] == name@[3]);
                assert(name@.take(5)[4] == name@[4]);
            }
        }
        None
    }

    /// The name of the index, as [`IndexSpec::name`] gives it.
    pub fn name(&self) -> (r: String)
        ensures
            r@ == self@.name(),
    {
        match self {
            IndexType::Hash => String::from_str("hash"),
            IndexType::Btree => String::from_str("btree"),
            IndexType::Gin => String::from_str("gin"),
            IndexType::Text(None) => String::from_str("text"),
            IndexType::Text(Some(language)) => {
                let mut r = String::from_str("text:");
                r.append(language.as_str());
                r
            },
        }
    }
}

impl Clone for IndexType {
    fn clone(&self) -> (r: IndexType)
        ensures
            r@ == self@,
    {
        match self {
            IndexType::Hash => IndexType::Hash,
            IndexType::Btree => IndexType::Btree,
            IndexType::Gin => IndexType::Gin,
            IndexType::Text(None) => IndexType::Text(None),
            IndexType::Text(Some(language)) => IndexType::Text(Some(language.clone())),
        }
    }
}

/// The mathematical content of a [`Column`].
pub struct ColumnSpec {
    pub name: Seq<char>,
    pub column_type: ColumnType,
    pub not_null: bool,
    pub default_value: Option<Seq<char>>,
    pub index_type: Option<IndexSpec>,
}

impl ColumnSpec {
    /// A column whose name and index can be written into a statement as
    /// they are.
    pub open spec fn wf(self) -> bool {
        &&& is_identifier(self.name)
        &&& self.index_type matches Some(index) ==> index.wf()
    }
}

/// The descriptor of one column. Its name is an identifier, and so is the
/// language of its index where it has one.
#[derive(Debug)]
pub struct Column {
    name: String,
    column_type: ColumnType,
    not_null: bool,
    default_value: Option<String>,
    index_type: Option<IndexType>,
}

impl View for Column {
    type V = ColumnSpec;

    closed spec fn view(&self) -> ColumnSpec {
        ColumnSpec {
            name: self.name@,
            column_type: self.column_type,
            not_null: self.not_null,
            default_value: match self.default_value {
                Some(value) => Some(value@),
                None => None,
            },
            index_type: match self.index_type {
                Some(index) => Some(index@),
                None => None,
            },
        }
    }
}

impl Column {
    #[verifier::type_invariant]
    spec fn inv(&self) -> bool {
        self@.wf()
    }

    /// A column of the given name and type, without default value or
    /// index. `None` where the name is not an identifier.
    pub fn new(name: &str, column_type: ColumnType, not_null: bool) -> (r: Option<Column>)
        ensures
            match r {
                Some(column) => is_identifier(name@) && column@ == (ColumnSpec {
                    name: name@,
                    column_type,
                    not_null,
                    default_value: None,
                    index_type: None,
                }),
                None => !is_identifier(name@),
            },
    {
        if check_identifier(name) {
            Some(
                Column {
                    name: String::from_str(name),
                    column_type,
                    not_null,
                    default_value: None,
                    index_type: None,
                },
            )
        } else {
            None
        }
    }

    /// The column with `value` as its default value.
    pub fn with_default_value(self, value: &str) -> (r: Column)
        ensures
            r@ == (ColumnSpec { default_value: Some(value@), ..self@ }),
    {
        proof {
            use_type_invariant(&self);
        }
        Column {
            name: self.name,
            column_type: self.column_type,
            not_null: self.not_null,
            default_value: Some(String::from_str(value)),
            index_type: self.index_type,
        }
    }

    /// The column with an index of the kind that `name` names. `None`
    /// where `name` names no kind of index.
    pub fn with_index_type(self, name: &str) -> (r: Option<Column>)
        ensures
            match r {
                Some(column) => IndexSpec::parse(name@) is Some && column@ == (ColumnSpec {
                    index_type: IndexSpec::parse(name@),
                    ..self@
                }),
                None => IndexSpec::parse(name@) is None,
            },
    {
        proof {
            use_type_invariant(&self);
        }
        match IndexType::parse(name) {
            Some(index) => Some(
                Column {
                    name: self.name,
                    column_type: self.column_type,
                    not_null: self.not_null,
                    default_value: self.default_value,
                    index_type: Some(index),
                },
            ),
            None => None,
        }
    }

    /// States that the column is well formed.
    pub fn well_formed(&self)
        ensures
            self@.wf(),
    {
        proof {
            use_type_invariant(self);
        }
    }

    /// The name.
    pub fn name(&self) -> (r: &str)
        ensures
            r@ == self@.name,
            is_identifier(r@),
    {
        proof {
            use_type_invariant(self);
        }
        self.name.as_str()
    }

    /// The type of the values.
    pub fn column_type(&self) -> (r: ColumnType)
        ensures
            r == self@.column_type,
    {
        self.column_type
    }

    /// The default value, if the column has one.
    pub fn default_value(&self) -> (r: Option<&str>)
        ensures
            match r {
                Some(value) => self@.default_value == Some(value@),
                None => self@.default_value is None,
            },
    {
        match &self.default_value {
            Some(value) => Some(value.as_str()),
            None => None,
        }
    }

    /// Whether the column refuses null.
    pub fn is_not_null(&self) -> (r: bool)
        ensures
            r == self@.not_null,
    {
        self.not_null
    }

    /// The name of the index, if the column has one: `hash`, `btree`,
    /// `gin`, `text` or `text:` followed by a language.
    pub fn index_type(&self) -> (r: Option<String>)
        ensures
            match r {
                Some(name) => self@.index_type is Some && name@ == self@.index_type->0.name(),
                None => self@.index_type is None,
            },
    {
        match &self.index_type {
            Some(index) => Some(index.name()),
            None => None,
        }
    }

    /// The index, if the column has one.
    pub fn index(&self) -> (r: Option<&IndexType>)
        ensures
            match r {
                Some(index) => self@.index_type == Some(index@) && index@.wf(),
                None => self@.index_type is None,
            },
    {
        proof {
            use_type_invariant(self);
        }
        match &self.index_type {
            Some(index) => Some(index),
            None => None,
        }
    }
}

impl Clone for Column {
    fn clone(&self) -> (r: Column)
        ensures
            r@ == self@,
    {
        proof {
            use_type_invariant(self);
        }
        Column {
            name: self.name.clone(),
            column_type: self.column_type,
            not_null: self.not_null,
            default_value: match &self.default_value {
                Some(value) => Some(value.clone()),
                None => None,
            },
            index_type: match &self.index_type {
                Some(index) => Some(index.clone()),
                None => None,
            },
        }
    }
}

} // verus!
