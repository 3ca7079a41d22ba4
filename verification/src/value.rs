//! Dynamically typed values and ordered key-value objects: what a row, a
//! filter or an update is made of.
use vstd::prelude::*;
use crate::text::{
    index_of, lemma_index_of, lemma_index_of_is, lemma_index_of_none, same_text,
};

verus! {

/// The mathematical content of a [`Value`].
pub enum Json {
    Null,
    Bool(bool),
    Number(int),
    Text(Seq<char>),
    Array(Seq<Json>),
    Object(Seq<(Seq<char>, Json)>),
}

/// A dynamically typed value.
#[derive(Debug)]
pub enum Value {
    Null,
    Bool(bool),
    Number(i64),
    String(String),
    Array(Vec<Value>),
    Object(Object),
}

/// A list of key-value entries in insertion order.
///
/// A key is looked up from the front, so the first entry of a key is the
/// one that counts. [`Object::insert`] never adds a second entry for a key:
/// an object built by `new` and `insert` alone has distinct keys
/// (see [`lemma_put_keeps_keys_distinct`]).
#[derive(Debug)]
pub struct Object {
    pub entries: Vec<(String, Value)>,
}

/// The content of a value.
pub open spec fn value_view(v: Value) -> Json
    decreases v,
{
    match v {
        Value::Null => Json::Null,
        Value::Bool(b) => Json::Bool(b),
        Value::Number(n) => Json::Number(n as int),
        Value::String(s) => Json::Text(s@),
        Value::Array(items) => Json::Array(values_view(items@)),
        Value::Object(object) => Json::Object(entries_view(object.entries@)),
    }
}

/// The contents of a sequence of values, one for one.
pub open spec fn values_view(items: Seq<Value>) -> Seq<Json>
    decreases items,
{
    Seq::new(
        items.len(),
        |i: int|
            if 0 <= i < items.len() {
                value_view(items[i])
            } else {
                Json::Null
            },
    )
}

/// The contents of a sequence of entries, one for one.
pub open spec fn entries_view(entries: Seq<(String, Value)>) -> Seq<(Seq<char>, Json)>
    decreases entries,
{
    Seq::new(
        entries.len(),
        |i: int|
            if 0 <= i < entries.len() {
                (entries[i].0@, value_view(entries[i].1))
            } else {
                (Seq::empty(), Json::Null)
            },
    )
}

impl View for Value {
    type V = Json;

    open spec fn view(&self) -> Json {
        value_view(*self)
    }
}

impl View for Object {
    type V = Seq<(Seq<char>, Json)>;

    open spec fn view(&self) -> Seq<(Seq<char>, Json)> {
        entries_view(self.entries@)
    }
}

/// The keys of a list of entries, one for one.
pub open spec fn keys(entries: Seq<(Seq<char>, Json)>) -> Seq<Seq<char>> {
    Seq::new(entries.len(), |i: int| entries[i].0)
}

/// The value of the first entry of `key`, if there is one.
pub open spec fn lookup(entries: Seq<(Seq<char>, Json)>, key: Seq<char>) -> Option<Json> {
    let i = index_of(keys(entries), key);
    if i >= 0 {
        Some(entries[i].1)
    } else {
        None
    }
}

/// The entries after `key` has been given `value`: the first entry of the
/// key is replaced where there is one, else a new entry is added at the end.
pub open spec fn put(entries: Seq<(Seq<char>, Json)>, key: Seq<char>, value: Json) -> Seq<
    (Seq<char>, Json),
> {
    let i = index_of(keys(entries), key);
    if i >= 0 {
        entries.update(i, (key, value))
    } else {
        entries.push((key, value))
    }
}

/// The entries after each entry of `more` has been put, in order.
pub open spec fn put_all(entries: Seq<(Seq<char>, Json)>, more: Seq<(Seq<char>, Json)>) -> Seq<
    (Seq<char>, Json),
>
    decreases more.len(),
{
    if more.len() == 0 {
        entries
    } else {
        put(put_all(entries, more.drop_last()), more.last().0, more.last().1)
    }
}

/// No key occurs twice.
pub open spec fn keys_distinct(entries: Seq<(Seq<char>, Json)>) -> bool {
    forall|i: int, j: int|
        0 <= i < j < entries.len() ==> (#[trigger] entries[i]).0 != (#[trigger] entries[j]).0
}

/// A key that has been put is found with the value it was given.
pub proof fn lemma_put_then_lookup(entries: Seq<(Seq<char>, Json)>, key: Seq<char>, value: Json)
    ensures
        lookup(put(entries, key, value), key) == Some(value),
{
    let after = put(entries, key, value);
    let i = index_of(keys(entries), key);
    lemma_index_of(keys(entries), key);
    if i >= 0 {
        assert forall|j: int| 0 <= j < i implies keys(after)[j] != key by {
            assert(keys(entries)[j] != key);
        }
        lemma_index_of_is(keys(after), key, i);
    } else {
        let n = entries.len() as int;
        assert forall|j: int| 0 <= j < n implies keys(after)[j] != key by {
            assert(keys(entries)[j] != key);
        }
        lemma_index_of_is(keys(after), key, n);
    }
}

/// Putting one key leaves what is found under every other key as it was.
pub proof fn lemma_put_keeps_others(
    entries: Seq<(Seq<char>, Json)>,
    key: Seq<char>,
    value: Json,
    other: Seq<char>,
)
    requires
        other != key,
    ensures
        lookup(put(entries, key, value), other) == lookup(entries, other),
{
    let after = put(entries, key, value);
    let i = index_of(keys(entries), key);
    let o = index_of(keys(entries), other);
    lemma_index_of(keys(entries), key);
    lemma_index_of(keys(entries), other);
    if o >= 0 {
        assert(keys(after)[o] == other);
        assert forall|j: int| 0 <= j < o implies keys(after)[j] != other by {
            assert(keys(entries)[j] != other);
        }
        lemma_index_of_is(keys(after), other, o);
    } else {
        assert forall|j: int| 0 <= j < keys(after).len() implies keys(after)[j] != other by {
            if j < entries.len() {
                assert(keys(entries)[j] != other);
            }
        }
        lemma_index_of_none(keys(after), other);
    }
}

/// Putting a key into entries with distinct keys leaves the keys distinct.
pub proof fn lemma_put_keeps_keys_distinct(
    entries: Seq<(Seq<char>, Json)>,
    key: Seq<char>,
    value: Json,
)
    requires
        keys_distinct(entries),
    ensures
        keys_distinct(put(entries, key, value)),
{
    let after = put(entries, key, value);
    let i = index_of(keys(entries), key);
    lemma_index_of(keys(entries), key);
    assert forall|a: int, b: int| 0 <= a < b < after.len() implies (#[trigger] after[a]).0 != (
    #[trigger] after[b]).0 by {
        if i >= 0 {
            assert(entries[a].0 != entries[b].0);
            assert(keys(entries)[i] == key);
        } else {
            if b < entries.len() {
                assert(entries[a].0 != entries[b].0);
            } else {
                assert(keys(entries)[a] != key);
            }
        }
    }
}

// ---------------------------------------------------------------------
// Objects
// ---------------------------------------------------------------------
impl Object {
    /// An object without entries.
    pub fn new() -> (r: Object)
        ensures
            r@ == Seq::<(Seq<char>, Json)>::empty(),
    {
        Object { entries: Vec::new() }
    }

    /// The number of entries.
    pub fn len(&self) -> (n: usize)
        ensures
            n == self@.len(),
    {
        self.entries.len()
    }

    /// Whether the object has no entry.
    pub fn is_empty(&self) -> (r: bool)
        ensures
            r == (self@.len() == 0),
    {
        self.entries.len() == 0
    }

    /// The index of the first entry of `key`.
    pub fn position(&self, key: &str) -> (r: Option<usize>)
        ensures
            match r {
                Some(i) => i < self@.len() && i == index_of(keys(self@), key@),
                None => index_of(keys(self@), key@) == -1,
            },
    {
        let mut i: usize = 0;
        while i < self.entries.len()
            invariant
                i <= self.entries.len(),
                forall|j: int| 0 <= j < i ==> keys(self@)[j] != key@,
            decreases self.entries.len() - i,
        {
            if same_text(self.entries[i].0.as_str(), key) {
                proof {
                    lemma_index_of_is(keys(self@), key@, i as int);
                }
                return Some(i);
            }
            i += 1;
        }
        proof {
            lemma_index_of_none(keys(self@), key@);
        }
        None
    }

    /// The value of the first entry of `key`, if there is one.
    pub fn get(&self, key: &str) -> (r: Option<&Value>)
        ensures
            match r {
                Some(v) => lookup(self@, key@) == Some(v@),
                None => lookup(self@, key@) is None,
            },
    {
        match self.position(key) {
            Some(i) => Some(&self.entries[i].1),
            None => None,
        }
    }

    /// Whether the object has an entry of `key`.
    pub fn contains_key(&self, key: &str) -> (r: bool)
        ensures
            r == lookup(self@, key@).is_some(),
    {
        self.position(key).is_some()
    }

    /// Gives `key` the value `value`: replaces the value of the first entry
    /// of the key, or adds an entry at the end where the key is new.
    pub fn insert(&mut self, key: String, value: Value)
        ensures
            final(self)@ == put(old(self)@, key@, value@),
    {
        match self.position(key.as_str()) {
            Some(i) => {
                self.entries.set(i, (key, value));
            },
            None => {
                self.entries.push((key, value));
            },
        }
    }

    /// Puts a copy of every entry of `more`, in order.
    pub fn append(&mut self, more: &Object)
        ensures
            final(self)@ == put_all(old(self)@, more@),
    {
        let ghost start = self@;
        let mut i: usize = 0;
        while i < more.entries.len()
            invariant
                i <= more.entries.len(),
                self@ == put_all(start, more@.take(i as int)),
            decreases more.entries.len() - i,
        {
            proof {
                assert(more@.take(i + 1).drop_last() == more@.take(i as int));
            }
            self.insert(more.entries[i].0.clone(), more.entries[i].1.clone());
            i += 1;
        }
        proof {
            assert(more@.take(more@.len() as int) == more@);
        }
    }
}

// ---------------------------------------------------------------------
// Copies
// ---------------------------------------------------------------------
impl Clone for Value {
    /// A copy with the same content.
    #[verifier::loop_isolation(false)]
    fn clone(&self) -> (r: Value)
        ensures
            r@ == self@,
        decreases self,
    {
        match self {
            Value::Null => Value::Null,
            Value::Bool(b) => Value::Bool(*b),
            Value::Number(n) => Value::Number(*n),
            Value::String(s) => Value::String(s.clone()),
            Value::Array(items) => {
                let mut copy: Vec<Value> = Vec::new();
                let mut i: usize = 0;
                while i < items.len()
                    invariant
                        i <= items.len(),
                        copy@.len() == i,
                        forall|j: int| 0 <= j < i ==> (#[trigger] copy@[j])@ == items@[j]@,
                    decreases items.len() - i,
                {
                    proof {
                        vstd::std_specs::vec::axiom_vec_index_decreases(*items, i as int);
                    }
                    copy.push(items[i].clone());
                    i += 1;
                }
                proof {
                    assert(values_view(copy@) =~= values_view(items@));
                }
                Value::Array(copy)
            },
            Value::Object(object) => {
                let mut copy: Vec<(String, Value)> = Vec::new();
                let mut i: usize = 0;
                while i < object.entries.len()
                    invariant
                        i <= object.entries.len(),
                        copy@.len() == i,
                        forall|j: int|
                            0 <= j < i ==> (#[trigger] copy@[j]).0@ == object.entries@[j].0@
                                && copy@[j].1@ == object.entries@[j].1@,
                    decreases object.entries.len() - i,
                {
                    proof {
                        vstd::std_specs::vec::axiom_vec_index_decreases(object.entries, i as int);
                    }
                    copy.push((object.entries[i].0.clone(), object.entries[i].1.clone()));
                    i += 1;
                }
                proof {
                    assert(entries_view(copy@) =~= entries_view(object.entries@));
                }
                Value::Object(Object { entries: copy })
            },
        }
    }
}

impl Clone for Object {
    /// A copy with the same entries.
    fn clone(&self) -> (r: Object)
        ensures
            r@ == self@,
    {
        let mut copy: Vec<(String, Value)> = Vec::new();
        let mut i: usize = 0;
        while i < self.entries.len()
            invariant
                i <= self.entries.len(),
                copy@.len() == i,
                forall|j: int|
                    0 <= j < i ==> (#[trigger] copy@[j]).0@ == self.entries@[j].0@ && copy@[j].1@
                        == self.entries@[j].1@,
            decreases self.entries.len() - i,
        {
            copy.push((self.entries[i].0.clone(), self.entries[i].1.clone()));
            i += 1;
        }
        proof {
            assert(entries_view(copy@) =~= entries_view(self.entries@));
        }
        Object { entries: copy }
    }
}

} // verus!
