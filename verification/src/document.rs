//! The document model that is passed through to the store, and the resource
//! paths under which the store knows databases and documents.

use vstd::prelude::*;
use vstd::string::*;
use crate::text::join2;

verus! {

/// What a field of a document can hold. A floating-point number is kept by
/// the bits of its IEEE 754 double representation.
#[derive(Debug, Clone, PartialEq, Eq)]
pub enum ValueType {
    NullValue,
    BooleanValue(bool),
    IntegerValue(i64),
    DoubleBits(u64),
    StringValue(String),
    BytesValue(Vec<u8>),
    ReferenceValue(String),
}

/// The value of a field; `None` where the store sent a value of no known kind.
#[derive(Debug, Clone, PartialEq, Eq)]
pub struct Value {
    pub value_type: Option<ValueType>,
}

/// The failure of a call to the store: a status code and a message.
#[derive(Debug, Clone, PartialEq, Eq)]
pub struct Status {
    pub code: i32,
    pub message: String,
}

/// Whether `entries` has a field named `key`.
pub open spec fn has_key(entries: Seq<(Seq<char>, Value)>, key: Seq<char>) -> bool {
    exists|i: int| 0 <= i < entries.len() && (#[trigger] entries[i]).0 == key
}

/// The place of the field named `key`, where there is one.
pub open spec fn key_index(entries: Seq<(Seq<char>, Value)>, key: Seq<char>) -> int {
    choose|i: int| 0 <= i < entries.len() && (#[trigger] entries[i]).0 == key
}

/// No two fields have the same name.
pub open spec fn distinct_keys(entries: Seq<(Seq<char>, Value)>) -> bool {
    forall|i: int, j: int|
        0 <= i < j < entries.len() ==> (#[trigger] entries[i]).0 != (#[trigger] entries[j]).0
}

/// `entries` after the field `key` was set to `value`: the field is replaced
/// where there is one of that name, and added at the end where there is none.
pub open spec fn with_field(entries: Seq<(Seq<char>, Value)>, key: Seq<char>, value: Value) -> Seq<
    (Seq<char>, Value),
> {
    if has_key(entries, key) {
        entries.update(key_index(entries, key), (key, value))
    } else {
        entries.push((key, value))
    }
}

/// The value of the field named `key`, where there is one.
pub open spec fn field_value(entries: Seq<(Seq<char>, Value)>, key: Seq<char>) -> Option<Value> {
    if has_key(entries, key) {
        Some(entries[key_index(entries, key)].1)
    } else {
        None
    }
}

/// Setting a field makes it the value under its name, keeps every other
/// field as it was, and keeps the names distinct.
pub proof fn lemma_with_field(entries: Seq<(Seq<char>, Value)>, key: Seq<char>, value: Value)
    requires
        distinct_keys(entries),
    ensures
        distinct_keys(with_field(entries, key, value)),
        field_value(with_field(entries, key, value), key) == Some(value),
        forall|other: Seq<char>|
            other != key ==> #[trigger] field_value(with_field(entries, key, value), other)
                == field_value(entries, other),
{
    let after = with_field(entries, key, value);
    let at = if has_key(entries, key) {
        key_index(entries, key)
    } else {
        entries.len() as int
    };
    assert(after[at] == (key, value));
    assert forall|i: int| 0 <= i < after.len() && i != at implies #[trigger] after[i] == entries[i]
        && after[i].0 != key by {}
    assert forall|i: int, j: int| 0 <= i < j < after.len() implies (#[trigger] after[i]).0 != (
    #[trigger] after[j]).0 by {
        if i != at && j != at {
            assert(entries[i].0 != entries[j].0);
        }
    }
    assert(has_key(after, key));
    let found = key_index(after, key);
    if found != at {
        assert(after[found].0 != key);
    }
    assert forall|other: Seq<char>| other != key implies #[trigger] field_value(after, other)
        == field_value(entries, other) by {
        if has_key(entries, other) {
            let i = key_index(entries, other);
            assert(after[i] == entries[i]);
            assert(has_key(after, other));
            let j = key_index(after, other);
            assert(after[j] == entries[j]);
            if i < j {
                assert(entries[i].0 != entries[j].0);
            } else if j < i {
                assert(entries[j].0 != entries[i].0);
            }
        } else if has_key(after, other) {
            let j = key_index(after, other);
            assert(after[j] == entries[j]);
            assert(entries[j].0 == other);
        }
    }
}

/// The names of the fields, in their order.
pub open spec fn key_list(entries: Seq<(Seq<char>, Value)>) -> Seq<Seq<char>> {
    Seq::new(entries.len(), |i: int| entries[i].0)
}

/// A list of owned strings by their characters.
pub open spec fn strings_view(strings: Seq<String>) -> Seq<Seq<char>> {
    Seq::new(strings.len(), |i: int| strings[i]@)
}

/// A list of owned fields, with each name by its characters.
pub open spec fn fields_view(entries: Seq<(String, Value)>) -> Seq<(Seq<char>, Value)> {
    Seq::new(entries.len(), |i: int| (entries[i].0@, entries[i].1))
}

/// The fields of a document: values under names, no name twice, in the
/// order in which the names were first set.
#[derive(Debug, PartialEq, Eq)]
pub struct Fields {
    entries: Vec<(String, Value)>,
}

impl Fields {
    #[verifier::type_invariant]
    spec fn no_name_twice(&self) -> bool {
        distinct_keys(self@)
    }

    /// The fields, with each name by its characters.
    pub closed spec fn view(&self) -> Seq<(Seq<char>, Value)> {
        fields_view(self.entries@)
    }

    /// No fields.
    pub fn new() -> (fields: Self)
        ensures
            fields@ == Seq::<(Seq<char>, Value)>::empty(),
    {
        let fields = Fields { entries: Vec::new() };
        assert(fields@ =~= Seq::<(Seq<char>, Value)>::empty());
        fields
    }

    /// The number of fields. No two of them have the same name.
    pub fn len(&self) -> (n: usize)
        ensures
            n == self@.len(),
            distinct_keys(self@),
    {
        proof {
            use_type_invariant(self);
        }
        self.entries.len()
    }

    fn position(&self, key: &String) -> (found: Option<usize>)
        ensures
            found is Some <==> has_key(self@, key@),
            found matches Some(i) ==> i < self@.len() && self@[i as int].0 == key@ && key_index(
                self@,
                key@,
            ) == i,
    {
        proof {
            use_type_invariant(self);
        }
        let mut i: usize = 0;
        while i < self.entries.len()
            invariant
                i <= self.entries@.len(),
                self@.len() == self.entries@.len(),
                distinct_keys(self@),
                forall|k: int| 0 <= k < i ==> (#[trigger] self@[k]).0 != key@,
            decreases self.entries@.len() - i,
        {
            if self.entries[i].0 == *key {
                proof {
                    assert(self@[i as int].0 == key@);
                    let c = key_index(self@, key@);
                    assert(0 <= c < self@.len() && self@[c].0 == key@);
                    if c < i {
                        assert(self@[c].0 != self@[i as int].0);
                    } else if c > i {
                        assert(self@[i as int].0 != self@[c].0);
                    }
                }
                return Some(i);
            }
            i += 1;
        }
        None
    }

    /// The value of the field named `key`.
    pub fn get(&self, key: &String) -> (value: Option<&Value>)
        ensures
            value is Some <==> has_key(self@, key@),
            value matches Some(v) ==> field_value(self@, key@) == Some(*v),
    {
        match self.position(key) {
            Some(i) => Some(&self.entries[i].1),
            None => None,
        }
    }

    /// Sets the field named `key` to `value`.
    pub fn insert(&mut self, key: String, value: Value)
        ensures
            final(self)@ == with_field(old(self)@, key@, value),
    {
        proof {
            use_type_invariant(&*self);
        }
        let ghost before = self@;
        let ghost name = key@;
        let found = self.position(&key);
        let mut taken = Fields { entries: Vec::new() };
        std::mem::swap(self, &mut taken);
        let mut entries = taken.entries;
        match found {
            Some(i) => {
                entries.set(i, (key, value));
            },
            None => {
                entries.push((key, value));
            },
        }
        proof {
            let after = fields_view(entries@);
            if found is Some {
                assert(after =~= before.update(found.unwrap() as int, (name, value)));
            } else {
                assert(after =~= before.push((name, value)));
                assert(forall|k: int| 0 <= k < before.len() ==> (#[trigger] before[k]).0 != name);
            }
            assert forall|i: int, j: int| 0 <= i < j < after.len() implies (#[trigger] after[i]).0 != (
            #[trigger] after[j]).0 by {
                if j < before.len() {
                    assert(before[i].0 != before[j].0);
                }
            }
        }
        *self = Fields { entries };
    }

    /// The names of the fields, in their order: each name once, and no name
    /// that is not that of a field.
    pub fn keys(&self) -> (names: Vec<String>)
        ensures
            strings_view(names@) == key_list(self@),
            names@.len() == self@.len(),
            forall|key: Seq<char>| has_key(self@, key) <==> strings_view(names@).contains(key),
            strings_view(names@).no_duplicates(),
    {
        proof {
            use_type_invariant(self);
        }
        let mut names: Vec<String> = Vec::new();
        let mut i: usize = 0;
        while i < self.entries.len()
            invariant
                i <= self.entries@.len(),
                self@.len() == self.entries@.len(),
                names@.len() == i,
                forall|k: int| 0 <= k < i ==> (#[trigger] names@[k])@ == self@[k].0,
            decreases self.entries@.len() - i,
        {
            names.push(self.entries[i].0.clone());
            i += 1;
        }
        proof {
            let listed = strings_view(names@);
            assert(listed =~= key_list(self@));
            assert forall|key: Seq<char>| has_key(self@, key) <==> listed.contains(key) by {
                if has_key(self@, key) {
                    let k = key_index(self@, key);
                    assert(listed[k] == key);
                }
                if listed.contains(key) {
                    let k = choose|k: int| 0 <= k < listed.len() && listed[k] == key;
                    assert(self@[k].0 == key);
                }
            }
            assert forall|a: int, b: int| 0 <= a < listed.len() && 0 <= b < listed.len() && a
                != b implies listed[a] != listed[b] by {
                if a < b {
                    assert(self@[a].0 != self@[b].0);
                } else {
                    assert(self@[b].0 != self@[a].0);
                }
            }
        }
        names
    }
}

/// A document of the store: its resource name and its fields.
#[derive(Debug, PartialEq, Eq)]
pub struct Document {
    pub name: String,
    pub fields: Fields,
}

/// A document, or the failure of the call that should have returned it.
pub type DocumentResult = Result<Document, Status>;

/// The resource path of the default database of a project.
pub open spec fn database_path(project_id: Seq<char>) -> Seq<char> {
    "projects/"@ + project_id + "/databases/(default)"@
}

/// The resource path below which the documents of a project live.
pub open spec fn documents_root(project_id: Seq<char>) -> Seq<char> {
    database_path(project_id) + "/documents"@
}

/// The resource name of the document at `document_path`.
pub open spec fn document_name(project_id: Seq<char>, document_path: Seq<char>) -> Seq<char> {
    documents_root(project_id) + "/"@ + document_path
}

/// The resource path under which a query runs: the documents of the project,
/// or the document `parent` among them.
pub open spec fn query_parent(project_id: Seq<char>, parent: Seq<char>) -> Seq<char> {
    if parent.len() > 0 {
        documents_root(project_id) + "/"@ + parent
    } else {
        documents_root(project_id)
    }
}

/// Writes [`database_path`].
pub fn write_database_path(project_id: &str) -> (path: String)
    ensures
        path@ == database_path(project_id@),
{
    let mut path = join2("projects/", project_id);
    path.append("/databases/(default)");
    path
}

/// Writes [`documents_root`].
pub fn write_documents_root(project_id: &str) -> (path: String)
    ensures
        path@ == documents_root(project_id@),
{
    let mut path = write_database_path(project_id);
    path.append("/documents");
    path
}

/// Writes [`document_name`].
pub fn write_document_name(project_id: &str, document_path: &str) -> (name: String)
    ensures
        name@ == document_name(project_id@, document_path@),
{
    let mut name = write_documents_root(project_id);
    name.append("/");
    name.append(document_path);
    name
}

/// Writes [`query_parent`].
pub fn write_query_parent(project_id: &str, parent: &str) -> (path: String)
    ensures
        path@ == query_parent(project_id@, parent@),
{
    let mut path = write_documents_root(project_id);
    if !parent.is_empty() {
        path.append("/");
        path.append(parent);
    }
    path
}

} // verus!
