//! The record handed to the host for one event: an ordered mapping from field
//! names to text or numbers.

use vstd::prelude::*;

verus! {

/// A primitive value held in a record.
#[derive(Debug, PartialEq, Eq)]
pub enum FieldValue {
    Text(String),
    Number(u64),
}

/// The mathematical content of a `FieldValue`.
pub enum Value {
    Text(Seq<char>),
    Number(u64),
}

impl View for FieldValue {
    type V = Value;

    open spec fn view(&self) -> Value {
        match self {
            FieldValue::Text(text) => Value::Text(text@),
            FieldValue::Number(n) => Value::Number(*n),
        }
    }
}

/// One named field of a record.
#[derive(Debug, PartialEq, Eq)]
pub struct Field {
    pub name: String,
    pub value: FieldValue,
}

/// The mathematical content of a `Field`.
pub struct Entry {
    pub name: Seq<char>,
    pub value: Value,
}

impl View for Field {
    type V = Entry;

    open spec fn view(&self) -> Entry {
        Entry { name: self.name@, value: self.value@ }
    }
}

/// Whether position `i` of `entries` holds a field called `name`.
pub open spec fn named_at(entries: Seq<Entry>, name: Seq<char>, i: int) -> bool {
    0 <= i < entries.len() && entries[i].name == name
}

/// Whether some field of `entries` is called `name`.
pub open spec fn has_name(entries: Seq<Entry>, name: Seq<char>) -> bool {
    exists|i: int| named_at(entries, name, i)
}

/// No two fields of `entries` share a name.
pub open spec fn names_distinct(entries: Seq<Entry>) -> bool {
    forall|i: int, j: int|
        0 <= i < j < entries.len() ==> #[trigger] entries[i].name != #[trigger] entries[j].name
}

/// The value stored under `name`, if any.
pub open spec fn lookup(entries: Seq<Entry>, name: Seq<char>) -> Option<Value> {
    if has_name(entries, name) {
        Some(entries[choose|i: int| named_at(entries, name, i)].value)
    } else {
        None
    }
}

/// The entries after storing `value` under `name`: an existing field keeps
/// its place and takes the new value, a new field goes to the end.
pub open spec fn with_field(entries: Seq<Entry>, name: Seq<char>, value: Value) -> Seq<Entry> {
    if has_name(entries, name) {
        entries.update(choose|i: int| named_at(entries, name, i), Entry { name, value })
    } else {
        entries.push(Entry { name, value })
    }
}

/// Storing a field keeps names distinct.
pub proof fn lemma_with_field_keeps_names_distinct(
    entries: Seq<Entry>,
    name: Seq<char>,
    value: Value,
)
    requires
        names_distinct(entries),
    ensures
        names_distinct(with_field(entries, name, value)),
{
    let after = with_field(entries, name, value);
    if has_name(entries, name) {
        let k = choose|i: int| named_at(entries, name, i);
        assert forall|i: int, j: int| 0 <= i < j < after.len() implies #[trigger] after[i].name
            != #[trigger] after[j].name by {
            assert(after[i].name == entries[i].name);
            assert(after[j].name == entries[j].name);
        }
    } else {
        assert forall|i: int, j: int| 0 <= i < j < after.len() implies #[trigger] after[i].name
            != #[trigger] after[j].name by {
            if j == entries.len() {
                assert(!named_at(entries, name, i));
            } else {
                assert(after[i].name == entries[i].name);
                assert(after[j].name == entries[j].name);
            }
        }
    }
}

/// A field stored under a name is the one found under that name afterwards,
/// and fields under other names are found as before.
pub proof fn lemma_lookup_after_with_field(
    entries: Seq<Entry>,
    name: Seq<char>,
    value: Value,
    other: Seq<char>,
)
    requires
        names_distinct(entries),
    ensures
        lookup(with_field(entries, name, value), name) == Some(value),
        other != name ==> lookup(with_field(entries, name, value), other) == lookup(
            entries,
            other,
        ),
{
    let after = with_field(entries, name, value);
    lemma_with_field_keeps_names_distinct(entries, name, value);
    let at = if has_name(entries, name) {
        choose|i: int| named_at(entries, name, i)
    } else {
        entries.len() as int
    };
    assert(named_at(after, name, at));
    lemma_lookup_is_unique(after, name, at);
    if other != name {
        if has_name(entries, other) {
            let o = choose|i: int| named_at(entries, other, i);
            assert(named_at(after, other, o));
            lemma_lookup_is_unique(after, other, o);
        } else {
            assert forall|i: int| !named_at(after, other, i) by {
                if 0 <= i < entries.len() {
                    assert(!named_at(entries, other, i));
                }
            }
        }
    }
}

/// Where names are distinct, the field at a position that carries `name` is
/// the one that `lookup` finds.
pub proof fn lemma_lookup_is_unique(entries: Seq<Entry>, name: Seq<char>, at: int)
    requires
        names_distinct(entries),
        named_at(entries, name, at),
    ensures
        has_name(entries, name),
        (choose|i: int| named_at(entries, name, i)) == at,
        lookup(entries, name) == Some(entries[at].value),
{
    let k = choose|i: int| named_at(entries, name, i);
    assert(named_at(entries, name, k));
    if k < at {
        assert(entries[k].name != entries[at].name);
    } else if at < k {
        assert(entries[at].name != entries[k].name);
    }
}

/// An ordered mapping from field names to values, with no name used twice.
#[derive(Debug, PartialEq, Eq)]
pub struct EventRecord {
    fields: Vec<Field>,
}

impl View for EventRecord {
    type V = Seq<Entry>;

    closed spec fn view(&self) -> Seq<Entry> {
        Seq::new(self.fields@.len(), |i: int| self.fields@[i]@)
    }
}

impl EventRecord {
    #[verifier::type_invariant]
    spec fn well_formed(&self) -> bool {
        names_distinct(self@)
    }

    /// An empty record.
    pub fn new() -> (record: Self)
        ensures
            record@ == Seq::<Entry>::empty(),
    {
        let record = EventRecord { fields: Vec::new() };
        assert(record@ =~= Seq::<Entry>::empty());
        record
    }

    /// The number of fields.
    pub fn len(&self) -> (n: usize)
        ensures
            n == self@.len(),
    {
        self.fields.len()
    }

    /// The field at position `i`, in insertion order.
    pub fn field(&self, i: usize) -> (field: Option<&Field>)
        ensures
            i < self@.len() ==> field.is_some() && field.unwrap()@ == self@[i as int],
            i >= self@.len() ==> field.is_none(),
    {
        if i < self.fields.len() {
            Some(&self.fields[i])
        } else {
            None
        }
    }

    /// Stores `value` under `name`. A field of that name keeps its position
    /// and takes the new value; otherwise the field is added at the end.
    pub fn set(&mut self, name: String, value: FieldValue)
        ensures
            final(self)@ == with_field(old(self)@, name@, value@),
    {
        proof {
            use_type_invariant(&*self);
        }
        let ghost before = self@;
        let mut fields: Vec<Field> = Vec::new();
        std::mem::swap(&mut self.fields, &mut fields);
        let n = fields.len();
        let mut i: usize = 0;
        while i < n
            invariant
                i <= n,
                n == fields.len(),
                before == old(self)@,
                before =~= Seq::new(fields@.len(), |k: int| fields@[k]@),
                names_distinct(before),
                forall|k: int| 0 <= k < i ==> !named_at(before, name@, k),
            decreases n - i,
        {
            if fields[i].name == name {
                proof {
                    assert(named_at(before, name@, i as int));
                    lemma_lookup_is_unique(before, name@, i as int);
                    lemma_with_field_keeps_names_distinct(before, name@, value@);
                }
                fields.set(i, Field { name, value });
                assert(Seq::new(fields@.len(), |k: int| fields@[k]@) =~= with_field(
                    before,
                    name@,
                    value@,
                ));
                self.fields = fields;
                return ;
            }
            i += 1;
        }
        proof {
            assert(!has_name(before, name@));
            lemma_with_field_keeps_names_distinct(before, name@, value@);
        }
        fields.push(Field { name, value });
        assert(Seq::new(fields@.len(), |k: int| fields@[k]@) =~= with_field(before, name@, value@));
        self.fields = fields;
    }

    /// The value stored under `name`, if the record has such a field.
    pub fn get(&self, name: &str) -> (value: Option<&FieldValue>)
        ensures
            match value {
                Some(v) => lookup(self@, name@) == Some(v@),
                None => lookup(self@, name@).is_none(),
            },
    {
        proof {
            use_type_invariant(self);
        }
        let key = name.to_owned();
        let n = self.fields.len();
        let mut i: usize = 0;
        while i < n
            invariant
                i <= n,
                n == self.fields.len(),
                key@ == name@,
                names_distinct(self@),
                forall|k: int| 0 <= k < i ==> !named_at(self@, name@, k),
            decreases n - i,
        {
            if self.fields[i].name == key {
                proof {
                    assert(named_at(self@, name@, i as int));
                    lemma_lookup_is_unique(self@, name@, i as int);
                }
                return Some(&self.fields[i].value);
            }
            i += 1;
        }
        assert(!has_name(self@, name@));
        None
    }
}

} // verus!
