//! A JSON value model: the plain data that the runtime's logic reads from JSON
//! payloads (hook calls, tool arguments, provider bodies).

use vstd::prelude::*;
use crate::text::{owned, str_eq};

verus! {

/// A JSON value. Numbers keep their JSON text, so conversion from and to a JSON
/// library value loses nothing. Object entries keep their order.
#[derive(Debug)]
pub enum JsonValue {
    Null,
    Bool(bool),
    Number(String),
    Str(String),
    Array(Vec<JsonValue>),
    Object(Vec<(String, JsonValue)>),
}

/// The value stored under `key` in an entry list, looking from index `i` on;
/// the first entry with that key wins.
pub open spec fn lookup_from(entries: Seq<(String, JsonValue)>, key: Seq<char>, i: int) -> Option<
    JsonValue,
>
    decreases entries.len() - i,
{
    if i < 0 || i >= entries.len() {
        None
    } else if entries[i].0@ == key {
        Some(entries[i].1)
    } else {
        lookup_from(entries, key, i + 1)
    }
}

/// The value stored under `key` in an entry list.
pub open spec fn lookup(entries: Seq<(String, JsonValue)>, key: Seq<char>) -> Option<JsonValue> {
    lookup_from(entries, key, 0)
}

/// `v[key]` for objects, `None` otherwise.
pub open spec fn json_get(v: JsonValue, key: Seq<char>) -> Option<JsonValue> {
    match v {
        JsonValue::Object(entries) => lookup(entries@, key),
        _ => None,
    }
}

/// The string held by a JSON string value.
pub open spec fn json_str(v: Option<JsonValue>) -> Option<Seq<char>> {
    match v {
        Some(JsonValue::Str(s)) => Some(s@),
        _ => None,
    }
}

/// The boolean held by a JSON boolean value.
pub open spec fn json_bool(v: Option<JsonValue>) -> Option<bool> {
    match v {
        Some(JsonValue::Bool(b)) => Some(b),
        _ => None,
    }
}

/// The string under `key` of an object value.
pub open spec fn json_str_field(v: JsonValue, key: Seq<char>) -> Option<Seq<char>> {
    json_str(json_get(v, key))
}

/// The entries of an object value (empty for other values).
pub open spec fn entries_of(v: JsonValue) -> Seq<(String, JsonValue)> {
    match v {
        JsonValue::Object(e) => e@,
        _ => seq![],
    }
}

/// Entry list with the first entry for `key` replaced by `value`, or `(key, value)`
/// appended when the key is absent.
pub open spec fn upsert_entries(entries: Seq<(String, JsonValue)>, key: String, value: JsonValue) -> Seq<
    (String, JsonValue),
>
    decreases entries.len(),
{
    if entries.len() == 0 {
        seq![(key, value)]
    } else if entries[0].0@ == key@ {
        seq![(key, value)] + entries.drop_first()
    } else {
        seq![entries[0]] + upsert_entries(entries.drop_first(), key, value)
    }
}

/// An object entry `key: "text"`.
pub open spec fn str_entry(e: (String, JsonValue), key: Seq<char>, text: Seq<char>) -> bool {
    e.0@ == key && (e.1 matches JsonValue::Str(s) && s@ == text)
}

/// An object entry `key: b`.
pub open spec fn bool_entry(e: (String, JsonValue), key: Seq<char>, b: bool) -> bool {
    e.0@ == key && e.1 == JsonValue::Bool(b)
}

/// The empty object `{}`.
pub open spec fn is_empty_object(v: JsonValue) -> bool {
    v is Object && entries_of(v).len() == 0
}

proof fn lemma_lookup_from_shift(entries: Seq<(String, JsonValue)>, key: Seq<char>, i: int)
    requires
        0 <= i < entries.len(),
    ensures
        lookup_from(entries, key, i + 1) == lookup_from(entries.drop_first(), key, i),
    decreases entries.len() - i,
{
    if i + 1 < entries.len() {
        if entries[i + 1].0@ != key {
            lemma_lookup_from_shift(entries, key, i + 1);
        }
    }
}

impl JsonValue {
    /// `self[key]`: the value under `key` when `self` is an object holding it.
    pub fn get(&self, key: &str) -> (r: Option<&JsonValue>)
        ensures
            r matches Some(v) ==> json_get(*self, key@) == Some(*v),
            r is None ==> json_get(*self, key@) is None,
    {
        match self {
            JsonValue::Object(entries) => {
                let mut i: usize = 0;
                while i < entries.len()
                    invariant
                        i <= entries@.len(),
                        json_get(*self, key@) == lookup(entries@, key@),
                        lookup(entries@, key@) == lookup_from(entries@, key@, i as int),
                    decreases entries@.len() - i,
                {
                    if str_eq(entries[i].0.as_str(), key) {
                        assert(lookup_from(entries@, key@, i as int) == Some(entries@[i as int].1));
                        return Some(&entries[i].1);
                    }
                    i = i + 1;
                }
                None
            },
            _ => None,
        }
    }

    /// The string held by this value, if it is a JSON string.
    pub fn as_str(&self) -> (r: Option<&String>)
        ensures
            r matches Some(s) ==> json_str(Some(*self)) == Some(s@),
            r is None ==> json_str(Some(*self)) is None,
    {
        match self {
            JsonValue::Str(s) => Some(s),
            _ => None,
        }
    }

    /// The boolean held by this value, if it is a JSON boolean.
    pub fn as_bool(&self) -> (r: Option<bool>)
        ensures
            r == json_bool(Some(*self)),
    {
        match self {
            JsonValue::Bool(b) => Some(*b),
            _ => None,
        }
    }

    /// The string under `key`, when `self` is an object whose `key` holds a string.
    pub fn get_str(&self, key: &str) -> (r: Option<&String>)
        ensures
            r matches Some(s) ==> json_str_field(*self, key@) == Some(s@),
            r is None ==> json_str_field(*self, key@) is None,
    {
        match self.get(key) {
            Some(v) => v.as_str(),
            None => None,
        }
    }

    /// A JSON string value.
    pub fn string(s: &str) -> (r: JsonValue)
        ensures
            r matches JsonValue::Str(t) && t@ == s@,
    {
        JsonValue::Str(owned(s))
    }

    /// An empty JSON object.
    pub fn empty_object() -> (r: JsonValue)
        ensures
            r matches JsonValue::Object(e) && e@.len() == 0,
    {
        JsonValue::Object(Vec::new())
    }

    /// Sets `key` to `value` when `self` is an object (replacing an existing entry,
    /// else appending); other values are left unchanged.
    pub fn insert(&mut self, key: String, value: JsonValue)
        ensures
            *old(self) is Object ==> *final(self) is Object && entries_of(*final(self))
                == upsert_entries(entries_of(*old(self)), key, value),
            !(*old(self) is Object) ==> *final(self) == *old(self),
    {
        let mut current = JsonValue::Null;
        std::mem::swap(&mut current, self);
        match current {
            JsonValue::Object(mut entries) => {
                let ghost e0 = entries@;
                let mut i: usize = 0;
                while i < entries.len()
                    invariant
                        i <= entries@.len(),
                        entries@ == e0,
                        *old(self) is Object,
                        e0 == entries_of(*old(self)),
                        forall|j: int| 0 <= j < i ==> entries@[j].0@ != key@,
                    decreases entries@.len() - i,
                {
                    if entries[i].0 == key {
                        proof {
                            lemma_upsert_at(e0, key, value, i as int);
                        }
                        entries.set(i, (key, value));
                        assert(entries@ =~= upsert_entries(e0, key, value));
                        *self = JsonValue::Object(entries);
                        return;
                    }
                    i = i + 1;
                }
                proof {
                    lemma_upsert_absent(e0, key, value);
                }
                entries.push((key, value));
                *self = JsonValue::Object(entries);
            },
            other => {
                *self = other;
            },
        }
    }
}

proof fn lemma_upsert_at(e: Seq<(String, JsonValue)>, key: String, value: JsonValue, i: int)
    requires
        0 <= i < e.len(),
        e[i].0@ == key@,
        forall|j: int| 0 <= j < i ==> e[j].0@ != key@,
    ensures
        upsert_entries(e, key, value) == e.update(i, (key, value)),
    decreases i,
{
    if i == 0 {
        assert(seq![(key, value)] + e.drop_first() =~= e.update(0, (key, value)));
    } else {
        lemma_upsert_at(e.drop_first(), key, value, i - 1);
        assert(seq![e[0]] + e.drop_first().update(i - 1, (key, value)) =~= e.update(
            i,
            (key, value),
        ));
    }
}

proof fn lemma_upsert_absent(e: Seq<(String, JsonValue)>, key: String, value: JsonValue)
    requires
        forall|j: int| 0 <= j < e.len() ==> e[j].0@ != key@,
    ensures
        upsert_entries(e, key, value) == e.push((key, value)),
    decreases e.len(),
{
    if e.len() == 0 {
        assert(seq![(key, value)] =~= e.push((key, value)));
    } else {
        lemma_upsert_absent(e.drop_first(), key, value);
        assert(seq![e[0]] + e.drop_first().push((key, value)) =~= e.push((key, value)));
    }
}

/// The lookup finds the first entry carrying the key.
pub proof fn lemma_lookup_index(entries: Seq<(String, JsonValue)>, key: Seq<char>, i: int)
    requires
        0 <= i < entries.len(),
        entries[i].0@ == key,
        forall|j: int| 0 <= j < i ==> entries[j].0@ != key,
    ensures
        lookup(entries, key) == Some(entries[i].1),
{
    lemma_lookup_skip(entries, key, 0, i);
}

proof fn lemma_lookup_skip(entries: Seq<(String, JsonValue)>, key: Seq<char>, j: int, i: int)
    requires
        0 <= j <= i < entries.len(),
        forall|k: int| j <= k < i ==> entries[k].0@ != key,
    ensures
        lookup_from(entries, key, j) == lookup_from(entries, key, i),
    decreases i - j,
{
    if j < i {
        lemma_lookup_skip(entries, key, j + 1, i);
    }
}

/// A key absent from every entry is not found.
pub proof fn lemma_lookup_absent(entries: Seq<(String, JsonValue)>, key: Seq<char>)
    requires
        forall|j: int| 0 <= j < entries.len() ==> entries[j].0@ != key,
    ensures
        lookup(entries, key) is None,
{
    lemma_lookup_absent_from(entries, key, 0);
}

proof fn lemma_lookup_absent_from(entries: Seq<(String, JsonValue)>, key: Seq<char>, i: int)
    requires
        0 <= i,
        forall|j: int| i <= j < entries.len() ==> entries[j].0@ != key,
    ensures
        lookup_from(entries, key, i) is None,
    decreases entries.len() - i,
{
    if i < entries.len() {
        lemma_lookup_absent_from(entries, key, i + 1);
    }
}

/// The lookup of a list starts at its first entry.
pub proof fn lemma_lookup_first(entries: Seq<(String, JsonValue)>, key: Seq<char>)
    requires
        entries.len() > 0,
    ensures
        lookup(entries, key) == if entries[0].0@ == key {
            Some(entries[0].1)
        } else {
            lookup(entries.drop_first(), key)
        },
{
    if entries[0].0@ != key {
        lemma_lookup_from_shift(entries, key, 0);
    }
}

/// After an upsert, the key maps to the new value and other keys keep theirs.
pub proof fn lemma_upsert_lookup(entries: Seq<(String, JsonValue)>, key: String, value: JsonValue, k: Seq<char>)
    ensures
        lookup(upsert_entries(entries, key, value), k) == if k == key@ {
            Some(value)
        } else {
            lookup(entries, k)
        },
    decreases entries.len(),
{
    let u = upsert_entries(entries, key, value);
    if entries.len() == 0 {
        lemma_lookup_first(u, k);
        assert(u.drop_first().len() == 0);
    } else if entries[0].0@ == key@ {
        lemma_lookup_first(u, k);
        lemma_lookup_first(entries, k);
        assert(u.drop_first() =~= entries.drop_first());
    } else {
        lemma_lookup_first(u, k);
        lemma_lookup_first(entries, k);
        lemma_upsert_lookup(entries.drop_first(), key, value, k);
        assert(u.drop_first() =~= upsert_entries(entries.drop_first(), key, value));
    }
}

} // verus!
