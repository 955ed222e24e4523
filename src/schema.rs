//! Schema descriptions: mappings from string keys to plain values.

use vstd::prelude::*;

verus! {

/// A value that a schema key maps to.
#[derive(Debug, Clone)]
pub enum SchemaValue {
    Str(String),
    Int(i64),
    Bool(bool),
    /// A value of another shape (a float, a list...); it carries the name
    /// of its host type.
    Other { host_type: String },
}

/// A schema description. Setting a key that is already present replaces its
/// value.
#[derive(Debug, Clone)]
pub struct Schema {
    entries: Vec<(String, SchemaValue)>,
}

/// The mapping that a list of entries describes; a later entry for a key
/// overrides an earlier one.
pub open spec fn entries_map(s: Seq<(String, SchemaValue)>) -> Map<Seq<char>, SchemaValue>
    decreases s.len(),
{
    if s.len() == 0 {
        Map::empty()
    } else {
        entries_map(s.drop_last()).insert(s.last().0@, s.last().1)
    }
}

impl View for Schema {
    type V = Map<Seq<char>, SchemaValue>;

    closed spec fn view(&self) -> Map<Seq<char>, SchemaValue> {
        entries_map(self.entries@)
    }
}

/// Whether key `k` of `m` is absent or holds an integer.
pub open spec fn int_field_ok(m: Map<Seq<char>, SchemaValue>, k: Seq<char>) -> bool {
    !m.contains_key(k) || m[k] is Int
}

/// The integer that key `k` of `m` holds, if it holds one.
pub open spec fn int_field(m: Map<Seq<char>, SchemaValue>, k: Seq<char>) -> Option<i64> {
    if m.contains_key(k) {
        match m[k] {
            SchemaValue::Int(v) => Some(v),
            _ => None,
        }
    } else {
        None
    }
}

/// Entries after position `i` that do not name `k` leave its lookup as the
/// first `i` entries give it.
proof fn lemma_entries_map_suffix(s: Seq<(String, SchemaValue)>, i: int, k: Seq<char>)
    requires
        0 <= i <= s.len(),
        forall|j: int| i <= j < s.len() ==> (#[trigger] s[j]).0@ != k,
    ensures
        entries_map(s).contains_key(k) == entries_map(s.take(i)).contains_key(k),
        entries_map(s).contains_key(k) ==> entries_map(s)[k] == entries_map(s.take(i))[k],
    decreases s.len(),
{
    if i == s.len() {
        assert(s.take(i) =~= s);
    } else {
        let rest = s.drop_last();
        assert(rest.take(i) =~= s.take(i));
        assert forall|j: int| i <= j < rest.len() implies (#[trigger] rest[j]).0@ != k by {
            assert(rest[j] == s[j]);
        }
        lemma_entries_map_suffix(rest, i, k);
    }
}

impl Schema {
    /// An empty schema.
    pub fn new() -> (r: Schema)
        ensures
            r@ == Map::<Seq<char>, SchemaValue>::empty(),
    {
        Schema { entries: Vec::new() }
    }

    /// Maps `key` to `value`, replacing what it held.
    pub fn set_item(&mut self, key: &str, value: SchemaValue)
        ensures
            final(self)@ == old(self)@.insert(key@, value),
    {
        let ghost before = self.entries@;
        self.entries.push((key.to_owned(), value));
        proof {
            assert(self.entries@.drop_last() =~= before);
        }
    }

    /// What `key` maps to, if anything.
    pub fn get_item(&self, key: &str) -> (r: Option<&SchemaValue>)
        ensures
            match r {
                Some(v) => self@.contains_key(key@) && self@[key@] == *v,
                None => !self@.contains_key(key@),
            },
    {
        let k = key.to_owned();
        let mut i: usize = self.entries.len();
        while i > 0
            invariant
                i <= self.entries@.len(),
                k@ == key@,
                forall|j: int| i <= j < self.entries@.len() ==> (#[trigger] self.entries@[j]).0@ != key@,
            decreases i,
        {
            if self.entries[i - 1].0 == k {
                proof {
                    let s = self.entries@;
                    lemma_entries_map_suffix(s, i as int, key@);
                    assert(s.take(i as int).drop_last() =~= s.take(i - 1));
                }
                return Some(&self.entries[i - 1].1);
            }
            i = i - 1;
        }
        proof {
            lemma_entries_map_suffix(self.entries@, 0, key@);
        }
        None
    }

    /// Whether `key` is present.
    pub fn contains_key(&self, key: &str) -> (r: bool)
        ensures
            r == self@.contains_key(key@),
    {
        self.get_item(key).is_some()
    }

    /// Reads an optional integer field: `Some(None)` when the key is
    /// absent, `Some(Some(v))` when it holds the integer `v`, and `None` when
    /// it holds a value of another shape.
    pub fn get_int(&self, key: &str) -> (r: Option<Option<i64>>)
        ensures
            r == (if int_field_ok(self@, key@) {
                Some(int_field(self@, key@))
            } else {
                None::<Option<i64>>
            }),
    {
        match self.get_item(key) {
            None => Some(None),
            Some(SchemaValue::Int(v)) => Some(Some(*v)),
            Some(_) => None,
        }
    }
}

} // verus!
