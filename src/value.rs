use vstd::prelude::*;

verus! {

/// A semi-structured value as read from a configuration document or written
/// to a fixture document.
#[derive(Debug)]
pub enum Value {
    Null,
    Bool(bool),
    Integer(i64),
    /// A decimal number, kept as its exact text.
    Float(String),
    Str(String),
    Sequence(Vec<Value>),
    Mapping(Vec<(String, Value)>),
}

/// The value bound to `key` in the entries of a mapping, searching from
/// position `i` on; the first matching entry wins.
pub open spec fn lookup_from(entries: Seq<(String, Value)>, key: Seq<char>, i: int) -> Option<Value>
    decreases entries.len() - i,
{
    if i < 0 || i >= entries.len() {
        None
    } else if entries[i].0@ == key {
        Some(entries[i].1)
    } else {
        lookup_from(entries, key, i + 1)
    }
}

/// The value bound to `key` in a mapping's entries.
pub open spec fn lookup(entries: Seq<(String, Value)>, key: Seq<char>) -> Option<Value> {
    lookup_from(entries, key, 0)
}

/// Finds the entry for `key` in a mapping's entries.
pub fn find_entry<'a>(entries: &'a Vec<(String, Value)>, key: &str) -> (r: Option<&'a Value>)
    ensures
        match r {
            Some(v) => lookup(entries@, key@) == Some(*v),
            None => lookup(entries@, key@) is None,
        },
{
    let k: String = key.to_string();
    proof {
        vstd::string::to_string_from_display_ensures_for_str(key, k);
    }
    let mut i: usize = 0;
    while i < entries.len()
        invariant
            0 <= i <= entries@.len(),
            k@ == key@,
            lookup(entries@, key@) == lookup_from(entries@, key@, i as int),
        decreases entries@.len() - i,
    {
        let entry = &entries[i];
        if entry.0 == k {
            return Some(&entry.1);
        }
        i = i + 1;
    }
    None
}

} // verus!
