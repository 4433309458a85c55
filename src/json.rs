use vstd::prelude::*;

verus! {

/// A structured payload as it arrives from the exchange, before any schema is applied.
///
/// Integers keep their exact value; a number with a fraction or an exponent keeps its text only,
/// since no field of the schema accepts one.
#[derive(Debug)]
pub enum JsonValue {
    Null,
    Bool(bool),
    Integer(i128),
    Real(String),
    Text(String),
    Array(Vec<JsonValue>),
    Object(Vec<(String, JsonValue)>),
}

/// `i` is the first entry of `fields` whose key is `key`.
pub open spec fn first_with_key(fields: Seq<(String, JsonValue)>, key: Seq<char>, i: int) -> bool {
    &&& 0 <= i < fields.len()
    &&& fields[i].0@ == key
    &&& forall|j: int| 0 <= j < i ==> fields[j].0@ != key
}

/// The value of the first entry of `fields` with key `key`, if there is one.
pub open spec fn lookup(fields: Seq<(String, JsonValue)>, key: Seq<char>) -> Option<JsonValue> {
    if exists|i: int| first_with_key(fields, key, i) {
        Some(fields[choose|i: int| first_with_key(fields, key, i)].1)
    } else {
        None
    }
}

/// Only one entry can be the first with a given key.
pub proof fn lemma_first_with_key_unique(fields: Seq<(String, JsonValue)>, key: Seq<char>, i: int, k: int)
    requires
        first_with_key(fields, key, i),
        first_with_key(fields, key, k),
    ensures
        i == k,
{
    if i < k {
        assert(fields[i].0@ != key);
    } else if k < i {
        assert(fields[k].0@ != key);
    }
}

/// Where `i` is the first entry with key `key`, the lookup yields its value.
pub proof fn lemma_lookup_at(fields: Seq<(String, JsonValue)>, key: Seq<char>, i: int)
    requires
        first_with_key(fields, key, i),
    ensures
        lookup(fields, key) == Some(fields[i].1),
{
    let k = choose|k: int| first_with_key(fields, key, k);
    lemma_first_with_key_unique(fields, key, i, k);
}

/// The value stored under `key` in an object's entries: the first entry with that key wins.
pub fn get_field<'a>(fields: &'a Vec<(String, JsonValue)>, key: &str) -> (r: Option<&'a JsonValue>)
    ensures
        r is None <==> lookup(fields@, key@) is None,
        r matches Some(v) ==> lookup(fields@, key@) == Some(*v),
{
    let wanted = key.to_owned();
    let mut i: usize = 0;
    while i < fields.len()
        invariant
            i <= fields@.len(),
            wanted@ == key@,
            forall|j: int| 0 <= j < i ==> fields@[j].0@ != key@,
        decreases fields@.len() - i,
    {
        if fields[i].0 == wanted {
            proof {
                lemma_lookup_at(fields@, key@, i as int);
            }
            return Some(&fields[i].1);
        }
        i = i + 1;
    }
    assert forall|k: int| !first_with_key(fields@, key@, k) by {
        if 0 <= k < fields@.len() {
            assert(fields@[k].0@ != key@);
        }
    }
    None
}

} // verus!
