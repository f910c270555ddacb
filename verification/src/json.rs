use vstd::prelude::*;
use crate::text::str_eq;

verus! {

/// A structured token record, as the refresh scheduler sees it.
///
/// The account store keeps each account's credentials as a JSON document.
/// The scheduler only reads integers and strings out of it, but it must hand
/// every other field back untouched, so the whole document is modelled here
/// as plain data. A floating-point number is carried through as its raw bit
/// pattern and never interpreted.
#[derive(Debug, PartialEq, Eq)]
pub enum JsonValue {
    Null,
    Bool(bool),
    Int(i64),
    UInt(u64),
    Float(u64),
    Str(String),
    Arr(Vec<JsonValue>),
    Obj(Vec<(String, JsonValue)>),
}

/// The value stored under `key`, taking the last entry when a key repeats,
/// as a map built from these entries would.
pub open spec fn obj_lookup(entries: Seq<(String, JsonValue)>, key: Seq<char>) -> Option<JsonValue>
    decreases entries.len(),
{
    if entries.len() == 0 {
        None
    } else if entries.last().0@ == key {
        Some(entries.last().1)
    } else {
        obj_lookup(entries.drop_last(), key)
    }
}

/// When no entry carries `key`, lookup finds nothing.
pub proof fn lemma_obj_lookup_absent(entries: Seq<(String, JsonValue)>, key: Seq<char>)
    requires
        forall|j: int| 0 <= j < entries.len() ==> entries[j].0@ != key,
    ensures
        obj_lookup(entries, key) is None,
    decreases entries.len(),
{
    if entries.len() > 0 {
        lemma_obj_lookup_absent(entries.drop_last(), key);
    }
}

/// When entry `i` carries `key` and no later entry does, lookup reads entry `i`.
pub proof fn lemma_obj_lookup_at(entries: Seq<(String, JsonValue)>, key: Seq<char>, i: int)
    requires
        0 <= i < entries.len(),
        entries[i].0@ == key,
        forall|j: int| i < j < entries.len() ==> entries[j].0@ != key,
    ensures
        obj_lookup(entries, key) == Some(entries[i].1),
    decreases entries.len(),
{
    if i < entries.len() - 1 {
        lemma_obj_lookup_at(entries.drop_last(), key, i);
    }
}

/// Replacing the entry that lookup reads changes that key's lookup to the
/// new value and no other key's lookup.
pub proof fn lemma_obj_lookup_update(
    entries: Seq<(String, JsonValue)>,
    i: int,
    value: JsonValue,
    key: Seq<char>,
)
    requires
        0 <= i < entries.len(),
        entries[i].0@ == key,
        forall|j: int| i < j < entries.len() ==> entries[j].0@ != key,
    ensures
        obj_lookup(entries.update(i, (entries[i].0, value)), key) == Some(value),
        forall|k2: Seq<char>|
            k2 != key ==> #[trigger] obj_lookup(entries.update(i, (entries[i].0, value)), k2)
                == obj_lookup(entries, k2),
    decreases entries.len(),
{
    let updated = entries.update(i, (entries[i].0, value));
    if i == entries.len() - 1 {
        assert(updated.last() == (entries[i].0, value));
        assert(updated.drop_last() =~= entries.drop_last());
    } else {
        assert(updated.last() == entries.last());
        assert(updated.drop_last() =~= entries.drop_last().update(i, (entries[i].0, value)));
        lemma_obj_lookup_update(entries.drop_last(), i, value, key);
    }
    assert forall|k2: Seq<char>| k2 != key implies #[trigger] obj_lookup(updated, k2)
        == obj_lookup(entries, k2) by {
        if i == entries.len() - 1 {
            assert(updated.last().0@ == key);
            assert(obj_lookup(updated, k2) == obj_lookup(updated.drop_last(), k2));
            assert(obj_lookup(entries, k2) == obj_lookup(entries.drop_last(), k2));
        } else {
            assert(obj_lookup(updated.drop_last(), k2) == obj_lookup(entries.drop_last(), k2));
            if updated.last().0@ == k2 {
                assert(obj_lookup(updated, k2) == Some(updated.last().1));
                assert(obj_lookup(entries, k2) == Some(entries.last().1));
            }
        }
    }
}

/// Appending a new key leaves every other key's lookup unchanged and makes
/// the new key's lookup the appended value.
pub proof fn lemma_obj_lookup_push(entries: Seq<(String, JsonValue)>, pair: (String, JsonValue))
    ensures
        obj_lookup(entries.push(pair), pair.0@) == Some(pair.1),
        forall|k2: Seq<char>|
            k2 != pair.0@ ==> #[trigger] obj_lookup(entries.push(pair), k2) == obj_lookup(
                entries,
                k2,
            ),
{
    assert(entries.push(pair).last() == pair);
    assert(entries.push(pair).drop_last() =~= entries);
}

/// Read the field `key` of a JSON object. On anything but an object, or when
/// the key is absent, there is nothing to read.
#[verifier::loop_isolation(false)]
pub fn json_get<'a>(v: &'a JsonValue, key: &str) -> (r: Option<&'a JsonValue>)
    ensures
        v is Obj ==> match r {
            Some(x) => obj_lookup(v->Obj_0@, key@) == Some(*x),
            None => obj_lookup(v->Obj_0@, key@) is None,
        },
        !(v is Obj) ==> r is None,
{
    match *v {
        JsonValue::Obj(ref entries) => {
            let mut i: usize = entries.len();
            while i > 0
                invariant
                    0 <= i <= entries@.len(),
                    forall|t: int| i <= t < entries@.len() ==> entries@[t].0@ != key@,
                decreases i,
            {
                i = i - 1;
                let pair = &entries[i];
                if str_eq(pair.0.as_str(), key) {
                    proof {
                        lemma_obj_lookup_at(entries@, key@, i as int);
                        assert(obj_lookup(entries@, key@) == Some(entries@[i as int].1));
                    }
                    let x = &entries[i].1;
                    proof {
                        assert(*x == entries@[i as int].1);
                    }
                    return Some(x);
                }
            }
            proof {
                lemma_obj_lookup_absent(entries@, key@);
            }
            None
        },
        _ => None,
    }
}

/// Store `value` under `key` in an object's entries: the entry that lookup
/// reads is replaced in place, and a missing key is appended at the end.
#[verifier::loop_isolation(false)]
pub fn obj_set(entries: Vec<(String, JsonValue)>, key: String, value: JsonValue) -> (r: Vec<
    (String, JsonValue),
>)
    ensures
        obj_lookup(r@, key@) == Some(value),
        forall|k2: Seq<char>|
            k2 != key@ ==> #[trigger] obj_lookup(r@, k2) == obj_lookup(entries@, k2),
        obj_lookup(entries@, key@) is Some ==> r@.len() == entries@.len(),
        obj_lookup(entries@, key@) is None ==> r@ == entries@.push((key, value)),
{
    let ghost orig = entries@;
    let mut i: usize = entries.len();
    while i > 0
        invariant
            0 <= i <= orig.len(),
            entries@ == orig,
            forall|t: int| i <= t < orig.len() ==> orig[t].0@ != key@,
        decreases i,
    {
        i = i - 1;
        if str_eq(entries[i].0.as_str(), key.as_str()) {
            proof {
                lemma_obj_lookup_at(orig, key@, i as int);
                lemma_obj_lookup_update(orig, i as int, value, key@);
            }
            return obj_replace_at(entries, i, value);
        }
    }
    proof {
        lemma_obj_lookup_absent(orig, key@);
        lemma_obj_lookup_push(orig, (key, value));
    }
    let mut entries = entries;
    entries.push((key, value));
    entries
}

/// Replace the value of the entry at `idx`, keeping its key and position.
fn obj_replace_at(entries: Vec<(String, JsonValue)>, idx: usize, value: JsonValue) -> (r: Vec<
    (String, JsonValue),
>)
    requires
        idx < entries@.len(),
    ensures
        r@ == entries@.update(idx as int, (entries@[idx as int].0, value)),
{
    let ghost orig = entries@;
    let mut head = entries;
    // split around the entry, swap in the new value, and rejoin
    let mut tail = head.split_off(idx);
    let pair = tail.remove(0);
    head.push((pair.0, value));
    head.append(&mut tail);
    proof {
        assert(head@ =~= orig.update(idx as int, (orig[idx as int].0, value)));
    }
    head
}

} // verus!
