//! The decoded, structured payload of a lifecycle event, and the
//! nested-path lookup that pulls values out of it.
//!
//! The payload's internal shape is determined entirely by the event
//! type; the library therefore models it as a generic tree of plain
//! values and lets each transition-table entry name the paths it reads.

use vstd::prelude::*;

verus! {

/// One structured payload value: a tree of plain values.
pub enum Value {
    Null,
    Bool(bool),
    Int(i64),
    Str(String),
    Arr(Vec<Value>),
    Obj(Vec<(String, Value)>),
}

/// One step of a lookup path: an object key or an array index.
pub enum PathSeg {
    Key(String),
    Idx(usize),
}

/// Specification-level form of a path step.
pub enum SegV {
    Key(Seq<char>),
    Idx(int),
}

impl View for PathSeg {
    type V = SegV;

    open spec fn view(&self) -> SegV {
        match self {
            PathSeg::Key(s) => SegV::Key(s@),
            PathSeg::Idx(i) => SegV::Idx(*i as int),
        }
    }
}

/// Specification-level form of a whole lookup path.
pub open spec fn segs_view(path: Seq<PathSeg>) -> Seq<SegV> {
    path.map_values(|s: PathSeg| s@)
}

/// The value stored under `key` in an object's entry list: the first
/// entry whose key matches, or absence.
pub open spec fn obj_get(entries: Seq<(String, Value)>, key: Seq<char>) -> Option<Value>
    decreases entries.len(),
{
    if entries.len() == 0 {
        None
    } else if entries[0].0@ == key {
        Some(entries[0].1)
    } else {
        obj_get(entries.subrange(1, entries.len() as int), key)
    }
}

/// The value reached from `v` by following `path`, or absence when some
/// step does not apply (a key missing from an object, an index out of
/// range, or a step applied to a value of the wrong shape).
pub open spec fn spec_lookup(v: Value, path: Seq<SegV>) -> Option<Value>
    decreases path.len(),
{
    if path.len() == 0 {
        Some(v)
    } else {
        match path[0] {
            SegV::Key(k) => match v {
                Value::Obj(entries) => match obj_get(entries@, k) {
                    Some(child) => spec_lookup(child, path.subrange(1, path.len() as int)),
                    None => None,
                },
                _ => None,
            },
            SegV::Idx(i) => match v {
                Value::Arr(items) => {
                    if 0 <= i < items@.len() {
                        spec_lookup(items@[i], path.subrange(1, path.len() as int))
                    } else {
                        None
                    }
                },
                _ => None,
            },
        }
    }
}

/// The string under `path`, as a character sequence; absence when the
/// path does not lead to a string.
pub open spec fn lookup_str(v: Value, path: Seq<SegV>) -> Option<Seq<char>> {
    match spec_lookup(v, path) {
        Some(Value::Str(s)) => Some(s@),
        _ => None,
    }
}

/// The integer under `path`; absence when the path does not lead to an
/// integer.
pub open spec fn lookup_i64(v: Value, path: Seq<SegV>) -> Option<i64> {
    match spec_lookup(v, path) {
        Some(Value::Int(n)) => Some(n),
        _ => None,
    }
}

/// Skipping entries whose key does not match leaves `obj_get` unchanged.
proof fn lemma_obj_get_skip(entries: Seq<(String, Value)>, key: Seq<char>, j: int)
    requires
        0 <= j <= entries.len(),
        forall|m: int| 0 <= m < j ==> entries[m].0@ != key,
    ensures
        obj_get(entries, key) == obj_get(entries.subrange(j, entries.len() as int), key),
    decreases j,
{
    if j > 0 {
        assert(entries[0].0@ != key);
        let t = entries.subrange(1, entries.len() as int);
        assert forall|m: int| 0 <= m < j - 1 implies t[m].0@ != key by {
            assert(t[m] == entries[m + 1]);
        }
        lemma_obj_get_skip(t, key, j - 1);
        assert(t.subrange(j - 1, t.len() as int) =~= entries.subrange(j, entries.len() as int));
    } else {
        assert(entries.subrange(0, entries.len() as int) =~= entries);
    }
}

/// Finds the first entry of `entries` whose key is `key`.
fn obj_find<'a>(entries: &'a Vec<(String, Value)>, key: &String) -> (r: Option<&'a Value>)
    ensures
        match r {
            Some(x) => obj_get(entries@, key@) == Some(*x),
            None => obj_get(entries@, key@) is None,
        },
{
    let mut j: usize = 0;
    while j < entries.len()
        invariant
            j <= entries@.len(),
            forall|m: int| 0 <= m < j ==> entries@[m].0@ != key@,
        decreases entries@.len() - j,
    {
        if entries[j].0 == *key {
            proof {
                lemma_obj_get_skip(entries@, key@, j as int);
                let t = entries@.subrange(j as int, entries@.len() as int);
                assert(t[0] == entries@[j as int]);
            }
            return Some(&entries[j].1);
        }
        j += 1;
    }
    proof {
        lemma_obj_get_skip(entries@, key@, entries@.len() as int);
    }
    None
}

/// Follows `path` down from `v` and returns the value it reaches, or
/// absence when some step does not apply.
pub fn lookup<'a>(v: &'a Value, path: &[PathSeg]) -> (r: Option<&'a Value>)
    ensures
        match r {
            Some(x) => spec_lookup(*v, segs_view(path@)) == Some(*x),
            None => spec_lookup(*v, segs_view(path@)) is None,
        },
{
    let ghost whole: Seq<SegV> = segs_view(path@);
    let mut cur: &Value = v;
    let mut i: usize = 0;
    proof {
        assert(whole.subrange(0, whole.len() as int) =~= whole);
    }
    while i < path.len()
        invariant
            i <= path@.len(),
            whole == segs_view(path@),
            spec_lookup(*v, whole) == spec_lookup(*cur, whole.subrange(i as int, whole.len() as int)),
        decreases path@.len() - i,
    {
        let ghost rest = whole.subrange(i as int, whole.len() as int);
        proof {
            assert(rest[0] == whole[i as int]);
            assert(rest.subrange(1, rest.len() as int) =~= whole.subrange(
                i + 1,
                whole.len() as int,
            ));
        }
        match &path[i] {
            PathSeg::Key(k) => {
                match cur {
                    Value::Obj(entries) => {
                        match obj_find(entries, k) {
                            Some(child) => {
                                cur = child;
                            },
                            None => {
                                return None;
                            },
                        }
                    },
                    _ => {
                        return None;
                    },
                }
            },
            PathSeg::Idx(ix) => {
                match cur {
                    Value::Arr(items) => {
                        if *ix < items.len() {
                            cur = &items[*ix];
                        } else {
                            return None;
                        }
                    },
                    _ => {
                        return None;
                    },
                }
            },
        }
        i += 1;
    }
    proof {
        assert(whole.subrange(i as int, whole.len() as int) =~= Seq::<SegV>::empty());
    }
    Some(cur)
}

/// The string under `path`, or absence when the path does not lead to a
/// string.
pub fn get_str<'a>(v: &'a Value, path: &[PathSeg]) -> (r: Option<&'a String>)
    ensures
        match r {
            Some(s) => lookup_str(*v, segs_view(path@)) == Some(s@),
            None => lookup_str(*v, segs_view(path@)) is None,
        },
{
    match lookup(v, path) {
        Some(Value::Str(s)) => Some(s),
        _ => None,
    }
}

/// The integer under `path`, or absence when the path does not lead to
/// an integer.
pub fn get_i64(v: &Value, path: &[PathSeg]) -> (r: Option<i64>)
    ensures
        r == lookup_i64(*v, segs_view(path@)),
{
    match lookup(v, path) {
        Some(Value::Int(n)) => Some(*n),
        _ => None,
    }
}

} // verus!
