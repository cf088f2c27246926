//! The JSON shape the directory endpoint serves, and field lookup on JSON
//! objects. The decoder in `crate::decode` reads relay records out of this
//! tree; whatever parses the raw body hands the tree in.

use vstd::prelude::*;

verus! {

/// One JSON value. An object keeps its members as a sequence of pairs, in
/// document order. The `Num` variant carries no payload: the relay schema
/// has no numeric field, so a number only ever matters to the decoder as "a
/// value of an unexpected kind".
#[derive(Debug)]
pub enum Json {
    Null,
    Bool(bool),
    Text(String),
    Num,
    Arr(Vec<Json>),
    Obj(Vec<(String, Json)>),
}

/// The value under `key` in an object's member list: the first member whose
/// name spells `key`, or `None` where no member does.
pub open spec fn lookup(fields: Seq<(String, Json)>, key: Seq<char>) -> Option<Json>
    decreases fields.len(),
{
    if fields.len() == 0 {
        None
    } else if fields[0].0@ == key {
        Some(fields[0].1)
    } else {
        lookup(fields.drop_first(), key)
    }
}

/// Looks `key` up in an object's member list.
pub fn get<'a>(fields: &'a Vec<(String, Json)>, key: &str) -> (r: Option<&'a Json>)
    ensures
        r matches Some(v) ==> lookup(fields@, key@) == Some(*v),
        r is None ==> lookup(fields@, key@) is None,
{
    let target: String = key.to_owned();
    let mut i: usize = 0;
    proof {
        assert(fields@.skip(0) =~= fields@);
    }
    while i < fields.len()
        invariant
            i <= fields@.len(),
            target@ == key@,
            lookup(fields@, key@) == lookup(fields@.skip(i as int), key@),
        decreases fields@.len() - i,
    {
        proof {
            assert(fields@.skip(i as int)[0] == fields@[i as int]);
            assert(fields@.skip(i as int).drop_first() =~= fields@.skip(i as int + 1));
        }
        if fields[i].0 == target {
            return Some(&fields[i].1);
        }
        i = i + 1;
    }
    None
}

} // verus!
