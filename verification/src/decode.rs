//! Checked decoding of the directory payload: a JSON tree in, a sequence of
//! relay records out. A payload that does not match the schema is rejected
//! whole, with the offending field named; no partial or default-filled
//! record is ever produced.

use vstd::prelude::*;
use crate::error::DecodeError;
use crate::json::{Json, lookup, get};
use crate::relay::Relay;

verus! {

// --- What each kind of schema field reads out of an object ---

/// The value of a required boolean field, where it is present as a boolean.
pub open spec fn spec_bool_field(fs: Seq<(String, Json)>, key: Seq<char>) -> Option<bool> {
    match lookup(fs, key) {
        Some(Json::Bool(b)) => Some(b),
        _ => None,
    }
}

/// The value of a required string field, where it is present as a string.
pub open spec fn spec_str_field(fs: Seq<(String, Json)>, key: Seq<char>) -> Option<String> {
    match lookup(fs, key) {
        Some(Json::Text(s)) => Some(s),
        _ => None,
    }
}

/// An optional string field is well-formed when it is absent, `null`, or a
/// string; any other kind of value is a shape error.
pub open spec fn opt_str_field_ok(fs: Seq<(String, Json)>, key: Seq<char>) -> bool {
    match lookup(fs, key) {
        None => true,
        Some(Json::Null) => true,
        Some(Json::Text(_)) => true,
        _ => false,
    }
}

/// The value an optional string field decodes to: the string where one is
/// present, `None` where the field is absent or `null`.
pub open spec fn spec_opt_str_field(fs: Seq<(String, Json)>, key: Seq<char>) -> Option<String> {
    match lookup(fs, key) {
        Some(Json::Text(s)) => Some(s),
        _ => None,
    }
}

/// Every element of `els` is a string.
pub open spec fn all_text(els: Seq<Json>) -> bool {
    forall|i: int| 0 <= i < els.len() ==> els[i] is Text
}

/// The string inside a `Json::Text` value.
pub open spec fn text_value(e: Json) -> String {
    match e {
        Json::Text(s) => s,
        _ => arbitrary(),
    }
}

/// The strings of an all-string array, where `e` is one.
pub open spec fn spec_str_items(els: Seq<Json>) -> Option<Seq<String>> {
    if all_text(els) {
        Some(els.map_values(|e: Json| text_value(e)))
    } else {
        None
    }
}

/// The value of a required string-array field, where it is present as an
/// array of strings.
pub open spec fn spec_str_arr_field(fs: Seq<(String, Json)>, key: Seq<char>) -> Option<
    Seq<String>,
> {
    match lookup(fs, key) {
        Some(Json::Arr(els)) => spec_str_items(els@),
        _ => None,
    }
}

/// A policy-summary member is well-formed when its value is an array of
/// strings.
pub open spec fn summary_entry_ok(v: Json) -> bool {
    match v {
        Json::Arr(els) => all_text(els@),
        _ => false,
    }
}

/// The strings of a summary member's array value.
pub open spec fn entry_text_values(v: Json) -> Seq<String> {
    match v {
        Json::Arr(els) => els@.map_values(|e: Json| text_value(e)),
        _ => arbitrary(),
    }
}

/// The value of the policy-summary field, where it is present as an object
/// whose every member holds an array of strings: the members as name/ports
/// pairs, in document order.
pub open spec fn spec_summary_field(fs: Seq<(String, Json)>, key: Seq<char>) -> Option<
    Seq<(String, Seq<String>)>,
> {
    match lookup(fs, key) {
        Some(Json::Obj(entries)) => if forall|i: int|
            0 <= i < entries@.len() ==> summary_entry_ok(#[trigger] entries@[i].1) {
            Some(entries@.map_values(|e: (String, Json)| (e.0, entry_text_values(e.1))))
        } else {
            None
        },
        _ => None,
    }
}

/// A summary as the record holds it, seen as a sequence of name/ports
/// pairs over abstract sequences.
pub open spec fn summary_view(s: Seq<(String, Vec<String>)>) -> Seq<(String, Seq<String>)> {
    s.map_values(|p: (String, Vec<String>)| (p.0, p.1@))
}

/// A decode error naming `key` as the offending field.
fn bad_field(key: &str) -> (e: DecodeError)
    ensures
        e.field@ == key@,
{
    DecodeError { field: key.to_owned() }
}

/// Reads a required boolean field out of an object's member list.
fn get_bool(fs: &Vec<(String, Json)>, key: &str) -> (r: Result<bool, DecodeError>)
    ensures
        r matches Ok(b) ==> spec_bool_field(fs@, key@) == Some(b),
        r is Err <==> spec_bool_field(fs@, key@) is None,
        r matches Err(e) ==> e.field@ == key@,
{
    match get(fs, key) {
        Some(v) => match v {
            Json::Bool(b) => Ok(*b),
            _ => Err(bad_field(key)),
        },
        None => Err(bad_field(key)),
    }
}

/// Reads a required string field out of an object's member list.
fn get_string(fs: &Vec<(String, Json)>, key: &str) -> (r: Result<String, DecodeError>)
    ensures
        r matches Ok(s) ==> spec_str_field(fs@, key@) == Some(s),
        r is Err <==> spec_str_field(fs@, key@) is None,
        r matches Err(e) ==> e.field@ == key@,
{
    match get(fs, key) {
        Some(v) => match v {
            Json::Text(s) => Ok(s.clone()),
            _ => Err(bad_field(key)),
        },
        None => Err(bad_field(key)),
    }
}

/// Reads an optional string field out of an object's member list: absence
/// and `null` both decode to `None`, never to an empty string.
fn get_opt_string(fs: &Vec<(String, Json)>, key: &str) -> (r: Result<
    Option<String>,
    DecodeError,
>)
    ensures
        r matches Ok(v) ==> opt_str_field_ok(fs@, key@) && v == spec_opt_str_field(fs@, key@),
        r is Err <==> !opt_str_field_ok(fs@, key@),
        r matches Err(e) ==> e.field@ == key@,
{
    match get(fs, key) {
        Some(v) => match v {
            Json::Text(s) => Ok(Some(s.clone())),
            Json::Null => Ok(None),
            _ => Err(bad_field(key)),
        },
        None => Ok(None),
    }
}

/// Collects the strings of `els`, rejecting any non-string element with an
/// error naming `key`.
fn collect_texts(els: &Vec<Json>, key: &str) -> (r: Result<Vec<String>, DecodeError>)
    ensures
        r matches Ok(v) ==> spec_str_items(els@) == Some(v@),
        r is Err <==> spec_str_items(els@) is None,
        r matches Err(e) ==> e.field@ == key@,
{
    let mut out: Vec<String> = Vec::new();
    let mut i: usize = 0;
    while i < els.len()
        invariant
            i <= els@.len(),
            forall|j: int| 0 <= j < i ==> els@[j] is Text,
            out@ == els@.take(i as int).map_values(|e: Json| text_value(e)),
        decreases els@.len() - i,
    {
        match &els[i] {
            Json::Text(s) => out.push(s.clone()),
            _ => {
                proof {
                    assert(!(els@[i as int] is Text));
                }
                return Err(bad_field(key));
            },
        }
        i = i + 1;
        proof {
            assert(out@ =~= els@.take(i as int).map_values(|e: Json| text_value(e)));
        }
    }
    proof {
        assert(els@.take(els@.len() as int) =~= els@);
        assert(out@ =~= els@.map_values(|e: Json| text_value(e)));
    }
    Ok(out)
}

/// Reads a required string-array field out of an object's member list.
fn get_strings(fs: &Vec<(String, Json)>, key: &str) -> (r: Result<Vec<String>, DecodeError>)
    ensures
        r matches Ok(v) ==> spec_str_arr_field(fs@, key@) == Some(v@),
        r is Err <==> spec_str_arr_field(fs@, key@) is None,
        r matches Err(e) ==> e.field@ == key@,
{
    match get(fs, key) {
        Some(v) => match v {
            Json::Arr(els) => collect_texts(els, key),
            _ => Err(bad_field(key)),
        },
        None => Err(bad_field(key)),
    }
}

/// Reads the policy-summary field out of an object's member list.
fn get_summary(fs: &Vec<(String, Json)>, key: &str) -> (r: Result<
    Vec<(String, Vec<String>)>,
    DecodeError,
>)
    ensures
        r matches Ok(v) ==> spec_summary_field(fs@, key@) == Some(summary_view(v@)),
        r is Err <==> spec_summary_field(fs@, key@) is None,
        r matches Err(e) ==> e.field@ == key@,
{
    let entries = match get(fs, key) {
        Some(v) => match v {
            Json::Obj(entries) => entries,
            _ => {
                return Err(bad_field(key));
            },
        },
        None => {
            return Err(bad_field(key));
        },
    };
    let mut out: Vec<(String, Vec<String>)> = Vec::new();
    let mut i: usize = 0;
    while i < entries.len()
        invariant
            lookup(fs@, key@) == Some(Json::Obj(*entries)),
            i <= entries@.len(),
            out@.len() == i,
            forall|j: int| 0 <= j < i ==> summary_entry_ok(#[trigger] entries@[j].1),
            forall|j: int|
                0 <= j < i ==> (#[trigger] out@[j]).0 == entries@[j].0 && out@[j].1@
                    == entry_text_values(entries@[j].1),
        decreases entries@.len() - i,
    {
        let name = entries[i].0.clone();
        let ports = match &entries[i].1 {
            Json::Arr(els) => match collect_texts(els, key) {
                Ok(v) => v,
                Err(e) => {
                    proof {
                        assert(!summary_entry_ok(entries@[i as int].1));
                        assert(spec_summary_field(fs@, key@) is None);
                    }
                    return Err(e);
                },
            },
            _ => {
                proof {
                    assert(!summary_entry_ok(entries@[i as int].1));
                    assert(spec_summary_field(fs@, key@) is None);
                }
                return Err(bad_field(key));
            },
        };
        out.push((name, ports));
        i = i + 1;
    }
    proof {
        assert(summary_view(out@) =~~= entries@.map_values(
            |e: (String, Json)| (e.0, entry_text_values(e.1)),
        ));
    }
    Ok(out)
}

// --- The relay schema ---

/// Every field of the relay schema is present with the right kind of value
/// (the six optional strings may be absent or `null`). Missing any required
/// field, or any value of the wrong kind, makes the object ill-formed.
pub open spec fn relay_fields_ok(fs: Seq<(String, Json)>) -> bool {
    &&& spec_bool_field(fs, "measured"@) is Some
    &&& spec_bool_field(fs, "recommended_version"@) is Some
    &&& opt_str_field_ok(fs, "as_name"@)
    &&& opt_str_field_ok(fs, "as"@)
    &&& opt_str_field_ok(fs, "city_name"@)
    &&& opt_str_field_ok(fs, "country"@)
    &&& opt_str_field_ok(fs, "country_name"@)
    &&& opt_str_field_ok(fs, "region_name"@)
    &&& spec_bool_field(fs, "running"@) is Some
    &&& spec_str_field(fs, "platform"@) is Some
    &&& spec_str_field(fs, "version"@) is Some
    &&& spec_str_field(fs, "fingerprint"@) is Some
    &&& spec_str_arr_field(fs, "exit_policy"@) is Some
    &&& spec_summary_field(fs, "exit_policy_summary"@) is Some
    &&& spec_str_field(fs, "nickname"@) is Some
    &&& spec_str_arr_field(fs, "flags"@) is Some
    &&& spec_str_arr_field(fs, "or_addresses"@) is Some
}

/// Record `r` holds exactly what the object's fields say — every attribute
/// verbatim, the wire name `as` landing in `AS`.
pub open spec fn relay_matches(fs: Seq<(String, Json)>, r: Relay) -> bool {
    &&& Some(r.measured) == spec_bool_field(fs, "measured"@)
    &&& Some(r.recommended_version) == spec_bool_field(fs, "recommended_version"@)
    &&& r.as_name == spec_opt_str_field(fs, "as_name"@)
    &&& r.AS == spec_opt_str_field(fs, "as"@)
    &&& r.city_name == spec_opt_str_field(fs, "city_name"@)
    &&& r.country == spec_opt_str_field(fs, "country"@)
    &&& r.country_name == spec_opt_str_field(fs, "country_name"@)
    &&& r.region_name == spec_opt_str_field(fs, "region_name"@)
    &&& Some(r.running) == spec_bool_field(fs, "running"@)
    &&& Some(r.platform) == spec_str_field(fs, "platform"@)
    &&& Some(r.version) == spec_str_field(fs, "version"@)
    &&& Some(r.fingerprint) == spec_str_field(fs, "fingerprint"@)
    &&& Some(r.exit_policy@) == spec_str_arr_field(fs, "exit_policy"@)
    &&& Some(summary_view(r.exit_policy_summary@)) == spec_summary_field(
        fs,
        "exit_policy_summary"@,
    )
    &&& Some(r.nickname) == spec_str_field(fs, "nickname"@)
    &&& Some(r.flags@) == spec_str_arr_field(fs, "flags"@)
    &&& Some(r.or_addresses@) == spec_str_arr_field(fs, "or_addresses"@)
}

/// `name` names a field of the relay schema whose check fails on `fs`.
pub open spec fn field_bad(fs: Seq<(String, Json)>, name: Seq<char>) -> bool {
    ||| name == "measured"@ && spec_bool_field(fs, name) is None
    ||| name == "recommended_version"@ && spec_bool_field(fs, name) is None
    ||| name == "as_name"@ && !opt_str_field_ok(fs, name)
    ||| name == "as"@ && !opt_str_field_ok(fs, name)
    ||| name == "city_name"@ && !opt_str_field_ok(fs, name)
    ||| name == "country"@ && !opt_str_field_ok(fs, name)
    ||| name == "country_name"@ && !opt_str_field_ok(fs, name)
    ||| name == "region_name"@ && !opt_str_field_ok(fs, name)
    ||| name == "running"@ && spec_bool_field(fs, name) is None
    ||| name == "platform"@ && spec_str_field(fs, name) is None
    ||| name == "version"@ && spec_str_field(fs, name) is None
    ||| name == "fingerprint"@ && spec_str_field(fs, name) is None
    ||| name == "exit_policy"@ && spec_str_arr_field(fs, name) is None
    ||| name == "exit_policy_summary"@ && spec_summary_field(fs, name) is None
    ||| name == "nickname"@ && spec_str_field(fs, name) is None
    ||| name == "flags"@ && spec_str_arr_field(fs, name) is None
    ||| name == "or_addresses"@ && spec_str_arr_field(fs, name) is None
}

/// `j` is a well-formed relay object.
pub open spec fn relay_ok(j: Json) -> bool {
    match j {
        Json::Obj(fs) => relay_fields_ok(fs@),
        _ => false,
    }
}

/// What a decode error on one relay value may name: an offending schema
/// field of the object, or `"relays"` where the value is no object at all.
pub open spec fn relay_bad_at(j: Json, name: Seq<char>) -> bool {
    match j {
        Json::Obj(fs) => field_bad(fs@, name),
        _ => name == "relays"@,
    }
}

/// Decodes one relay object. Succeeds exactly on well-formed objects, and
/// then returns the record verbatim; otherwise the error names an offending
/// field (or `"relays"` where the value is not an object).
pub fn decode_relay(j: &Json) -> (r: Result<Relay, DecodeError>)
    ensures
        r is Ok <==> relay_ok(*j),
        r matches Ok(rel) ==> (*j matches Json::Obj(fs) && relay_matches(fs@, rel)),
        r matches Err(e) ==> relay_bad_at(*j, e.field@),
{
    let fs = match j {
        Json::Obj(fs) => fs,
        _ => {
            return Err(bad_field("relays"));
        },
    };
    let measured = match get_bool(fs, "measured") {
        Ok(v) => v,
        Err(e) => {
            return Err(e);
        },
    };
    let recommended_version = match get_bool(fs, "recommended_version") {
        Ok(v) => v,
        Err(e) => {
            return Err(e);
        },
    };
    let as_name = match get_opt_string(fs, "as_name") {
        Ok(v) => v,
        Err(e) => {
            return Err(e);
        },
    };
    let autonomous_system = match get_opt_string(fs, "as") {
        Ok(v) => v,
        Err(e) => {
            return Err(e);
        },
    };
    let city_name = match get_opt_string(fs, "city_name") {
        Ok(v) => v,
        Err(e) => {
            return Err(e);
        },
    };
    let country = match get_opt_string(fs, "country") {
        Ok(v) => v,
        Err(e) => {
            return Err(e);
        },
    };
    let country_name = match get_opt_string(fs, "country_name") {
        Ok(v) => v,
        Err(e) => {
            return Err(e);
        },
    };
    let region_name = match get_opt_string(fs, "region_name") {
        Ok(v) => v,
        Err(e) => {
            return Err(e);
        },
    };
    let running = match get_bool(fs, "running") {
        Ok(v) => v,
        Err(e) => {
            return Err(e);
        },
    };
    let platform = match get_string(fs, "platform") {
        Ok(v) => v,
        Err(e) => {
            return Err(e);
        },
    };
    let version = match get_string(fs, "version") {
        Ok(v) => v,
        Err(e) => {
            return Err(e);
        },
    };
    let fingerprint = match get_string(fs, "fingerprint") {
        Ok(v) => v,
        Err(e) => {
            return Err(e);
        },
    };
    let exit_policy = match get_strings(fs, "exit_policy") {
        Ok(v) => v,
        Err(e) => {
            return Err(e);
        },
    };
    let exit_policy_summary = match get_summary(fs, "exit_policy_summary") {
        Ok(v) => v,
        Err(e) => {
            return Err(e);
        },
    };
    let nickname = match get_string(fs, "nickname") {
        Ok(v) => v,
        Err(e) => {
            return Err(e);
        },
    };
    let flags = match get_strings(fs, "flags") {
        Ok(v) => v,
        Err(e) => {
            return Err(e);
        },
    };
    let or_addresses = match get_strings(fs, "or_addresses") {
        Ok(v) => v,
        Err(e) => {
            return Err(e);
        },
    };
    Ok(
        Relay {
            measured,
            recommended_version,
            as_name,
            AS: autonomous_system,
            city_name,
            country,
            country_name,
            region_name,
            running,
            platform,
            version,
            fingerprint,
            exit_policy,
            exit_policy_summary,
            nickname,
            flags,
            or_addresses,
        },
    )
}

// --- The whole response ---

/// `j` is a well-formed directory response: an object whose `relays` field
/// holds an array of well-formed relay objects.
pub open spec fn directory_ok(j: Json) -> bool {
    match j {
        Json::Obj(fs) => match lookup(fs@, "relays"@) {
            Some(Json::Arr(els)) => forall|i: int|
                0 <= i < els@.len() ==> relay_ok(#[trigger] els@[i]),
            _ => false,
        },
        _ => false,
    }
}

/// The relay objects of a response, where it has the right outer shape.
pub open spec fn spec_relay_items(j: Json) -> Seq<Json> {
    match j {
        Json::Obj(fs) => match lookup(fs@, "relays"@) {
            Some(Json::Arr(els)) => els@,
            _ => arbitrary(),
        },
        _ => arbitrary(),
    }
}

/// Each record of `rs` holds verbatim what the relay object at the same
/// position of `els` says, and there are exactly as many records as
/// objects.
pub open spec fn relays_match(els: Seq<Json>, rs: Seq<Relay>) -> bool {
    &&& rs.len() == els.len()
    &&& forall|i: int|
        0 <= i < els.len() ==> (#[trigger] els[i] matches Json::Obj(fs) && relay_matches(
            fs@,
            rs[i],
        ))
}

/// What a decode error on a response may name: `"relays"` where the outer
/// shape is wrong, or an offending field of one of the relay objects.
pub open spec fn directory_bad_at(j: Json, name: Seq<char>) -> bool {
    match j {
        Json::Obj(fs) => match lookup(fs@, "relays"@) {
            Some(Json::Arr(els)) => exists|i: int|
                0 <= i < els@.len() && relay_bad_at(#[trigger] els@[i], name),
            _ => name == "relays"@,
        },
        _ => name == "relays"@,
    }
}

/// Decodes a directory response. Succeeds exactly on well-formed responses
/// and then returns one record per relay object, verbatim and in order;
/// otherwise the error names an offending field, and nothing partial comes
/// back.
pub fn decode_directory(j: &Json) -> (r: Result<Vec<Relay>, DecodeError>)
    ensures
        r is Ok <==> directory_ok(*j),
        r matches Ok(v) ==> relays_match(spec_relay_items(*j), v@),
        r matches Err(e) ==> directory_bad_at(*j, e.field@),
{
    let fs = match j {
        Json::Obj(fs) => fs,
        _ => {
            return Err(bad_field("relays"));
        },
    };
    let els = match get(fs, "relays") {
        Some(v) => match v {
            Json::Arr(els) => els,
            _ => {
                return Err(bad_field("relays"));
            },
        },
        None => {
            return Err(bad_field("relays"));
        },
    };
    let mut out: Vec<Relay> = Vec::new();
    let mut i: usize = 0;
    while i < els.len()
        invariant
            *j == Json::Obj(*fs),
            lookup(fs@, "relays"@) == Some(Json::Arr(*els)),
            i <= els@.len(),
            out@.len() == i,
            forall|k: int| 0 <= k < i ==> relay_ok(#[trigger] els@[k]),
            forall|k: int|
                0 <= k < i ==> (#[trigger] els@[k] matches Json::Obj(efs) && relay_matches(
                    efs@,
                    out@[k],
                )),
        decreases els@.len() - i,
    {
        match decode_relay(&els[i]) {
            Ok(rel) => out.push(rel),
            Err(e) => {
                proof {
                    assert(spec_relay_items(*j) == els@);
                    assert(directory_bad_at(*j, e.field@));
                    assert(!directory_ok(*j));
                }
                return Err(e);
            },
        }
        i = i + 1;
    }
    Ok(out)
}

} // verus!
