//! Trusted boundary to the `serde_json` crate.
//!
//! Response bodies arrive as JSON text. Each function here makes one
//! conceptual query against that text — "the string member named `key` of
//! the top-level object", and so on — through `serde_json`, and its result
//! is named by an uninterpreted spec function of the body text. The names
//! are sound because `serde_json`'s behaviour depends on the text alone:
//! its maps are ordered B-trees, so even re-serialization is a function of
//! the input.
//!
//! All member lookups share one convention: `Err(())` when the body is not
//! a JSON object or the member is present with the wrong type, `Ok(None)`
//! when the member is absent, `Ok(Some(..))` when present with the
//! expected type.

use vstd::prelude::*;

verus! {

/// Whether the body text is a JSON object.
pub uninterp spec fn json_object_check(body: Seq<char>) -> bool;

/// The string member named `key` of the body's top-level object.
pub uninterp spec fn json_str_member(body: Seq<char>, key: Seq<char>) -> Result<
    Option<Seq<char>>,
    (),
>;

/// The integer member named `key` of the body's top-level object.
pub uninterp spec fn json_int_member(body: Seq<char>, key: Seq<char>) -> Result<Option<i64>, ()>;

/// The boolean member named `key` of the body's top-level object.
pub uninterp spec fn json_bool_member(body: Seq<char>, key: Seq<char>) -> Result<Option<bool>, ()>;

/// The string-array member named `key` of the body's top-level object.
pub uninterp spec fn json_str_array_member(body: Seq<char>, key: Seq<char>) -> Result<
    Option<Seq<Seq<char>>>,
    (),
>;

/// The number member named `key` of the body's top-level object, as its
/// JSON text.
pub uninterp spec fn json_num_member(body: Seq<char>, key: Seq<char>) -> Result<
    Option<Seq<char>>,
    (),
>;

/// The member named `key` of the body's top-level object, re-serialized as
/// JSON text.
pub uninterp spec fn json_raw_member(body: Seq<char>, key: Seq<char>) -> Result<
    Option<Seq<char>>,
    (),
>;

/// The array member named `key` of the body's top-level object, each
/// element re-serialized as JSON text.
pub uninterp spec fn json_raw_array_member(body: Seq<char>, key: Seq<char>) -> Result<
    Option<Seq<Seq<char>>>,
    (),
>;

/// The object member named `key` of the body's top-level object, read as a
/// mapping from field names to string arrays, in ascending order of field
/// name.
pub uninterp spec fn json_str_map_member(body: Seq<char>, key: Seq<char>) -> Result<
    Option<Seq<(Seq<char>, Seq<Seq<char>>)>>,
    (),
>;

/// Relies on `serde_json::from_str` and `Value::is_object`: whether the
/// body text parses as a JSON object.
#[verifier::external_body]
pub fn json_is_object(body: &str) -> (r: bool)
    ensures
        r == json_object_check(body@),
{
    match serde_json::from_str::<serde_json::Value>(body) {
        Ok(v) => v.is_object(),
        Err(_) => false,
    }
}

/// Relies on `serde_json::from_str`, `Value::as_object`, `Map::get` and
/// `Value::as_str`: the string member named `key` of the body's top-level
/// object.
#[verifier::external_body]
pub fn json_member_str(body: &str, key: &str) -> (r: Result<Option<String>, ()>)
    ensures
        match r {
            Ok(None) => json_str_member(body@, key@) == Ok::<Option<Seq<char>>, ()>(None),
            Ok(Some(s)) => json_str_member(body@, key@) == Ok::<Option<Seq<char>>, ()>(Some(s@)),
            Err(_) => json_str_member(body@, key@) is Err,
        },
{
    let v: serde_json::Value = serde_json::from_str(body).map_err(|_| ())?;
    let obj = v.as_object().ok_or(())?;
    match obj.get(key) {
        None => Ok(None),
        Some(m) => Ok(Some(m.as_str().ok_or(())?.to_owned())),
    }
}

/// Relies on `serde_json::from_str`, `Value::as_object`, `Map::get` and
/// `Value::as_i64`: the integer member named `key` of the body's top-level
/// object.
#[verifier::external_body]
pub fn json_member_i64(body: &str, key: &str) -> (r: Result<Option<i64>, ()>)
    ensures
        match r {
            Ok(m) => json_int_member(body@, key@) == Ok::<Option<i64>, ()>(m),
            Err(_) => json_int_member(body@, key@) is Err,
        },
{
    let v: serde_json::Value = serde_json::from_str(body).map_err(|_| ())?;
    let obj = v.as_object().ok_or(())?;
    match obj.get(key) {
        None => Ok(None),
        Some(m) => Ok(Some(m.as_i64().ok_or(())?)),
    }
}

/// Relies on `serde_json::from_str`, `Value::as_object`, `Map::get` and
/// `Value::as_bool`: the boolean member named `key` of the body's
/// top-level object.
#[verifier::external_body]
pub fn json_member_bool(body: &str, key: &str) -> (r: Result<Option<bool>, ()>)
    ensures
        match r {
            Ok(m) => json_bool_member(body@, key@) == Ok::<Option<bool>, ()>(m),
            Err(_) => json_bool_member(body@, key@) is Err,
        },
{
    let v: serde_json::Value = serde_json::from_str(body).map_err(|_| ())?;
    let obj = v.as_object().ok_or(())?;
    match obj.get(key) {
        None => Ok(None),
        Some(m) => Ok(Some(m.as_bool().ok_or(())?)),
    }
}

/// Relies on `serde_json::from_str`, `Value::as_object`, `Map::get`,
/// `Value::as_array` and `Value::as_str`: the string-array member named
/// `key` of the body's top-level object.
#[verifier::external_body]
pub fn json_member_str_array(body: &str, key: &str) -> (r: Result<Option<Vec<String>>, ()>)
    ensures
        match r {
            Ok(None) => json_str_array_member(body@, key@) == Ok::<Option<Seq<Seq<char>>>, ()>(
                None,
            ),
            Ok(Some(items)) => json_str_array_member(body@, key@) == Ok::<
                Option<Seq<Seq<char>>>,
                (),
            >(Some(items.deep_view())),
            Err(_) => json_str_array_member(body@, key@) is Err,
        },
{
    let v: serde_json::Value = serde_json::from_str(body).map_err(|_| ())?;
    let obj = v.as_object().ok_or(())?;
    let arr = match obj.get(key) {
        None => return Ok(None),
        Some(m) => m.as_array().ok_or(())?,
    };
    let mut out = Vec::new();
    for it in arr {
        out.push(it.as_str().ok_or(())?.to_owned());
    }
    Ok(Some(out))
}

/// Relies on `serde_json::from_str`, `Value::as_object`, `Map::get` and
/// `Value::as_number`: the number member named `key` of the body's
/// top-level object, carried as its JSON text.
#[verifier::external_body]
pub fn json_member_num(body: &str, key: &str) -> (r: Result<Option<String>, ()>)
    ensures
        match r {
            Ok(None) => json_num_member(body@, key@) == Ok::<Option<Seq<char>>, ()>(None),
            Ok(Some(s)) => json_num_member(body@, key@) == Ok::<Option<Seq<char>>, ()>(Some(s@)),
            Err(_) => json_num_member(body@, key@) is Err,
        },
{
    let v: serde_json::Value = serde_json::from_str(body).map_err(|_| ())?;
    let obj = v.as_object().ok_or(())?;
    match obj.get(key) {
        None => Ok(None),
        Some(m) => Ok(Some(m.as_number().ok_or(())?.to_string())),
    }
}

/// Relies on `serde_json::from_str`, `Value::as_object`, `Map::get` and
/// `serde_json::to_string`: the member named `key` of the body's top-level
/// object, re-serialized as JSON text.
#[verifier::external_body]
pub fn json_member_raw(body: &str, key: &str) -> (r: Result<Option<String>, ()>)
    ensures
        match r {
            Ok(None) => json_raw_member(body@, key@) == Ok::<Option<Seq<char>>, ()>(None),
            Ok(Some(s)) => json_raw_member(body@, key@) == Ok::<Option<Seq<char>>, ()>(Some(s@)),
            Err(_) => json_raw_member(body@, key@) is Err,
        },
{
    let v: serde_json::Value = serde_json::from_str(body).map_err(|_| ())?;
    let obj = v.as_object().ok_or(())?;
    match obj.get(key) {
        None => Ok(None),
        Some(m) => Ok(Some(serde_json::to_string(m).map_err(|_| ())?)),
    }
}

/// Relies on `serde_json::from_str`, `Value::as_object`, `Map::get`,
/// `Value::as_array` and `serde_json::to_string`: the array member named
/// `key` of the body's top-level object, each element re-serialized as
/// JSON text.
#[verifier::external_body]
pub fn json_member_raw_array(body: &str, key: &str) -> (r: Result<Option<Vec<String>>, ()>)
    ensures
        match r {
            Ok(None) => json_raw_array_member(body@, key@) == Ok::<Option<Seq<Seq<char>>>, ()>(
                None,
            ),
            Ok(Some(items)) => json_raw_array_member(body@, key@) == Ok::<
                Option<Seq<Seq<char>>>,
                (),
            >(Some(items.deep_view())),
            Err(_) => json_raw_array_member(body@, key@) is Err,
        },
{
    let v: serde_json::Value = serde_json::from_str(body).map_err(|_| ())?;
    let obj = v.as_object().ok_or(())?;
    let arr = match obj.get(key) {
        None => return Ok(None),
        Some(m) => m.as_array().ok_or(())?,
    };
    let mut out = Vec::new();
    for it in arr {
        out.push(serde_json::to_string(it).map_err(|_| ())?);
    }
    Ok(Some(out))
}

/// Relies on `serde_json::from_str`, `Value::as_object`, `Map::get`,
/// `Map::iter`, `Value::as_array` and `Value::as_str`: the object member
/// named `key` of the body's top-level object, read as a mapping from
/// field names to string arrays, in ascending order of field name.
#[verifier::external_body]
pub fn json_member_str_map(body: &str, key: &str) -> (r: Result<
    Option<Vec<(String, Vec<String>)>>,
    (),
>)
    ensures
        match r {
            Ok(None) => json_str_map_member(body@, key@) == Ok::<
                Option<Seq<(Seq<char>, Seq<Seq<char>>)>>,
                (),
            >(None),
            Ok(Some(entries)) => json_str_map_member(body@, key@) == Ok::<
                Option<Seq<(Seq<char>, Seq<Seq<char>>)>>,
                (),
            >(Some(entries.deep_view())),
            Err(_) => json_str_map_member(body@, key@) is Err,
        },
{
    let v: serde_json::Value = serde_json::from_str(body).map_err(|_| ())?;
    let obj = v.as_object().ok_or(())?;
    let mm = match obj.get(key) {
        None => return Ok(None),
        Some(m) => m.as_object().ok_or(())?,
    };
    let mut out = Vec::new();
    for (k, val) in mm {
        let mut msgs = Vec::new();
        for it in val.as_array().ok_or(())? {
            msgs.push(it.as_str().ok_or(())?.to_owned());
        }
        out.push((k.clone(), msgs));
    }
    Ok(Some(out))
}

} // verus!
