//! The trusted boundary to the JSON payload encoding.
//!
//! Every function here is an `external_body` wrapper around one call into
//! serde_json. What such a call returns is a function of its arguments
//! alone, so each result is given a name (an uninterpreted spec function)
//! that the verified codec and extractors speak of exactly. Nothing else
//! in the crate touches serde_json.

use vstd::prelude::*;

use crate::types::{Diagnostic, Edit, Location};

verus! {

/// The object text `obj` with `key` bound to the string `val`.
pub uninterp spec fn obj_with_text(obj: Seq<char>, key: Seq<char>, val: Seq<char>) -> Seq<char>;

/// The object text `obj` with `key` bound to the number `val`.
pub uninterp spec fn obj_with_nat(obj: Seq<char>, key: Seq<char>, val: u64) -> Seq<char>;

/// The object text `obj` with `key` bound to the boolean `val`.
pub uninterp spec fn obj_with_flag(obj: Seq<char>, key: Seq<char>, val: bool) -> Seq<char>;

/// The object text `obj` with `key` bound to the string list `items`.
pub uninterp spec fn obj_with_list(obj: Seq<char>, key: Seq<char>, items: Seq<Seq<char>>) -> Seq<
    char,
>;

/// The payload bytes of a request with the given identifier, method and
/// parameter object text.
pub uninterp spec fn request_payload(id: u64, method: Seq<char>, params: Seq<char>) -> Seq<u8>;

/// The payload bytes of a notification with the given method and
/// parameter object text.
pub uninterp spec fn note_payload(method: Seq<char>, params: Seq<char>) -> Seq<u8>;

/// The response/request identifier a payload carries, if any.
pub uninterp spec fn wire_id(payload: Seq<u8>) -> Option<u64>;

/// The method name a payload carries, if any.
pub uninterp spec fn wire_method(payload: Seq<u8>) -> Option<Seq<char>>;

/// The result member of a payload as JSON text, if present.
pub uninterp spec fn wire_result(payload: Seq<u8>) -> Option<Seq<char>>;

/// The error member of a payload, as code and message, if present.
pub uninterp spec fn wire_error(payload: Seq<u8>) -> Option<(i64, Seq<char>)>;

/// The params member of a payload as JSON text, if present.
pub uninterp spec fn wire_params(payload: Seq<u8>) -> Option<Seq<char>>;

/// How many locations a result text lists, if it is a location list.
pub uninterp spec fn wire_loc_count(result: Seq<char>) -> Option<usize>;

/// The location at `i` in a result text, as path, line and character.
pub uninterp spec fn wire_loc_at(result: Seq<char>, i: int) -> Option<(Seq<char>, u32, u32)>;

/// How many edits a result text lists, if it is an edit list.
pub uninterp spec fn wire_edit_count(result: Seq<char>) -> Option<usize>;

/// The edit at `i` in a result text: path, range and new text.
pub uninterp spec fn wire_edit_at(result: Seq<char>, i: int) -> Option<
    (Seq<char>, u32, u32, u32, u32, Seq<char>),
>;

/// The plain text a result text holds, if it is a JSON string.
pub uninterp spec fn wire_text(result: Seq<char>) -> Option<Seq<char>>;

/// The document path a diagnostics notification's params name, if any.
pub uninterp spec fn wire_diag_path(params: Seq<char>) -> Option<Seq<char>>;

/// How many diagnostics a diagnostics notification's params list, if any.
pub uninterp spec fn wire_diag_count(params: Seq<char>) -> Option<usize>;

/// The diagnostic at `i` in a diagnostics notification's params: range,
/// severity, message and source.
pub uninterp spec fn wire_diag_at(params: Seq<char>, i: int) -> Option<
    (u32, u32, u32, u32, u32, Seq<char>, Seq<char>),
>;

/// Relies on serde_json::from_str, Map::insert and Value's Display: the
/// given object text with one more string member.
#[verifier::external_body]
pub(crate) fn obj_insert_text(obj: &str, key: &str, val: &str) -> (r: String)
    ensures
        r@ == obj_with_text(obj@, key@, val@),
{
    let mut v: serde_json::Value =
        serde_json::from_str(obj).unwrap_or(serde_json::Value::Object(serde_json::Map::new()));
    if let Some(m) = v.as_object_mut() {
        m.insert(key.to_string(), serde_json::Value::from(val));
    }
    v.to_string()
}

/// Relies on serde_json::from_str, Map::insert and Value's Display: the
/// given object text with one more number member.
#[verifier::external_body]
pub(crate) fn obj_insert_nat(obj: &str, key: &str, val: u64) -> (r: String)
    ensures
        r@ == obj_with_nat(obj@, key@, val),
{
    let mut v: serde_json::Value =
        serde_json::from_str(obj).unwrap_or(serde_json::Value::Object(serde_json::Map::new()));
    if let Some(m) = v.as_object_mut() {
        m.insert(key.to_string(), serde_json::Value::from(val));
    }
    v.to_string()
}

/// Relies on serde_json::from_str, Map::insert and Value's Display: the
/// given object text with one more boolean member.
#[verifier::external_body]
pub(crate) fn obj_insert_flag(obj: &str, key: &str, val: bool) -> (r: String)
    ensures
        r@ == obj_with_flag(obj@, key@, val),
{
    let mut v: serde_json::Value =
        serde_json::from_str(obj).unwrap_or(serde_json::Value::Object(serde_json::Map::new()));
    if let Some(m) = v.as_object_mut() {
        m.insert(key.to_string(), serde_json::Value::from(val));
    }
    v.to_string()
}

/// Relies on serde_json::from_str, Map::insert and Value's Display: the
/// given object text with one more string-array member.
#[verifier::external_body]
pub(crate) fn obj_insert_list(obj: &str, key: &str, items: &Vec<String>) -> (r: String)
    ensures
        r@ == obj_with_list(obj@, key@, items.deep_view()),
{
    let mut v: serde_json::Value =
        serde_json::from_str(obj).unwrap_or(serde_json::Value::Object(serde_json::Map::new()));
    if let Some(m) = v.as_object_mut() {
        m.insert(key.to_string(), serde_json::Value::from(items.clone()));
    }
    v.to_string()
}

/// Relies on serde_json::to_vec on a request object assembled from the
/// given identifier, method and parameter object text.
#[verifier::external_body]
pub(crate) fn request_payload_bytes(id: u64, method: &str, params: &str) -> (r: Vec<u8>)
    ensures
        r@ == request_payload(id, method@, params@),
{
    let mut m = serde_json::Map::new();
    m.insert("jsonrpc".to_string(), serde_json::Value::from("2.0"));
    m.insert("id".to_string(), serde_json::Value::from(id));
    m.insert("method".to_string(), serde_json::Value::from(method));
    let p: serde_json::Value =
        serde_json::from_str(params).unwrap_or(serde_json::Value::Object(serde_json::Map::new()));
    m.insert("params".to_string(), p);
    serde_json::to_vec(&serde_json::Value::Object(m)).unwrap_or_default()
}

/// Relies on serde_json::to_vec on a notification object assembled from
/// the given method and parameter object text.
#[verifier::external_body]
pub(crate) fn note_payload_bytes(method: &str, params: &str) -> (r: Vec<u8>)
    ensures
        r@ == note_payload(method@, params@),
{
    let mut m = serde_json::Map::new();
    m.insert("jsonrpc".to_string(), serde_json::Value::from("2.0"));
    m.insert("method".to_string(), serde_json::Value::from(method));
    let p: serde_json::Value =
        serde_json::from_str(params).unwrap_or(serde_json::Value::Object(serde_json::Map::new()));
    m.insert("params".to_string(), p);
    serde_json::to_vec(&serde_json::Value::Object(m)).unwrap_or_default()
}

/// Relies on serde_json::from_slice and Value::as_u64: the payload's
/// numeric identifier member, if present.
#[verifier::external_body]
pub(crate) fn wire_id_of(payload: &Vec<u8>) -> (r: Option<u64>)
    ensures
        r == wire_id(payload@),
{
    let v: serde_json::Value = serde_json::from_slice(payload).ok()?;
    v.get("id")?.as_u64()
}

/// Relies on serde_json::from_slice and Value::as_str: the payload's
/// method member, if present.
#[verifier::external_body]
pub(crate) fn wire_method_of(payload: &Vec<u8>) -> (r: Option<String>)
    ensures
        match r {
            Some(s) => wire_method(payload@) == Some(s@),
            None => wire_method(payload@) is None,
        },
{
    let v: serde_json::Value = serde_json::from_slice(payload).ok()?;
    Some(v.get("method")?.as_str()?.to_string())
}

/// Relies on serde_json::from_slice and Value's Display: the payload's
/// result member re-rendered as JSON text, if present.
#[verifier::external_body]
pub(crate) fn wire_result_of(payload: &Vec<u8>) -> (r: Option<String>)
    ensures
        match r {
            Some(s) => wire_result(payload@) == Some(s@),
            None => wire_result(payload@) is None,
        },
{
    let v: serde_json::Value = serde_json::from_slice(payload).ok()?;
    Some(v.get("result")?.to_string())
}

/// Relies on serde_json::from_slice, Value::as_i64 and Value::as_str: the
/// payload's error member as code and message, if present.
#[verifier::external_body]
pub(crate) fn wire_error_of(payload: &Vec<u8>) -> (r: Option<(i64, String)>)
    ensures
        match r {
            Some(e) => wire_error(payload@) == Some((e.0, e.1@)),
            None => wire_error(payload@) is None,
        },
{
    let v: serde_json::Value = serde_json::from_slice(payload).ok()?;
    let e = v.get("error")?;
    let code = e.get("code").and_then(|c| c.as_i64()).unwrap_or(0);
    let msg = e.get("message").and_then(|s| s.as_str()).unwrap_or("").to_string();
    Some((code, msg))
}

/// Relies on serde_json::from_slice and Value's Display: the payload's
/// params member re-rendered as JSON text, if present.
#[verifier::external_body]
pub(crate) fn wire_params_of(payload: &Vec<u8>) -> (r: Option<String>)
    ensures
        match r {
            Some(s) => wire_params(payload@) == Some(s@),
            None => wire_params(payload@) is None,
        },
{
    let v: serde_json::Value = serde_json::from_slice(payload).ok()?;
    Some(v.get("params")?.to_string())
}

/// Relies on serde_json::from_str and Value::as_array: how many entries
/// the result text's location list holds.
#[verifier::external_body]
pub(crate) fn loc_count_of(result: &str) -> (r: Option<usize>)
    ensures
        r == wire_loc_count(result@),
{
    let v: serde_json::Value = serde_json::from_str(result).ok()?;
    Some(v.as_array()?.len())
}

/// Relies on serde_json::from_str and Value's accessors: the location at
/// `i` of the result text's location list.
#[verifier::external_body]
pub(crate) fn loc_at_of(result: &str, i: usize) -> (r: Option<Location>)
    ensures
        match r {
            Some(l) => wire_loc_at(result@, i as int) == Some((l.path@, l.line, l.character)),
            None => wire_loc_at(result@, i as int) is None,
        },
{
    let v: serde_json::Value = serde_json::from_str(result).ok()?;
    let e = v.get(i)?;
    Some(
        Location {
            path: e.get("path")?.as_str()?.to_string(),
            line: u32::try_from(e.get("line")?.as_u64()?).ok()?,
            character: u32::try_from(e.get("character")?.as_u64()?).ok()?,
        },
    )
}

/// Relies on serde_json::from_str and Value::as_array: how many entries
/// the result text's edit list holds.
#[verifier::external_body]
pub(crate) fn edit_count_of(result: &str) -> (r: Option<usize>)
    ensures
        r == wire_edit_count(result@),
{
    let v: serde_json::Value = serde_json::from_str(result).ok()?;
    Some(v.as_array()?.len())
}

/// Relies on serde_json::from_str and Value's accessors: the edit at `i`
/// of the result text's edit list.
#[verifier::external_body]
pub(crate) fn edit_at_of(result: &str, i: usize) -> (r: Option<Edit>)
    ensures
        match r {
            Some(e) => wire_edit_at(result@, i as int) == Some(
                (e.path@, e.start_line, e.start_character, e.end_line, e.end_character, e.new_text@),
            ),
            None => wire_edit_at(result@, i as int) is None,
        },
{
    let v: serde_json::Value = serde_json::from_str(result).ok()?;
    let e = v.get(i)?;
    Some(
        Edit {
            path: e.get("path")?.as_str()?.to_string(),
            start_line: u32::try_from(e.get("start_line")?.as_u64()?).ok()?,
            start_character: u32::try_from(e.get("start_character")?.as_u64()?).ok()?,
            end_line: u32::try_from(e.get("end_line")?.as_u64()?).ok()?,
            end_character: u32::try_from(e.get("end_character")?.as_u64()?).ok()?,
            new_text: e.get("new_text")?.as_str()?.to_string(),
        },
    )
}

/// Relies on serde_json::from_str and Value::as_str: the plain string the
/// result text holds, if it is a JSON string.
#[verifier::external_body]
pub(crate) fn text_of(result: &str) -> (r: Option<String>)
    ensures
        match r {
            Some(s) => wire_text(result@) == Some(s@),
            None => wire_text(result@) is None,
        },
{
    let v: serde_json::Value = serde_json::from_str(result).ok()?;
    Some(v.as_str()?.to_string())
}

/// Relies on serde_json::from_str and Value::as_str: the document path a
/// diagnostics notification's params name.
#[verifier::external_body]
pub(crate) fn diag_path_of(params: &str) -> (r: Option<String>)
    ensures
        match r {
            Some(s) => wire_diag_path(params@) == Some(s@),
            None => wire_diag_path(params@) is None,
        },
{
    let v: serde_json::Value = serde_json::from_str(params).ok()?;
    Some(v.get("path")?.as_str()?.to_string())
}

/// Relies on serde_json::from_str and Value::as_array: how many entries
/// the diagnostics notification's params list.
#[verifier::external_body]
pub(crate) fn diag_count_of(params: &str) -> (r: Option<usize>)
    ensures
        r == wire_diag_count(params@),
{
    let v: serde_json::Value = serde_json::from_str(params).ok()?;
    Some(v.get("diagnostics")?.as_array()?.len())
}

/// Relies on serde_json::from_str and Value's accessors: the diagnostic
/// at `i` of the diagnostics notification's params list.
#[verifier::external_body]
pub(crate) fn diag_at_of(params: &str, i: usize) -> (r: Option<Diagnostic>)
    ensures
        match r {
            Some(d) => wire_diag_at(params@, i as int) == Some(
                (
                    d.start_line,
                    d.start_character,
                    d.end_line,
                    d.end_character,
                    d.severity,
                    d.message@,
                    d.source@,
                ),
            ),
            None => wire_diag_at(params@, i as int) is None,
        },
{
    let v: serde_json::Value = serde_json::from_str(params).ok()?;
    let e = v.get("diagnostics")?.get(i)?;
    Some(
        Diagnostic {
            start_line: u32::try_from(e.get("start_line")?.as_u64()?).ok()?,
            start_character: u32::try_from(e.get("start_character")?.as_u64()?).ok()?,
            end_line: u32::try_from(e.get("end_line")?.as_u64()?).ok()?,
            end_character: u32::try_from(e.get("end_character")?.as_u64()?).ok()?,
            severity: u32::try_from(e.get("severity")?.as_u64()?).ok()?,
            message: e.get("message")?.as_str()?.to_string(),
            source: e.get("source")?.as_str()?.to_string(),
        },
    )
}

} // verus!
