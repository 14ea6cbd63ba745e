//! The envelope decoder.
//!
//! Every response body is one JSON document that is either a success
//! payload or a structured API error.  The decoder always tries the error
//! shape first — some endpoints report failures inside bodies carrying a
//! success status — and only then the payload shape; a body matching
//! neither is a decode failure carrying the body, never a default value.

use vstd::prelude::*;

use crate::error::{Error, ErrorMessage, ErrorMessageV, ErrorV, RequestError, RequestErrorV};
use crate::json::{dec_val, jv_get, obj_get, parse_json, spec_parse_doc, Json, JsonV};

verus! {

/// A payload type that can be read off a JSON value.
pub trait FromJson: Sized + View {
    /// What JSON values this type accepts, and the value each decodes to.
    spec fn spec_from_json(j: JsonV) -> Option<Self::V>;

    /// Reads a value of this type off a JSON value.
    fn from_json(j: &Json) -> (r: Option<Self>)
        ensures
            match r {
                Some(v) => Self::spec_from_json(j@) == Some(v@),
                None => Self::spec_from_json(j@) is None,
            },
    ;
}

/// The error fields read off one JSON object: `message` and `type` must
/// be strings; `param` and `code` are kept when present and well-typed
/// and dropped otherwise (the API often sends them as `null`).
pub open spec fn spec_error_message_of(j: JsonV) -> Option<ErrorMessageV> {
    match j {
        JsonV::Obj(entries) => match (jv_get(entries, "message"@), jv_get(entries, "type"@)) {
            (Some(JsonV::Str(m)), Some(JsonV::Str(t))) => Some(
                ErrorMessageV {
                    message: m,
                    error_type: t,
                    param: match jv_get(entries, "param"@) {
                        Some(JsonV::Str(p)) => Some(p),
                        _ => None,
                    },
                    code: match jv_get(entries, "code"@) {
                        Some(JsonV::Num(n)) => match dec_val(n) {
                            Some(v) => if i64::MIN <= v <= i64::MAX {
                                Some(v)
                            } else {
                                None
                            },
                            None => None,
                        },
                        _ => None,
                    },
                },
            ),
            _ => None,
        },
        _ => None,
    }
}

/// The error shape: the error fields nested under an `error` key, or —
/// in the older revision of the protocol — at the top level.
pub open spec fn spec_api_error_of(j: JsonV) -> Option<ErrorMessageV> {
    match j {
        JsonV::Obj(entries) => match jv_get(entries, "error"@) {
            Some(inner) => spec_error_message_of(inner),
            None => spec_error_message_of(j),
        },
        _ => None,
    }
}

/// What decoding a body to payload type `T` yields, for every body.
pub open spec fn spec_decode<T: FromJson>(bytes: Seq<u8>) -> Result<T::V, ErrorV> {
    match spec_parse_doc(bytes) {
        None => Err(ErrorV::DecodeError(bytes)),
        Some(j) => match spec_api_error_of(j) {
            Some(e) => Err(ErrorV::APIError(RequestErrorV { error: e })),
            None => match T::spec_from_json(j) {
                Some(v) => Ok(v),
                None => Err(ErrorV::DecodeError(bytes)),
            },
        },
    }
}

fn error_message_of(j: &Json) -> (r: Option<ErrorMessage>)
    ensures
        match r {
            Some(e) => spec_error_message_of(j@) == Some(e@),
            None => spec_error_message_of(j@) is None,
        },
{
    match j {
        Json::Obj(entries) => {
            let m = match obj_get(entries, "message") {
                Some(Json::Str(m)) => m.clone(),
                _ => {
                    return None;
                },
            };
            let t = match obj_get(entries, "type") {
                Some(Json::Str(t)) => t.clone(),
                _ => {
                    return None;
                },
            };
            let p = match obj_get(entries, "param") {
                Some(Json::Str(p)) => Some(p.clone()),
                _ => None,
            };
            let c = match obj_get(entries, "code") {
                Some(Json::Num(n)) => crate::json::parse_dec(n.as_slice()),
                _ => None,
            };
            Some(ErrorMessage { message: m, error_type: t, param: p, code: c })
        },
        _ => None,
    }
}

fn api_error_of(j: &Json) -> (r: Option<ErrorMessage>)
    ensures
        match r {
            Some(e) => spec_api_error_of(j@) == Some(e@),
            None => spec_api_error_of(j@) is None,
        },
{
    match j {
        Json::Obj(entries) => match obj_get(entries, "error") {
            Some(inner) => error_message_of(inner),
            None => error_message_of(j),
        },
        _ => None,
    }
}

impl FromJson for ErrorMessage {
    open spec fn spec_from_json(j: JsonV) -> Option<ErrorMessageV> {
        spec_error_message_of(j)
    }

    fn from_json(j: &Json) -> (r: Option<ErrorMessage>) {
        error_message_of(j)
    }
}

/// Decodes one response body: the error shape first, then the payload
/// shape, and a decode failure carrying the body if neither matches.
pub fn decode<T: FromJson>(bytes: &[u8]) -> (r: Result<T, Error>)
    ensures
        match (r, spec_decode::<T>(bytes@)) {
            (Ok(v), Ok(sv)) => v@ == sv,
            (Err(e), Err(se)) => e@ == se,
            _ => false,
        },
{
    match parse_json(bytes) {
        None => Err(Error::DecodeError(vstd::slice::slice_to_vec(bytes))),
        Some(j) => match api_error_of(&j) {
            Some(e) => Err(Error::APIError(RequestError { error: e })),
            None => match T::from_json(&j) {
                Some(v) => Ok(v),
                None => Err(Error::DecodeError(vstd::slice::slice_to_vec(bytes))),
            },
        },
    }
}

/// A body that matches neither the payload shape nor the error shape is
/// reported as a decode failure carrying that body — never as a payload
/// value made of defaults.
pub proof fn lemma_unrecognized_is_decode_error<T: FromJson>(bytes: Seq<u8>)
    requires
        match spec_parse_doc(bytes) {
            None => true,
            Some(j) => spec_api_error_of(j) is None && T::spec_from_json(j) is None,
        },
    ensures
        spec_decode::<T>(bytes) == Err::<T::V, ErrorV>(ErrorV::DecodeError(bytes)),
{
}

/// A body carrying the error shape decodes to that error, whatever the
/// payload type would have made of the same body.
pub proof fn lemma_error_shape_wins<T: FromJson>(bytes: Seq<u8>, j: JsonV, e: ErrorMessageV)
    requires
        spec_parse_doc(bytes) == Some(j),
        spec_api_error_of(j) == Some(e),
    ensures
        spec_decode::<T>(bytes) == Err::<T::V, ErrorV>(
            ErrorV::APIError(RequestErrorV { error: e }),
        ),
{
}

} // verus!
