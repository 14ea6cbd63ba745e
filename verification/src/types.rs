//! The typed values the endpoints exchange, and how each is read off a
//! JSON document.
//!
//! Response types mirror the wire shapes.  Types whose wire form fills
//! missing fields with defaults do so here too; the others require their
//! fields.  Numeric fields that are not integers on the wire are kept as
//! their literal text in a [`Number`], so the library stays free of
//! floating point.

use vstd::prelude::*;
use vstd::string::StringExecFns;

use crate::client::{parts_view, FormPart, FormPartV, MultipartForm, ToJson};
use crate::envelope::FromJson;
use crate::json::{
    arr_view, dec_val, jv_get, lemma_arr_view, obj_get, obj_view, Json, JsonV,
};

verus! {

broadcast use vstd::std_specs::vec::group_vec_axioms, vstd::seq::group_seq_axioms;

/// The views of the elements of a sequence.
pub open spec fn views_of<T: View>(s: Seq<T>) -> Seq<T::V> {
    Seq::new(s.len(), |i: int| s[i]@)
}

// ---------------------------------------------------------------------------
// Reading single fields off an object.  Each spec function returns `None`
// for "this object cannot be decoded" and `Some(value)` otherwise; the
// `dflt_` readers fill a missing field with the type's default, the
// `opt_` readers with `None`, and the `req_` readers fail on it.
// ---------------------------------------------------------------------------

pub open spec fn dflt_string(es: Seq<(Seq<char>, JsonV)>, key: Seq<char>) -> Option<Seq<char>> {
    match jv_get(es, key) {
        None => Some(Seq::empty()),
        Some(JsonV::Str(s)) => Some(s),
        Some(_) => None,
    }
}

pub open spec fn req_string(es: Seq<(Seq<char>, JsonV)>, key: Seq<char>) -> Option<Seq<char>> {
    match jv_get(es, key) {
        Some(JsonV::Str(s)) => Some(s),
        _ => None,
    }
}

pub open spec fn opt_string(es: Seq<(Seq<char>, JsonV)>, key: Seq<char>) -> Option<
    Option<Seq<char>>,
> {
    match jv_get(es, key) {
        None => Some(None),
        Some(JsonV::Null) => Some(None),
        Some(JsonV::Str(s)) => Some(Some(s)),
        Some(_) => None,
    }
}

pub open spec fn num_int(v: JsonV) -> Option<int> {
    match v {
        JsonV::Num(n) => dec_val(n),
        _ => None,
    }
}

pub open spec fn dflt_int(es: Seq<(Seq<char>, JsonV)>, key: Seq<char>, lo: int, hi: int) -> Option<
    int,
> {
    match jv_get(es, key) {
        None => Some(0),
        Some(v) => match num_int(v) {
            Some(n) => if lo <= n <= hi {
                Some(n)
            } else {
                None
            },
            None => None,
        },
    }
}

pub open spec fn req_int(es: Seq<(Seq<char>, JsonV)>, key: Seq<char>, lo: int, hi: int) -> Option<
    int,
> {
    match jv_get(es, key) {
        Some(v) => match num_int(v) {
            Some(n) => if lo <= n <= hi {
                Some(n)
            } else {
                None
            },
            None => None,
        },
        _ => None,
    }
}

pub open spec fn opt_int(es: Seq<(Seq<char>, JsonV)>, key: Seq<char>, lo: int, hi: int) -> Option<
    Option<int>,
> {
    match jv_get(es, key) {
        None => Some(None),
        Some(JsonV::Null) => Some(None),
        Some(v) => match num_int(v) {
            Some(n) => if lo <= n <= hi {
                Some(Some(n))
            } else {
                None
            },
            None => None,
        },
    }
}

pub open spec fn dflt_bool(es: Seq<(Seq<char>, JsonV)>, key: Seq<char>) -> Option<bool> {
    match jv_get(es, key) {
        None => Some(false),
        Some(JsonV::Bool(b)) => Some(b),
        Some(_) => None,
    }
}

/// A number field kept verbatim: the literal bytes of the wire value.
pub open spec fn opt_num_raw(es: Seq<(Seq<char>, JsonV)>, key: Seq<char>) -> Option<
    Option<Seq<u8>>,
> {
    match jv_get(es, key) {
        None => Some(None),
        Some(JsonV::Null) => Some(None),
        Some(JsonV::Num(n)) => Some(Some(n)),
        Some(_) => None,
    }
}

pub open spec fn dflt_num_raw(es: Seq<(Seq<char>, JsonV)>, key: Seq<char>) -> Option<Seq<u8>> {
    match jv_get(es, key) {
        None => Some(seq![48u8]),
        Some(JsonV::Num(n)) => Some(n),
        Some(_) => None,
    }
}

// ---------------------------------------------------------------------------
// The matching executable readers.
// ---------------------------------------------------------------------------

pub fn get_dflt_string(entries: &Vec<(String, Json)>, key: &str) -> (r: Option<String>)
    ensures
        match r {
            Some(s) => dflt_string(obj_view(entries@), key@) == Some(s@),
            None => dflt_string(obj_view(entries@), key@) is None,
        },
{
    match obj_get(entries, key) {
        None => Some(String::new()),
        Some(Json::Str(s)) => Some(s.clone()),
        Some(_) => None,
    }
}

pub fn get_req_string(entries: &Vec<(String, Json)>, key: &str) -> (r: Option<String>)
    ensures
        match r {
            Some(s) => req_string(obj_view(entries@), key@) == Some(s@),
            None => req_string(obj_view(entries@), key@) is None,
        },
{
    match obj_get(entries, key) {
        Some(Json::Str(s)) => Some(s.clone()),
        _ => None,
    }
}

pub fn get_opt_string(entries: &Vec<(String, Json)>, key: &str) -> (r: Option<Option<String>>)
    ensures
        match r {
            Some(None) => opt_string(obj_view(entries@), key@) == Some(None::<Seq<char>>),
            Some(Some(s)) => opt_string(obj_view(entries@), key@) == Some(Some(s@)),
            None => opt_string(obj_view(entries@), key@) is None,
        },
{
    match obj_get(entries, key) {
        None => Some(None),
        Some(Json::Null) => Some(None),
        Some(Json::Str(s)) => Some(Some(s.clone())),
        Some(_) => None,
    }
}

fn get_int(v: &Json, lo: i64, hi: i64) -> (r: Option<i64>)
    requires
        lo <= hi,
    ensures
        match r {
            Some(n) => num_int(v@) == Some(n as int) && lo <= n <= hi,
            None => match num_int(v@) {
                Some(n) => !(lo as int <= n <= hi as int),
                None => true,
            },
        },
{
    match v {
        Json::Num(nb) => match crate::json::parse_dec(nb.as_slice()) {
            Some(n) => if lo <= n && n <= hi {
                Some(n)
            } else {
                None
            },
            None => None,
        },
        _ => None,
    }
}

pub fn get_dflt_i64(entries: &Vec<(String, Json)>, key: &str, lo: i64, hi: i64) -> (r: Option<i64>)
    requires
        lo <= 0 <= hi,
    ensures
        match r {
            Some(n) => dflt_int(obj_view(entries@), key@, lo as int, hi as int) == Some(n as int),
            None => dflt_int(obj_view(entries@), key@, lo as int, hi as int) is None,
        },
{
    match obj_get(entries, key) {
        None => Some(0),
        Some(v) => get_int(v, lo, hi),
    }
}

pub fn get_req_i64(entries: &Vec<(String, Json)>, key: &str, lo: i64, hi: i64) -> (r: Option<i64>)
    requires
        lo <= hi,
    ensures
        match r {
            Some(n) => req_int(obj_view(entries@), key@, lo as int, hi as int) == Some(n as int),
            None => req_int(obj_view(entries@), key@, lo as int, hi as int) is None,
        },
{
    match obj_get(entries, key) {
        None => None,
        Some(v) => get_int(v, lo, hi),
    }
}

pub fn get_opt_i64(entries: &Vec<(String, Json)>, key: &str, lo: i64, hi: i64) -> (r: Option<
    Option<i64>,
>)
    requires
        lo <= hi,
    ensures
        match r {
            Some(None) => opt_int(obj_view(entries@), key@, lo as int, hi as int) == Some(
                None::<int>,
            ),
            Some(Some(n)) => opt_int(obj_view(entries@), key@, lo as int, hi as int) == Some(
                Some(n as int),
            ),
            None => opt_int(obj_view(entries@), key@, lo as int, hi as int) is None,
        },
{
    match obj_get(entries, key) {
        None => Some(None),
        Some(Json::Null) => Some(None),
        Some(v) => match get_int(v, lo, hi) {
            Some(n) => Some(Some(n)),
            None => None,
        },
    }
}

pub fn get_dflt_u64(entries: &Vec<(String, Json)>, key: &str) -> (r: Option<u64>)
    ensures
        match r {
            Some(n) => dflt_int(obj_view(entries@), key@, 0, i64::MAX as int) == Some(n as int),
            None => dflt_int(obj_view(entries@), key@, 0, i64::MAX as int) is None,
        },
{
    match get_dflt_i64(entries, key, 0, i64::MAX) {
        Some(n) => Some(n as u64),
        None => None,
    }
}

pub fn get_req_u64(entries: &Vec<(String, Json)>, key: &str) -> (r: Option<u64>)
    ensures
        match r {
            Some(n) => req_int(obj_view(entries@), key@, 0, i64::MAX as int) == Some(n as int),
            None => req_int(obj_view(entries@), key@, 0, i64::MAX as int) is None,
        },
{
    match get_req_i64(entries, key, 0, i64::MAX) {
        Some(n) => Some(n as u64),
        None => None,
    }
}

pub fn get_opt_u64(entries: &Vec<(String, Json)>, key: &str) -> (r: Option<Option<u64>>)
    ensures
        match r {
            Some(None) => opt_int(obj_view(entries@), key@, 0, i64::MAX as int) == Some(
                None::<int>,
            ),
            Some(Some(n)) => opt_int(obj_view(entries@), key@, 0, i64::MAX as int) == Some(
                Some(n as int),
            ),
            None => opt_int(obj_view(entries@), key@, 0, i64::MAX as int) is None,
        },
{
    match get_opt_i64(entries, key, 0, i64::MAX) {
        Some(None) => Some(None),
        Some(Some(n)) => Some(Some(n as u64)),
        None => None,
    }
}

pub fn get_dflt_bool(entries: &Vec<(String, Json)>, key: &str) -> (r: Option<bool>)
    ensures
        match r {
            Some(b) => dflt_bool(obj_view(entries@), key@) == Some(b),
            None => dflt_bool(obj_view(entries@), key@) is None,
        },
{
    match obj_get(entries, key) {
        None => Some(false),
        Some(Json::Bool(b)) => Some(*b),
        Some(_) => None,
    }
}

/// A numeric wire value kept as its literal text.
#[derive(Debug, Clone, PartialEq, Eq)]
pub struct Number {
    pub raw: Vec<u8>,
}

impl View for Number {
    type V = Seq<u8>;

    open spec fn view(&self) -> Seq<u8> {
        self.raw@
    }
}

impl Number {
    /// The literal `0`.
    pub fn zero() -> (r: Number)
        ensures
            r@ == seq![48u8],
    {
        let mut raw: Vec<u8> = Vec::new();
        raw.push(48);
        proof {
            assert(raw@ =~= seq![48u8]);
        }
        Number { raw }
    }

    /// The literal of an integer.
    pub fn from_i64(n: i64) -> (r: Number)
        ensures
            dec_val(r@) == Some(n as int),
    {
        Number { raw: crate::json::i64_to_dec(n) }
    }

    /// The integer this literal denotes, if it is one that fits an `i64`.
    pub fn as_i64(&self) -> (r: Option<i64>)
        ensures
            r matches Some(n) ==> dec_val(self@) == Some(n as int),
    {
        crate::json::parse_dec(self.raw.as_slice())
    }
}

pub fn get_opt_number(entries: &Vec<(String, Json)>, key: &str) -> (r: Option<Option<Number>>)
    ensures
        match r {
            Some(None) => opt_num_raw(obj_view(entries@), key@) == Some(None::<Seq<u8>>),
            Some(Some(n)) => opt_num_raw(obj_view(entries@), key@) == Some(Some(n@)),
            None => opt_num_raw(obj_view(entries@), key@) is None,
        },
{
    match obj_get(entries, key) {
        None => Some(None),
        Some(Json::Null) => Some(None),
        Some(Json::Num(n)) => Some(Some(Number { raw: crate::json::copy_range(n.as_slice(), 0, n.len()) })),
        Some(_) => None,
    }
}

pub fn get_dflt_number(entries: &Vec<(String, Json)>, key: &str) -> (r: Option<Number>)
    ensures
        match r {
            Some(n) => dflt_num_raw(obj_view(entries@), key@) == Some(n@),
            None => dflt_num_raw(obj_view(entries@), key@) is None,
        },
{
    match obj_get(entries, key) {
        None => Some(Number::zero()),
        Some(Json::Num(n)) => Some(Number { raw: crate::json::copy_range(n.as_slice(), 0, n.len()) }),
        Some(_) => None,
    }
}

// ---------------------------------------------------------------------------
// Reading nested payloads and arrays of payloads.
// ---------------------------------------------------------------------------

/// An optional nested payload: missing or `null` is `None`, anything
/// else must decode.
pub open spec fn opt_payload<T: FromJson>(es: Seq<(Seq<char>, JsonV)>, key: Seq<char>) -> Option<
    Option<T::V>,
> {
    match jv_get(es, key) {
        None => Some(None),
        Some(JsonV::Null) => Some(None),
        Some(v) => match T::spec_from_json(v) {
            Some(t) => Some(Some(t)),
            None => None,
        },
    }
}

pub fn get_opt_payload<T: FromJson>(entries: &Vec<(String, Json)>, key: &str) -> (r: Option<
    Option<T>,
>)
    ensures
        match r {
            Some(None) => opt_payload::<T>(obj_view(entries@), key@) == Some(None::<T::V>),
            Some(Some(t)) => opt_payload::<T>(obj_view(entries@), key@) == Some(Some(t@)),
            None => opt_payload::<T>(obj_view(entries@), key@) is None,
        },
{
    match obj_get(entries, key) {
        None => Some(None),
        Some(Json::Null) => Some(None),
        Some(v) => match T::from_json(v) {
            Some(t) => Some(Some(t)),
            None => None,
        },
    }
}

/// A required nested payload.
pub open spec fn req_payload<T: FromJson>(es: Seq<(Seq<char>, JsonV)>, key: Seq<char>) -> Option<
    T::V,
> {
    match jv_get(es, key) {
        Some(v) => T::spec_from_json(v),
        None => None,
    }
}

pub fn get_req_payload<T: FromJson>(entries: &Vec<(String, Json)>, key: &str) -> (r: Option<T>)
    ensures
        match r {
            Some(t) => req_payload::<T>(obj_view(entries@), key@) == Some(t@),
            None => req_payload::<T>(obj_view(entries@), key@) is None,
        },
{
    match obj_get(entries, key) {
        Some(v) => T::from_json(v),
        None => None,
    }
}

/// Every element of a JSON array decoded as `T`, from index `k` on.
pub open spec fn arr_from_at<T: FromJson>(items: Seq<JsonV>, k: int) -> Option<Seq<T::V>>
    decreases items.len() - k,
{
    if k < 0 || k >= items.len() {
        Some(Seq::empty())
    } else {
        match (T::spec_from_json(items[k]), arr_from_at::<T>(items, k + 1)) {
            (Some(v), Some(tail)) => Some(seq![v] + tail),
            _ => None,
        }
    }
}

/// A JSON value decoded as an array of `T`.
pub open spec fn arr_from<T: FromJson>(v: JsonV) -> Option<Seq<T::V>> {
    match v {
        JsonV::Arr(items) => arr_from_at::<T>(items, 0),
        _ => None,
    }
}

/// Decodes every element of a JSON array.
pub fn vec_from_json<T: FromJson>(v: &Json) -> (r: Option<Vec<T>>)
    ensures
        match r {
            Some(out) => arr_from::<T>(v@) == Some(views_of(out@)),
            None => arr_from::<T>(v@) is None,
        },
{
    match v {
        Json::Arr(items) => {
            proof {
                lemma_arr_view(items@);
            }
            let ghost av = arr_view(items@);
            let mut out: Vec<T> = Vec::new();
            let mut k: usize = 0;
            proof {
                assert(views_of(out@) =~= Seq::<T::V>::empty());
            }
            while k < items.len()
                invariant
                    k <= items@.len(),
                    av == arr_view(items@),
                    v@ == JsonV::Arr(av),
                    av.len() == items@.len(),
                    forall|i: int| 0 <= i < items@.len() ==> av[i] == #[trigger] items@[i]@,
                    views_of(out@).len() == k,
                    match arr_from_at::<T>(av, k as int) {
                        Some(tail) => arr_from_at::<T>(av, 0) == Some(views_of(out@) + tail),
                        None => arr_from_at::<T>(av, 0) is None,
                    },
                decreases items@.len() - k,
            {
                match T::from_json(&items[k]) {
                    None => {
                        proof {
                            assert(av[k as int] == items@[k as int]@);
                            assert(arr_from_at::<T>(av, k as int) is None);
                        }
                        return None;
                    },
                    Some(t) => {
                        let ghost out0 = out@;
                        let ghost tv = t@;
                        out.push(t);
                        proof {
                            assert(views_of(out@) =~= views_of(out0) + seq![tv]);
                            if let Some(tail) = arr_from_at::<T>(av, k + 1) {
                                assert(arr_from_at::<T>(av, k as int) == Some(seq![tv] + tail));
                                assert(views_of(out0) + (seq![tv] + tail) =~= views_of(out@)
                                    + tail);
                            }
                        }
                        k = k + 1;
                    },
                }
            }
            proof {
                assert(arr_from_at::<T>(av, k as int) == Some(Seq::<T::V>::empty()));
                assert(views_of(out@) + Seq::<T::V>::empty() =~= views_of(out@));
            }
            Some(out)
        },
        _ => None,
    }
}

/// An array field that may be absent: missing means empty.
pub open spec fn dflt_arr<T: FromJson>(es: Seq<(Seq<char>, JsonV)>, key: Seq<char>) -> Option<
    Seq<T::V>,
> {
    match jv_get(es, key) {
        None => Some(Seq::empty()),
        Some(v) => arr_from::<T>(v),
    }
}

pub fn get_dflt_arr<T: FromJson>(entries: &Vec<(String, Json)>, key: &str) -> (r: Option<Vec<T>>)
    ensures
        match r {
            Some(out) => dflt_arr::<T>(obj_view(entries@), key@) == Some(views_of(out@)),
            None => dflt_arr::<T>(obj_view(entries@), key@) is None,
        },
{
    match obj_get(entries, key) {
        None => {
            let out: Vec<T> = Vec::new();
            proof {
                assert(views_of(out@) =~= Seq::<T::V>::empty());
            }
            Some(out)
        },
        Some(v) => vec_from_json::<T>(v),
    }
}

/// A required array field.
pub open spec fn req_arr<T: FromJson>(es: Seq<(Seq<char>, JsonV)>, key: Seq<char>) -> Option<
    Seq<T::V>,
> {
    match jv_get(es, key) {
        Some(v) => arr_from::<T>(v),
        None => None,
    }
}

pub fn get_req_arr<T: FromJson>(entries: &Vec<(String, Json)>, key: &str) -> (r: Option<Vec<T>>)
    ensures
        match r {
            Some(out) => req_arr::<T>(obj_view(entries@), key@) == Some(views_of(out@)),
            None => req_arr::<T>(obj_view(entries@), key@) is None,
        },
{
    match obj_get(entries, key) {
        Some(v) => vec_from_json::<T>(v),
        None => None,
    }
}

/// An optional array field: missing or `null` is `None`.
pub open spec fn opt_arr<T: FromJson>(es: Seq<(Seq<char>, JsonV)>, key: Seq<char>) -> Option<
    Option<Seq<T::V>>,
> {
    match jv_get(es, key) {
        None => Some(None),
        Some(JsonV::Null) => Some(None),
        Some(v) => match arr_from::<T>(v) {
            Some(s) => Some(Some(s)),
            None => None,
        },
    }
}

pub fn get_opt_arr<T: FromJson>(entries: &Vec<(String, Json)>, key: &str) -> (r: Option<
    Option<Vec<T>>,
>)
    ensures
        match r {
            Some(None) => opt_arr::<T>(obj_view(entries@), key@) == Some(None::<Seq<T::V>>),
            Some(Some(out)) => opt_arr::<T>(obj_view(entries@), key@) == Some(
                Some(views_of(out@)),
            ),
            None => opt_arr::<T>(obj_view(entries@), key@) is None,
        },
{
    match obj_get(entries, key) {
        None => Some(None),
        Some(Json::Null) => Some(None),
        Some(v) => match vec_from_json::<T>(v) {
            Some(out) => Some(Some(out)),
            None => None,
        },
    }
}

pub open spec fn req_bool(es: Seq<(Seq<char>, JsonV)>, key: Seq<char>) -> Option<bool> {
    match jv_get(es, key) {
        Some(JsonV::Bool(b)) => Some(b),
        _ => None,
    }
}

pub fn get_req_bool(entries: &Vec<(String, Json)>, key: &str) -> (r: Option<bool>)
    ensures
        match r {
            Some(b) => req_bool(obj_view(entries@), key@) == Some(b),
            None => req_bool(obj_view(entries@), key@) is None,
        },
{
    match obj_get(entries, key) {
        Some(Json::Bool(b)) => Some(*b),
        _ => None,
    }
}

pub open spec fn opt_bool(es: Seq<(Seq<char>, JsonV)>, key: Seq<char>) -> Option<Option<bool>> {
    match jv_get(es, key) {
        None => Some(None),
        Some(JsonV::Null) => Some(None),
        Some(JsonV::Bool(b)) => Some(Some(b)),
        Some(_) => None,
    }
}

pub fn get_opt_bool(entries: &Vec<(String, Json)>, key: &str) -> (r: Option<Option<bool>>)
    ensures
        match r {
            Some(None) => opt_bool(obj_view(entries@), key@) == Some(None::<bool>),
            Some(Some(b)) => opt_bool(obj_view(entries@), key@) == Some(Some(b)),
            None => opt_bool(obj_view(entries@), key@) is None,
        },
{
    match obj_get(entries, key) {
        None => Some(None),
        Some(Json::Null) => Some(None),
        Some(Json::Bool(b)) => Some(Some(*b)),
        Some(_) => None,
    }
}

impl FromJson for String {
    open spec fn spec_from_json(j: JsonV) -> Option<Seq<char>> {
        match j {
            JsonV::Str(s) => Some(s),
            _ => None,
        }
    }

    fn from_json(j: &Json) -> (r: Option<String>) {
        match j {
            Json::Str(s) => Some(s.clone()),
            _ => None,
        }
    }
}

impl FromJson for Number {
    open spec fn spec_from_json(j: JsonV) -> Option<Seq<u8>> {
        match j {
            JsonV::Num(n) => Some(n),
            _ => None,
        }
    }

    fn from_json(j: &Json) -> (r: Option<Number>) {
        match j {
            Json::Num(n) => Some(Number { raw: crate::json::copy_range(n.as_slice(), 0, n.len()) }),
            _ => None,
        }
    }
}

// ---------------------------------------------------------------------------
// Shared response pieces.
// ---------------------------------------------------------------------------

/// Tokens used for the requested action.
#[derive(Debug, Clone)]
pub struct TokenUsage {
    pub prompt_tokens: u32,
    pub completion_tokens: u32,
    pub total_tokens: u32,
}

pub ghost struct TokenUsageV {
    pub prompt_tokens: u32,
    pub completion_tokens: u32,
    pub total_tokens: u32,
}

impl View for TokenUsage {
    type V = TokenUsageV;

    open spec fn view(&self) -> TokenUsageV {
        TokenUsageV {
            prompt_tokens: self.prompt_tokens,
            completion_tokens: self.completion_tokens,
            total_tokens: self.total_tokens,
        }
    }
}

impl FromJson for TokenUsage {
    open spec fn spec_from_json(j: JsonV) -> Option<TokenUsageV> {
        match j {
            JsonV::Obj(es) => match (
                dflt_int(es, "prompt_tokens"@, 0, u32::MAX as int),
                dflt_int(es, "completion_tokens"@, 0, u32::MAX as int),
                dflt_int(es, "total_tokens"@, 0, u32::MAX as int),
            ) {
                (Some(p), Some(c), Some(t)) => Some(
                    TokenUsageV {
                        prompt_tokens: p as u32,
                        completion_tokens: c as u32,
                        total_tokens: t as u32,
                    },
                ),
                _ => None,
            },
            _ => None,
        }
    }

    fn from_json(j: &Json) -> (r: Option<TokenUsage>) {
        match j {
            Json::Obj(entries) => {
                let p = match get_dflt_i64(entries, "prompt_tokens", 0, u32::MAX as i64) {
                    Some(v) => v,
                    None => {
                        return None;
                    },
                };
                let c = match get_dflt_i64(entries, "completion_tokens", 0, u32::MAX as i64) {
                    Some(v) => v,
                    None => {
                        return None;
                    },
                };
                let t = match get_dflt_i64(entries, "total_tokens", 0, u32::MAX as i64) {
                    Some(v) => v,
                    None => {
                        return None;
                    },
                };
                Some(
                    TokenUsage {
                        prompt_tokens: p as u32,
                        completion_tokens: c as u32,
                        total_tokens: t as u32,
                    },
                )
            },
            _ => None,
        }
    }
}

/// One returned choice of a completion or edit.
#[derive(Debug, Clone)]
pub struct Choices {
    pub text: Option<String>,
    pub index: Option<u32>,
    pub finish_reason: Option<String>,
    pub logprobs: Option<Number>,
}

pub ghost struct ChoicesV {
    pub text: Option<Seq<char>>,
    pub index: Option<u32>,
    pub finish_reason: Option<Seq<char>>,
    pub logprobs: Option<Seq<u8>>,
}

impl View for Choices {
    type V = ChoicesV;

    open spec fn view(&self) -> ChoicesV {
        ChoicesV {
            text: match self.text {
                Some(ref s) => Some(s@),
                None => None,
            },
            index: self.index,
            finish_reason: match self.finish_reason {
                Some(ref s) => Some(s@),
                None => None,
            },
            logprobs: match self.logprobs {
                Some(ref n) => Some(n@),
                None => None,
            },
        }
    }
}

impl FromJson for Choices {
    open spec fn spec_from_json(j: JsonV) -> Option<ChoicesV> {
        match j {
            JsonV::Obj(es) => match (
                opt_string(es, "text"@),
                opt_int(es, "index"@, 0, u32::MAX as int),
                opt_string(es, "finish_reason"@),
                opt_num_raw(es, "logprobs"@),
            ) {
                (Some(text), Some(index), Some(finish_reason), Some(logprobs)) => Some(
                    ChoicesV {
                        text,
                        index: match index {
                            Some(i) => Some(i as u32),
                            None => None,
                        },
                        finish_reason,
                        logprobs,
                    },
                ),
                _ => None,
            },
            _ => None,
        }
    }

    fn from_json(j: &Json) -> (r: Option<Choices>) {
        match j {
            Json::Obj(entries) => {
                let text = match get_opt_string(entries, "text") {
                    Some(v) => v,
                    None => {
                        return None;
                    },
                };
                let index = match get_opt_i64(entries, "index", 0, u32::MAX as i64) {
                    Some(v) => v,
                    None => {
                        return None;
                    },
                };
                let finish_reason = match get_opt_string(entries, "finish_reason") {
                    Some(v) => v,
                    None => {
                        return None;
                    },
                };
                let logprobs = match get_opt_number(entries, "logprobs") {
                    Some(v) => v,
                    None => {
                        return None;
                    },
                };
                Some(
                    Choices {
                        text,
                        index: match index {
                            Some(i) => Some(i as u32),
                            None => None,
                        },
                        finish_reason,
                        logprobs,
                    },
                )
            },
            _ => None,
        }
    }
}

/// Confirmation of a deletion.
#[derive(Debug, Clone)]
pub struct Delete {
    pub id: String,
    pub object: String,
    pub deleted: bool,
    pub token_usage: Option<TokenUsage>,
}

pub ghost struct DeleteV {
    pub id: Seq<char>,
    pub object: Seq<char>,
    pub deleted: bool,
    pub token_usage: Option<TokenUsageV>,
}

impl View for Delete {
    type V = DeleteV;

    open spec fn view(&self) -> DeleteV {
        DeleteV {
            id: self.id@,
            object: self.object@,
            deleted: self.deleted,
            token_usage: match self.token_usage {
                Some(ref t) => Some(t@),
                None => None,
            },
        }
    }
}

impl FromJson for Delete {
    open spec fn spec_from_json(j: JsonV) -> Option<DeleteV> {
        match j {
            JsonV::Obj(es) => match (
                dflt_string(es, "id"@),
                dflt_string(es, "object"@),
                dflt_bool(es, "deleted"@),
                opt_payload::<TokenUsage>(es, "token_usage"@),
            ) {
                (Some(id), Some(object), Some(deleted), Some(token_usage)) => Some(
                    DeleteV { id, object, deleted, token_usage },
                ),
                _ => None,
            },
            _ => None,
        }
    }

    fn from_json(j: &Json) -> (r: Option<Delete>) {
        match j {
            Json::Obj(entries) => {
                let id = match get_dflt_string(entries, "id") {
                    Some(v) => v,
                    None => {
                        return None;
                    },
                };
                let object = match get_dflt_string(entries, "object") {
                    Some(v) => v,
                    None => {
                        return None;
                    },
                };
                let deleted = match get_dflt_bool(entries, "deleted") {
                    Some(v) => v,
                    None => {
                        return None;
                    },
                };
                let token_usage = match get_opt_payload::<TokenUsage>(entries, "token_usage") {
                    Some(v) => v,
                    None => {
                        return None;
                    },
                };
                Some(Delete { id, object, deleted, token_usage })
            },
            _ => None,
        }
    }
}

/// One stored file.
#[derive(Debug, Clone)]
pub struct File {
    pub id: String,
    pub object: String,
    pub bytes: i64,
    pub created_at: i64,
    pub filename: String,
    pub purpose: String,
    pub status: String,
    pub token_usage: Option<TokenUsage>,
}

pub ghost struct FileV {
    pub id: Seq<char>,
    pub object: Seq<char>,
    pub bytes: i64,
    pub created_at: i64,
    pub filename: Seq<char>,
    pub purpose: Seq<char>,
    pub status: Seq<char>,
    pub token_usage: Option<TokenUsageV>,
}

impl View for File {
    type V = FileV;

    open spec fn view(&self) -> FileV {
        FileV {
            id: self.id@,
            object: self.object@,
            bytes: self.bytes,
            created_at: self.created_at,
            filename: self.filename@,
            purpose: self.purpose@,
            status: self.status@,
            token_usage: match self.token_usage {
                Some(ref t) => Some(t@),
                None => None,
            },
        }
    }
}

impl FromJson for File {
    open spec fn spec_from_json(j: JsonV) -> Option<FileV> {
        match j {
            JsonV::Obj(es) => match (
                dflt_string(es, "id"@),
                dflt_string(es, "object"@),
                dflt_int(es, "bytes"@, i64::MIN as int, i64::MAX as int),
                dflt_int(es, "created_at"@, i64::MIN as int, i64::MAX as int),
                dflt_string(es, "filename"@),
                dflt_string(es, "purpose"@),
                dflt_string(es, "status"@),
                opt_payload::<TokenUsage>(es, "token_usage"@),
            ) {
                (
                    Some(id),
                    Some(object),
                    Some(bytes),
                    Some(created_at),
                    Some(filename),
                    Some(purpose),
                    Some(status),
                    Some(token_usage),
                ) => Some(
                    FileV {
                        id,
                        object,
                        bytes: bytes as i64,
                        created_at: created_at as i64,
                        filename,
                        purpose,
                        status,
                        token_usage,
                    },
                ),
                _ => None,
            },
            _ => None,
        }
    }

    fn from_json(j: &Json) -> (r: Option<File>) {
        match j {
            Json::Obj(entries) => {
                let id = match get_dflt_string(entries, "id") {
                    Some(v) => v,
                    None => {
                        return None;
                    },
                };
                let object = match get_dflt_string(entries, "object") {
                    Some(v) => v,
                    None => {
                        return None;
                    },
                };
                let bytes = match get_dflt_i64(entries, "bytes", i64::MIN, i64::MAX) {
                    Some(v) => v,
                    None => {
                        return None;
                    },
                };
                let created_at = match get_dflt_i64(entries, "created_at", i64::MIN, i64::MAX) {
                    Some(v) => v,
                    None => {
                        return None;
                    },
                };
                let filename = match get_dflt_string(entries, "filename") {
                    Some(v) => v,
                    None => {
                        return None;
                    },
                };
                let purpose = match get_dflt_string(entries, "purpose") {
                    Some(v) => v,
                    None => {
                        return None;
                    },
                };
                let status = match get_dflt_string(entries, "status") {
                    Some(v) => v,
                    None => {
                        return None;
                    },
                };
                let token_usage = match get_opt_payload::<TokenUsage>(entries, "token_usage") {
                    Some(v) => v,
                    None => {
                        return None;
                    },
                };
                Some(File { id, object, bytes, created_at, filename, purpose, status, token_usage })
            },
            _ => None,
        }
    }
}

/// The files that belong to the user's organization.
#[derive(Debug, Clone)]
pub struct ListFiles {
    pub data: Vec<File>,
    pub object: String,
    pub token_usage: Option<TokenUsage>,
}

pub ghost struct ListFilesV {
    pub data: Seq<FileV>,
    pub object: Seq<char>,
    pub token_usage: Option<TokenUsageV>,
}

impl View for ListFiles {
    type V = ListFilesV;

    open spec fn view(&self) -> ListFilesV {
        ListFilesV {
            data: views_of(self.data@),
            object: self.object@,
            token_usage: match self.token_usage {
                Some(ref t) => Some(t@),
                None => None,
            },
        }
    }
}

impl FromJson for ListFiles {
    open spec fn spec_from_json(j: JsonV) -> Option<ListFilesV> {
        match j {
            JsonV::Obj(es) => match (
                dflt_arr::<File>(es, "data"@),
                dflt_string(es, "object"@),
                opt_payload::<TokenUsage>(es, "token_usage"@),
            ) {
                (Some(data), Some(object), Some(token_usage)) => Some(
                    ListFilesV { data, object, token_usage },
                ),
                _ => None,
            },
            _ => None,
        }
    }

    fn from_json(j: &Json) -> (r: Option<ListFiles>) {
        match j {
            Json::Obj(entries) => {
                let data = match get_dflt_arr::<File>(entries, "data") {
                    Some(v) => v,
                    None => {
                        return None;
                    },
                };
                let object = match get_dflt_string(entries, "object") {
                    Some(v) => v,
                    None => {
                        return None;
                    },
                };
                let token_usage = match get_opt_payload::<TokenUsage>(entries, "token_usage") {
                    Some(v) => v,
                    None => {
                        return None;
                    },
                };
                Some(ListFiles { data, object, token_usage })
            },
            _ => None,
        }
    }
}

/// One generated completion.
#[derive(Debug, Clone)]
pub struct Completion {
    pub id: String,
    pub object: String,
    pub created: u64,
    pub model: String,
    pub choices: Vec<Choices>,
    pub usage: Option<TokenUsage>,
}

pub ghost struct CompletionV {
    pub id: Seq<char>,
    pub object: Seq<char>,
    pub created: u64,
    pub model: Seq<char>,
    pub choices: Seq<ChoicesV>,
    pub usage: Option<TokenUsageV>,
}

impl View for Completion {
    type V = CompletionV;

    open spec fn view(&self) -> CompletionV {
        CompletionV {
            id: self.id@,
            object: self.object@,
            created: self.created,
            model: self.model@,
            choices: views_of(self.choices@),
            usage: match self.usage {
                Some(ref t) => Some(t@),
                None => None,
            },
        }
    }
}

impl FromJson for Completion {
    open spec fn spec_from_json(j: JsonV) -> Option<CompletionV> {
        match j {
            JsonV::Obj(es) => match (
                dflt_string(es, "id"@),
                dflt_string(es, "object"@),
                dflt_int(es, "created"@, 0, i64::MAX as int),
                dflt_string(es, "model"@),
                dflt_arr::<Choices>(es, "choices"@),
                opt_payload::<TokenUsage>(es, "usage"@),
            ) {
                (Some(id), Some(object), Some(created), Some(model), Some(choices), Some(usage)) =>
                    Some(
                    CompletionV { id, object, created: created as u64, model, choices, usage },
                ),
                _ => None,
            },
            _ => None,
        }
    }

    fn from_json(j: &Json) -> (r: Option<Completion>) {
        match j {
            Json::Obj(entries) => {
                let id = match get_dflt_string(entries, "id") {
                    Some(v) => v,
                    None => {
                        return None;
                    },
                };
                let object = match get_dflt_string(entries, "object") {
                    Some(v) => v,
                    None => {
                        return None;
                    },
                };
                let created = match get_dflt_u64(entries, "created") {
                    Some(v) => v,
                    None => {
                        return None;
                    },
                };
                let model = match get_dflt_string(entries, "model") {
                    Some(v) => v,
                    None => {
                        return None;
                    },
                };
                let choices = match get_dflt_arr::<Choices>(entries, "choices") {
                    Some(v) => v,
                    None => {
                        return None;
                    },
                };
                let usage = match get_opt_payload::<TokenUsage>(entries, "usage") {
                    Some(v) => v,
                    None => {
                        return None;
                    },
                };
                Some(Completion { id, object, created, model, choices, usage })
            },
            _ => None,
        }
    }
}

/// One edited text.
#[derive(Debug, Clone)]
pub struct Edit {
    pub object: String,
    pub created: u64,
    pub choices: Vec<Choices>,
    pub usage: Option<TokenUsage>,
}

pub ghost struct EditV {
    pub object: Seq<char>,
    pub created: u64,
    pub choices: Seq<ChoicesV>,
    pub usage: Option<TokenUsageV>,
}

impl View for Edit {
    type V = EditV;

    open spec fn view(&self) -> EditV {
        EditV {
            object: self.object@,
            created: self.created,
            choices: views_of(self.choices@),
            usage: match self.usage {
                Some(ref t) => Some(t@),
                None => None,
            },
        }
    }
}

impl FromJson for Edit {
    open spec fn spec_from_json(j: JsonV) -> Option<EditV> {
        match j {
            JsonV::Obj(es) => match (
                dflt_string(es, "object"@),
                dflt_int(es, "created"@, 0, i64::MAX as int),
                dflt_arr::<Choices>(es, "choices"@),
                opt_payload::<TokenUsage>(es, "usage"@),
            ) {
                (Some(object), Some(created), Some(choices), Some(usage)) => Some(
                    EditV { object, created: created as u64, choices, usage },
                ),
                _ => None,
            },
            _ => None,
        }
    }

    fn from_json(j: &Json) -> (r: Option<Edit>) {
        match j {
            Json::Obj(entries) => {
                let object = match get_dflt_string(entries, "object") {
                    Some(v) => v,
                    None => {
                        return None;
                    },
                };
                let created = match get_dflt_u64(entries, "created") {
                    Some(v) => v,
                    None => {
                        return None;
                    },
                };
                let choices = match get_dflt_arr::<Choices>(entries, "choices") {
                    Some(v) => v,
                    None => {
                        return None;
                    },
                };
                let usage = match get_opt_payload::<TokenUsage>(entries, "usage") {
                    Some(v) => v,
                    None => {
                        return None;
                    },
                };
                Some(Edit { object, created, choices, usage })
            },
            _ => None,
        }
    }
}

/// One embedding vector; its components are kept as their literal text.
#[derive(Debug, Clone)]
pub struct EmbeddingData {
    pub object: String,
    pub embedding: Vec<Number>,
    pub index: u64,
}

pub ghost struct EmbeddingDataV {
    pub object: Seq<char>,
    pub embedding: Seq<Seq<u8>>,
    pub index: u64,
}

impl View for EmbeddingData {
    type V = EmbeddingDataV;

    open spec fn view(&self) -> EmbeddingDataV {
        EmbeddingDataV {
            object: self.object@,
            embedding: views_of(self.embedding@),
            index: self.index,
        }
    }
}

impl FromJson for EmbeddingData {
    open spec fn spec_from_json(j: JsonV) -> Option<EmbeddingDataV> {
        match j {
            JsonV::Obj(es) => match (
                req_string(es, "object"@),
                req_arr::<Number>(es, "embedding"@),
                req_int(es, "index"@, 0, i64::MAX as int),
            ) {
                (Some(object), Some(embedding), Some(index)) => Some(
                    EmbeddingDataV { object, embedding, index: index as u64 },
                ),
                _ => None,
            },
            _ => None,
        }
    }

    fn from_json(j: &Json) -> (r: Option<EmbeddingData>) {
        match j {
            Json::Obj(entries) => {
                let object = match get_req_string(entries, "object") {
                    Some(v) => v,
                    None => {
                        return None;
                    },
                };
                let embedding = match get_req_arr::<Number>(entries, "embedding") {
                    Some(v) => v,
                    None => {
                        return None;
                    },
                };
                let index = match get_req_u64(entries, "index") {
                    Some(v) => v,
                    None => {
                        return None;
                    },
                };
                Some(EmbeddingData { object, embedding, index })
            },
            _ => None,
        }
    }
}

/// The embeddings computed for an input.
#[derive(Debug, Clone)]
pub struct Embedding {
    pub object: String,
    pub data: Vec<EmbeddingData>,
    pub mode: String,
    pub usage: Option<TokenUsage>,
}

pub ghost struct EmbeddingV {
    pub object: Seq<char>,
    pub data: Seq<EmbeddingDataV>,
    pub mode: Seq<char>,
    pub usage: Option<TokenUsageV>,
}

impl View for Embedding {
    type V = EmbeddingV;

    open spec fn view(&self) -> EmbeddingV {
        EmbeddingV {
            object: self.object@,
            data: views_of(self.data@),
            mode: self.mode@,
            usage: match self.usage {
                Some(ref t) => Some(t@),
                None => None,
            },
        }
    }
}

impl FromJson for Embedding {
    open spec fn spec_from_json(j: JsonV) -> Option<EmbeddingV> {
        match j {
            JsonV::Obj(es) => match (
                dflt_string(es, "object"@),
                dflt_arr::<EmbeddingData>(es, "data"@),
                dflt_string(es, "mode"@),
                opt_payload::<TokenUsage>(es, "usage"@),
            ) {
                (Some(object), Some(data), Some(mode), Some(usage)) => Some(
                    EmbeddingV { object, data, mode, usage },
                ),
                _ => None,
            },
            _ => None,
        }
    }

    fn from_json(j: &Json) -> (r: Option<Embedding>) {
        match j {
            Json::Obj(entries) => {
                let object = match get_dflt_string(entries, "object") {
                    Some(v) => v,
                    None => {
                        return None;
                    },
                };
                let data = match get_dflt_arr::<EmbeddingData>(entries, "data") {
                    Some(v) => v,
                    None => {
                        return None;
                    },
                };
                let mode = match get_dflt_string(entries, "mode") {
                    Some(v) => v,
                    None => {
                        return None;
                    },
                };
                let usage = match get_opt_payload::<TokenUsage>(entries, "usage") {
                    Some(v) => v,
                    None => {
                        return None;
                    },
                };
                Some(Embedding { object, data, mode, usage })
            },
            _ => None,
        }
    }
}

/// One event in a fine-tuning job's history.
#[derive(Debug, Clone)]
pub struct Event {
    pub object: String,
    pub created_at: u64,
    pub level: String,
    pub message: String,
}

pub ghost struct EventV {
    pub object: Seq<char>,
    pub created_at: u64,
    pub level: Seq<char>,
    pub message: Seq<char>,
}

impl View for Event {
    type V = EventV;

    open spec fn view(&self) -> EventV {
        EventV {
            object: self.object@,
            created_at: self.created_at,
            level: self.level@,
            message: self.message@,
        }
    }
}

impl FromJson for Event {
    open spec fn spec_from_json(j: JsonV) -> Option<EventV> {
        match j {
            JsonV::Obj(es) => match (
                dflt_string(es, "object"@),
                dflt_int(es, "created_at"@, 0, i64::MAX as int),
                dflt_string(es, "level"@),
                dflt_string(es, "message"@),
            ) {
                (Some(object), Some(created_at), Some(level), Some(message)) => Some(
                    EventV { object, created_at: created_at as u64, level, message },
                ),
                _ => None,
            },
            _ => None,
        }
    }

    fn from_json(j: &Json) -> (r: Option<Event>) {
        match j {
            Json::Obj(entries) => {
                let object = match get_dflt_string(entries, "object") {
                    Some(v) => v,
                    None => {
                        return None;
                    },
                };
                let created_at = match get_dflt_u64(entries, "created_at") {
                    Some(v) => v,
                    None => {
                        return None;
                    },
                };
                let level = match get_dflt_string(entries, "level") {
                    Some(v) => v,
                    None => {
                        return None;
                    },
                };
                let message = match get_dflt_string(entries, "message") {
                    Some(v) => v,
                    None => {
                        return None;
                    },
                };
                Some(Event { object, created_at, level, message })
            },
            _ => None,
        }
    }
}

/// The events of one fine-tuning job.
#[derive(Debug, Clone)]
pub struct ListEvents {
    pub object: String,
    pub data: Vec<Event>,
    pub token_usage: Option<TokenUsage>,
}

pub ghost struct ListEventsV {
    pub object: Seq<char>,
    pub data: Seq<EventV>,
    pub token_usage: Option<TokenUsageV>,
}

impl View for ListEvents {
    type V = ListEventsV;

    open spec fn view(&self) -> ListEventsV {
        ListEventsV {
            object: self.object@,
            data: views_of(self.data@),
            token_usage: match self.token_usage {
                Some(ref t) => Some(t@),
                None => None,
            },
        }
    }
}

impl FromJson for ListEvents {
    open spec fn spec_from_json(j: JsonV) -> Option<ListEventsV> {
        match j {
            JsonV::Obj(es) => match (
                dflt_string(es, "object"@),
                dflt_arr::<Event>(es, "data"@),
                opt_payload::<TokenUsage>(es, "token_usage"@),
            ) {
                (Some(object), Some(data), Some(token_usage)) => Some(
                    ListEventsV { object, data, token_usage },
                ),
                _ => None,
            },
            _ => None,
        }
    }

    fn from_json(j: &Json) -> (r: Option<ListEvents>) {
        match j {
            Json::Obj(entries) => {
                let object = match get_dflt_string(entries, "object") {
                    Some(v) => v,
                    None => {
                        return None;
                    },
                };
                let data = match get_dflt_arr::<Event>(entries, "data") {
                    Some(v) => v,
                    None => {
                        return None;
                    },
                };
                let token_usage = match get_opt_payload::<TokenUsage>(entries, "token_usage") {
                    Some(v) => v,
                    None => {
                        return None;
                    },
                };
                Some(ListEvents { object, data, token_usage })
            },
            _ => None,
        }
    }
}

/// The training settings of a fine-tuning job; the rate and weight are
/// kept as their literal text.
#[derive(Debug, Clone)]
pub struct HyperParams {
    pub n_epochs: u32,
    pub batch_size: u32,
    pub learning_rate_multiplier: Number,
    pub prompt_loss_weight: Number,
    pub compute_classification_metrics: bool,
    pub classification_n_classes: u32,
    pub classification_positive_class: String,
    pub classification_betas: Vec<Number>,
}

pub ghost struct HyperParamsV {
    pub n_epochs: u32,
    pub batch_size: u32,
    pub learning_rate_multiplier: Seq<u8>,
    pub prompt_loss_weight: Seq<u8>,
    pub compute_classification_metrics: bool,
    pub classification_n_classes: u32,
    pub classification_positive_class: Seq<char>,
    pub classification_betas: Seq<Seq<u8>>,
}

impl View for HyperParams {
    type V = HyperParamsV;

    open spec fn view(&self) -> HyperParamsV {
        HyperParamsV {
            n_epochs: self.n_epochs,
            batch_size: self.batch_size,
            learning_rate_multiplier: self.learning_rate_multiplier@,
            prompt_loss_weight: self.prompt_loss_weight@,
            compute_classification_metrics: self.compute_classification_metrics,
            classification_n_classes: self.classification_n_classes,
            classification_positive_class: self.classification_positive_class@,
            classification_betas: views_of(self.classification_betas@),
        }
    }
}

impl HyperParams {
    /// The value a missing `hyperparams` field stands for.
    pub open spec fn spec_default() -> HyperParamsV {
        HyperParamsV {
            n_epochs: 0,
            batch_size: 0,
            learning_rate_multiplier: seq![48u8],
            prompt_loss_weight: seq![48u8],
            compute_classification_metrics: false,
            classification_n_classes: 0,
            classification_positive_class: Seq::empty(),
            classification_betas: Seq::empty(),
        }
    }

    fn default_value() -> (r: HyperParams)
        ensures
            r@ == HyperParams::spec_default(),
    {
        let betas: Vec<Number> = Vec::new();
        let r = HyperParams {
            n_epochs: 0,
            batch_size: 0,
            learning_rate_multiplier: Number::zero(),
            prompt_loss_weight: Number::zero(),
            compute_classification_metrics: false,
            classification_n_classes: 0,
            classification_positive_class: String::new(),
            classification_betas: betas,
        };
        proof {
            assert(views_of(r.classification_betas@) =~= Seq::<Seq<u8>>::empty());
        }
        r
    }
}

impl FromJson for HyperParams {
    open spec fn spec_from_json(j: JsonV) -> Option<HyperParamsV> {
        match j {
            JsonV::Obj(es) => match (
                dflt_int(es, "n_epochs"@, 0, u32::MAX as int),
                dflt_int(es, "batch_size"@, 0, u32::MAX as int),
                dflt_num_raw(es, "learning_rate_multiplier"@),
                dflt_num_raw(es, "prompt_loss_weight"@),
                dflt_bool(es, "compute_classification_metrics"@),
                dflt_int(es, "classification_n_classes"@, 0, u32::MAX as int),
                dflt_string(es, "classification_positive_class"@),
                dflt_arr::<Number>(es, "classification_betas"@),
            ) {
                (
                    Some(n_epochs),
                    Some(batch_size),
                    Some(lrm),
                    Some(plw),
                    Some(ccm),
                    Some(cnc),
                    Some(cpc),
                    Some(betas),
                ) => Some(
                    HyperParamsV {
                        n_epochs: n_epochs as u32,
                        batch_size: batch_size as u32,
                        learning_rate_multiplier: lrm,
                        prompt_loss_weight: plw,
                        compute_classification_metrics: ccm,
                        classification_n_classes: cnc as u32,
                        classification_positive_class: cpc,
                        classification_betas: betas,
                    },
                ),
                _ => None,
            },
            _ => None,
        }
    }

    fn from_json(j: &Json) -> (r: Option<HyperParams>) {
        match j {
            Json::Obj(entries) => {
                let n_epochs = match get_dflt_i64(entries, "n_epochs", 0, u32::MAX as i64) {
                    Some(v) => v,
                    None => {
                        return None;
                    },
                };
                let batch_size = match get_dflt_i64(entries, "batch_size", 0, u32::MAX as i64) {
                    Some(v) => v,
                    None => {
                        return None;
                    },
                };
                let lrm = match get_dflt_number(entries, "learning_rate_multiplier") {
                    Some(v) => v,
                    None => {
                        return None;
                    },
                };
                let plw = match get_dflt_number(entries, "prompt_loss_weight") {
                    Some(v) => v,
                    None => {
                        return None;
                    },
                };
                let ccm = match get_dflt_bool(entries, "compute_classification_metrics") {
                    Some(v) => v,
                    None => {
                        return None;
                    },
                };
                let cnc = match get_dflt_i64(entries, "classification_n_classes", 0, u32::MAX as i64) {
                    Some(v) => v,
                    None => {
                        return None;
                    },
                };
                let cpc = match get_dflt_string(entries, "classification_positive_class") {
                    Some(v) => v,
                    None => {
                        return None;
                    },
                };
                let betas = match get_dflt_arr::<Number>(entries, "classification_betas") {
                    Some(v) => v,
                    None => {
                        return None;
                    },
                };
                Some(
                    HyperParams {
                        n_epochs: n_epochs as u32,
                        batch_size: batch_size as u32,
                        learning_rate_multiplier: lrm,
                        prompt_loss_weight: plw,
                        compute_classification_metrics: ccm,
                        classification_n_classes: cnc as u32,
                        classification_positive_class: cpc,
                        classification_betas: betas,
                    },
                )
            },
            _ => None,
        }
    }
}

/// One fine-tuning job.
#[derive(Debug, Clone)]
pub struct FineTune {
    pub id: String,
    pub object: String,
    pub model: String,
    pub created_at: u64,
    pub events: Vec<Event>,
    pub hyperparams: HyperParams,
    pub organization_id: String,
    pub result_files: Vec<File>,
    pub validation_files: Vec<File>,
    pub training_files: Vec<File>,
    pub status: String,
    pub updated_at: u64,
    pub token_usage: Option<TokenUsage>,
}

pub ghost struct FineTuneV {
    pub id: Seq<char>,
    pub object: Seq<char>,
    pub model: Seq<char>,
    pub created_at: u64,
    pub events: Seq<EventV>,
    pub hyperparams: HyperParamsV,
    pub organization_id: Seq<char>,
    pub result_files: Seq<FileV>,
    pub validation_files: Seq<FileV>,
    pub training_files: Seq<FileV>,
    pub status: Seq<char>,
    pub updated_at: u64,
    pub token_usage: Option<TokenUsageV>,
}

impl View for FineTune {
    type V = FineTuneV;

    open spec fn view(&self) -> FineTuneV {
        FineTuneV {
            id: self.id@,
            object: self.object@,
            model: self.model@,
            created_at: self.created_at,
            events: views_of(self.events@),
            hyperparams: self.hyperparams@,
            organization_id: self.organization_id@,
            result_files: views_of(self.result_files@),
            validation_files: views_of(self.validation_files@),
            training_files: views_of(self.training_files@),
            status: self.status@,
            updated_at: self.updated_at,
            token_usage: match self.token_usage {
                Some(ref t) => Some(t@),
                None => None,
            },
        }
    }
}

/// A nested payload that falls back to a default when missing.
pub open spec fn dflt_hyperparams(es: Seq<(Seq<char>, JsonV)>) -> Option<HyperParamsV> {
    match jv_get(es, "hyperparams"@) {
        None => Some(HyperParams::spec_default()),
        Some(v) => HyperParams::spec_from_json(v),
    }
}

impl FromJson for FineTune {
    open spec fn spec_from_json(j: JsonV) -> Option<FineTuneV> {
        match j {
            JsonV::Obj(es) => match (
                dflt_string(es, "id"@),
                dflt_string(es, "object"@),
                dflt_string(es, "model"@),
                dflt_int(es, "created_at"@, 0, i64::MAX as int),
                dflt_arr::<Event>(es, "events"@),
                dflt_hyperparams(es),
                dflt_string(es, "organization_id"@),
                dflt_arr::<File>(es, "result_files"@),
                dflt_arr::<File>(es, "validation_files"@),
                dflt_arr::<File>(es, "training_files"@),
                dflt_string(es, "status"@),
                dflt_int(es, "updated_at"@, 0, i64::MAX as int),
                opt_payload::<TokenUsage>(es, "token_usage"@),
            ) {
                (
                    Some(id),
                    Some(object),
                    Some(model),
                    Some(created_at),
                    Some(events),
                    Some(hyperparams),
                    Some(organization_id),
                    Some(result_files),
                    Some(validation_files),
                    Some(training_files),
                    Some(status),
                    Some(updated_at),
                    Some(token_usage),
                ) => Some(
                    FineTuneV {
                        id,
                        object,
                        model,
                        created_at: created_at as u64,
                        events,
                        hyperparams,
                        organization_id,
                        result_files,
                        validation_files,
                        training_files,
                        status,
                        updated_at: updated_at as u64,
                        token_usage,
                    },
                ),
                _ => None,
            },
            _ => None,
        }
    }

    fn from_json(j: &Json) -> (r: Option<FineTune>) {
        match j {
            Json::Obj(entries) => {
                let id = match get_dflt_string(entries, "id") {
                    Some(v) => v,
                    None => {
                        return None;
                    },
                };
                let object = match get_dflt_string(entries, "object") {
                    Some(v) => v,
                    None => {
                        return None;
                    },
                };
                let model = match get_dflt_string(entries, "model") {
                    Some(v) => v,
                    None => {
                        return None;
                    },
                };
                let created_at = match get_dflt_u64(entries, "created_at") {
                    Some(v) => v,
                    None => {
                        return None;
                    },
                };
                let events = match get_dflt_arr::<Event>(entries, "events") {
                    Some(v) => v,
                    None => {
                        return None;
                    },
                };
                let hyperparams = match obj_get(entries, "hyperparams") {
                    None => HyperParams::default_value(),
                    Some(v) => match HyperParams::from_json(v) {
                        Some(h) => h,
                        None => {
                            return None;
                        },
                    },
                };
                let organization_id = match get_dflt_string(entries, "organization_id") {
                    Some(v) => v,
                    None => {
                        return None;
                    },
                };
                let result_files = match get_dflt_arr::<File>(entries, "result_files") {
                    Some(v) => v,
                    None => {
                        return None;
                    },
                };
                let validation_files = match get_dflt_arr::<File>(entries, "validation_files") {
                    Some(v) => v,
                    None => {
                        return None;
                    },
                };
                let training_files = match get_dflt_arr::<File>(entries, "training_files") {
                    Some(v) => v,
                    None => {
                        return None;
                    },
                };
                let status = match get_dflt_string(entries, "status") {
                    Some(v) => v,
                    None => {
                        return None;
                    },
                };
                let updated_at = match get_dflt_u64(entries, "updated_at") {
                    Some(v) => v,
                    None => {
                        return None;
                    },
                };
                let token_usage = match get_opt_payload::<TokenUsage>(entries, "token_usage") {
                    Some(v) => v,
                    None => {
                        return None;
                    },
                };
                Some(
                    FineTune {
                        id,
                        object,
                        model,
                        created_at,
                        events,
                        hyperparams,
                        organization_id,
                        result_files,
                        validation_files,
                        training_files,
                        status,
                        updated_at,
                        token_usage,
                    },
                )
            },
            _ => None,
        }
    }
}

/// The fine-tuning jobs of the organization.
#[derive(Debug, Clone)]
pub struct ListFineTune {
    pub object: String,
    pub data: Vec<FineTune>,
    pub token_usage: Option<TokenUsage>,
}

pub ghost struct ListFineTuneV {
    pub object: Seq<char>,
    pub data: Seq<FineTuneV>,
    pub token_usage: Option<TokenUsageV>,
}

impl View for ListFineTune {
    type V = ListFineTuneV;

    open spec fn view(&self) -> ListFineTuneV {
        ListFineTuneV {
            object: self.object@,
            data: views_of(self.data@),
            token_usage: match self.token_usage {
                Some(ref t) => Some(t@),
                None => None,
            },
        }
    }
}

impl FromJson for ListFineTune {
    open spec fn spec_from_json(j: JsonV) -> Option<ListFineTuneV> {
        match j {
            JsonV::Obj(es) => match (
                dflt_string(es, "object"@),
                dflt_arr::<FineTune>(es, "data"@),
                opt_payload::<TokenUsage>(es, "token_usage"@),
            ) {
                (Some(object), Some(data), Some(token_usage)) => Some(
                    ListFineTuneV { object, data, token_usage },
                ),
                _ => None,
            },
            _ => None,
        }
    }

    fn from_json(j: &Json) -> (r: Option<ListFineTune>) {
        match j {
            Json::Obj(entries) => {
                let object = match get_dflt_string(entries, "object") {
                    Some(v) => v,
                    None => {
                        return None;
                    },
                };
                let data = match get_dflt_arr::<FineTune>(entries, "data") {
                    Some(v) => v,
                    None => {
                        return None;
                    },
                };
                let token_usage = match get_opt_payload::<TokenUsage>(entries, "token_usage") {
                    Some(v) => v,
                    None => {
                        return None;
                    },
                };
                Some(ListFineTune { object, data, token_usage })
            },
            _ => None,
        }
    }
}

/// Per-category policy violation flags.
#[derive(Debug, Clone)]
pub struct Categories {
    pub hate: bool,
    pub hate_threatening: bool,
    pub self_harm: bool,
    pub sexual: bool,
    pub sexual_minors: bool,
    pub violence: bool,
    pub violence_graphic: bool,
}

pub ghost struct CategoriesV {
    pub hate: bool,
    pub hate_threatening: bool,
    pub self_harm: bool,
    pub sexual: bool,
    pub sexual_minors: bool,
    pub violence: bool,
    pub violence_graphic: bool,
}

impl View for Categories {
    type V = CategoriesV;

    open spec fn view(&self) -> CategoriesV {
        CategoriesV {
            hate: self.hate,
            hate_threatening: self.hate_threatening,
            self_harm: self.self_harm,
            sexual: self.sexual,
            sexual_minors: self.sexual_minors,
            violence: self.violence,
            violence_graphic: self.violence_graphic,
        }
    }
}

impl Categories {
    pub open spec fn spec_default() -> CategoriesV {
        CategoriesV {
            hate: false,
            hate_threatening: false,
            self_harm: false,
            sexual: false,
            sexual_minors: false,
            violence: false,
            violence_graphic: false,
        }
    }

    fn default_value() -> (r: Categories)
        ensures
            r@ == Categories::spec_default(),
    {
        Categories {
            hate: false,
            hate_threatening: false,
            self_harm: false,
            sexual: false,
            sexual_minors: false,
            violence: false,
            violence_graphic: false,
        }
    }
}

impl FromJson for Categories {
    open spec fn spec_from_json(j: JsonV) -> Option<CategoriesV> {
        match j {
            JsonV::Obj(es) => match (
                dflt_bool(es, "hate"@),
                dflt_bool(es, "hate/threatening"@),
                dflt_bool(es, "self-harm"@),
                dflt_bool(es, "sexual"@),
                dflt_bool(es, "sexual/minors"@),
                dflt_bool(es, "violence"@),
                dflt_bool(es, "violence/graphic"@),
            ) {
                (Some(h), Some(ht), Some(sh), Some(sx), Some(sm), Some(vl), Some(vg)) => Some(
                    CategoriesV {
                        hate: h,
                        hate_threatening: ht,
                        self_harm: sh,
                        sexual: sx,
                        sexual_minors: sm,
                        violence: vl,
                        violence_graphic: vg,
                    },
                ),
                _ => None,
            },
            _ => None,
        }
    }

    fn from_json(j: &Json) -> (r: Option<Categories>) {
        match j {
            Json::Obj(entries) => {
                let h = match get_dflt_bool(entries, "hate") {
                    Some(v) => v,
                    None => {
                        return None;
                    },
                };
                let ht = match get_dflt_bool(entries, "hate/threatening") {
                    Some(v) => v,
                    None => {
                        return None;
                    },
                };
                let sh = match get_dflt_bool(entries, "self-harm") {
                    Some(v) => v,
                    None => {
                        return None;
                    },
                };
                let sx = match get_dflt_bool(entries, "sexual") {
                    Some(v) => v,
                    None => {
                        return None;
                    },
                };
                let sm = match get_dflt_bool(entries, "sexual/minors") {
                    Some(v) => v,
                    None => {
                        return None;
                    },
                };
                let vl = match get_dflt_bool(entries, "violence") {
                    Some(v) => v,
                    None => {
                        return None;
                    },
                };
                let vg = match get_dflt_bool(entries, "violence/graphic") {
                    Some(v) => v,
                    None => {
                        return None;
                    },
                };
                Some(
                    Categories {
                        hate: h,
                        hate_threatening: ht,
                        self_harm: sh,
                        sexual: sx,
                        sexual_minors: sm,
                        violence: vl,
                        violence_graphic: vg,
                    },
                )
            },
            _ => None,
        }
    }
}

/// Per-category confidence scores, kept as their literal text.
#[derive(Debug, Clone)]
pub struct CategoryScores {
    pub hate: Number,
    pub hate_threatening: Number,
    pub self_harm: Number,
    pub sexual: Number,
    pub sexual_minors: Number,
    pub violence: Number,
    pub violence_graphic: Number,
}

pub ghost struct CategoryScoresV {
    pub hate: Seq<u8>,
    pub hate_threatening: Seq<u8>,
    pub self_harm: Seq<u8>,
    pub sexual: Seq<u8>,
    pub sexual_minors: Seq<u8>,
    pub violence: Seq<u8>,
    pub violence_graphic: Seq<u8>,
}

impl View for CategoryScores {
    type V = CategoryScoresV;

    open spec fn view(&self) -> CategoryScoresV {
        CategoryScoresV {
            hate: self.hate@,
            hate_threatening: self.hate_threatening@,
            self_harm: self.self_harm@,
            sexual: self.sexual@,
            sexual_minors: self.sexual_minors@,
            violence: self.violence@,
            violence_graphic: self.violence_graphic@,
        }
    }
}

impl CategoryScores {
    pub open spec fn spec_default() -> CategoryScoresV {
        CategoryScoresV {
            hate: seq![48u8],
            hate_threatening: seq![48u8],
            self_harm: seq![48u8],
            sexual: seq![48u8],
            sexual_minors: seq![48u8],
            violence: seq![48u8],
            violence_graphic: seq![48u8],
        }
    }

    fn default_value() -> (r: CategoryScores)
        ensures
            r@ == CategoryScores::spec_default(),
    {
        CategoryScores {
            hate: Number::zero(),
            hate_threatening: Number::zero(),
            self_harm: Number::zero(),
            sexual: Number::zero(),
            sexual_minors: Number::zero(),
            violence: Number::zero(),
            violence_graphic: Number::zero(),
        }
    }
}

impl FromJson for CategoryScores {
    open spec fn spec_from_json(j: JsonV) -> Option<CategoryScoresV> {
        match j {
            JsonV::Obj(es) => match (
                dflt_num_raw(es, "hate"@),
                dflt_num_raw(es, "hate/threatening"@),
                dflt_num_raw(es, "self-harm"@),
                dflt_num_raw(es, "sexual"@),
                dflt_num_raw(es, "sexual/minors"@),
                dflt_num_raw(es, "violence"@),
                dflt_num_raw(es, "violence/graphic"@),
            ) {
                (Some(h), Some(ht), Some(sh), Some(sx), Some(sm), Some(vl), Some(vg)) => Some(
                    CategoryScoresV {
                        hate: h,
                        hate_threatening: ht,
                        self_harm: sh,
                        sexual: sx,
                        sexual_minors: sm,
                        violence: vl,
                        violence_graphic: vg,
                    },
                ),
                _ => None,
            },
            _ => None,
        }
    }

    fn from_json(j: &Json) -> (r: Option<CategoryScores>) {
        match j {
            Json::Obj(entries) => {
                let h = match get_dflt_number(entries, "hate") {
                    Some(v) => v,
                    None => {
                        return None;
                    },
                };
                let ht = match get_dflt_number(entries, "hate/threatening") {
                    Some(v) => v,
                    None => {
                        return None;
                    },
                };
                let sh = match get_dflt_number(entries, "self-harm") {
                    Some(v) => v,
                    None => {
                        return None;
                    },
                };
                let sx = match get_dflt_number(entries, "sexual") {
                    Some(v) => v,
                    None => {
                        return None;
                    },
                };
                let sm = match get_dflt_number(entries, "sexual/minors") {
                    Some(v) => v,
                    None => {
                        return None;
                    },
                };
                let vl = match get_dflt_number(entries, "violence") {
                    Some(v) => v,
                    None => {
                        return None;
                    },
                };
                let vg = match get_dflt_number(entries, "violence/graphic") {
                    Some(v) => v,
                    None => {
                        return None;
                    },
                };
                Some(
                    CategoryScores {
                        hate: h,
                        hate_threatening: ht,
                        self_harm: sh,
                        sexual: sx,
                        sexual_minors: sm,
                        violence: vl,
                        violence_graphic: vg,
                    },
                )
            },
            _ => None,
        }
    }
}

/// One result of a moderation request.
#[derive(Debug, Clone)]
pub struct ModerationResult {
    pub categories: Categories,
    pub category_scores: CategoryScores,
}

pub ghost struct ModerationResultV {
    pub categories: CategoriesV,
    pub category_scores: CategoryScoresV,
}

impl View for ModerationResult {
    type V = ModerationResultV;

    open spec fn view(&self) -> ModerationResultV {
        ModerationResultV { categories: self.categories@, category_scores: self.category_scores@ }
    }
}

impl FromJson for ModerationResult {
    open spec fn spec_from_json(j: JsonV) -> Option<ModerationResultV> {
        match j {
            JsonV::Obj(es) => {
                let cats = match jv_get(es, "categories"@) {
                    None => Some(Categories::spec_default()),
                    Some(v) => Categories::spec_from_json(v),
                };
                let scores = match jv_get(es, "category_scores"@) {
                    None => Some(CategoryScores::spec_default()),
                    Some(v) => CategoryScores::spec_from_json(v),
                };
                match (cats, scores) {
                    (Some(categories), Some(category_scores)) => Some(
                        ModerationResultV { categories, category_scores },
                    ),
                    _ => None,
                }
            },
            _ => None,
        }
    }

    fn from_json(j: &Json) -> (r: Option<ModerationResult>) {
        match j {
            Json::Obj(entries) => {
                let categories = match obj_get(entries, "categories") {
                    None => Categories::default_value(),
                    Some(v) => match Categories::from_json(v) {
                        Some(c) => c,
                        None => {
                            return None;
                        },
                    },
                };
                let category_scores = match obj_get(entries, "category_scores") {
                    None => CategoryScores::default_value(),
                    Some(v) => match CategoryScores::from_json(v) {
                        Some(c) => c,
                        None => {
                            return None;
                        },
                    },
                };
                Some(ModerationResult { categories, category_scores })
            },
            _ => None,
        }
    }
}

/// The verdict of a moderation request.
#[derive(Debug, Clone)]
pub struct Moderation {
    pub id: String,
    pub model: String,
    pub flagged: bool,
    pub results: Vec<ModerationResult>,
    pub token_usage: Option<TokenUsage>,
}

pub ghost struct ModerationV {
    pub id: Seq<char>,
    pub model: Seq<char>,
    pub flagged: bool,
    pub results: Seq<ModerationResultV>,
    pub token_usage: Option<TokenUsageV>,
}

impl View for Moderation {
    type V = ModerationV;

    open spec fn view(&self) -> ModerationV {
        ModerationV {
            id: self.id@,
            model: self.model@,
            flagged: self.flagged,
            results: views_of(self.results@),
            token_usage: match self.token_usage {
                Some(ref t) => Some(t@),
                None => None,
            },
        }
    }
}

impl FromJson for Moderation {
    open spec fn spec_from_json(j: JsonV) -> Option<ModerationV> {
        match j {
            JsonV::Obj(es) => match (
                dflt_string(es, "id"@),
                dflt_string(es, "model"@),
                dflt_bool(es, "flagged"@),
                dflt_arr::<ModerationResult>(es, "results"@),
                opt_payload::<TokenUsage>(es, "token_usage"@),
            ) {
                (Some(id), Some(model), Some(flagged), Some(results), Some(token_usage)) => Some(
                    ModerationV { id, model, flagged, results, token_usage },
                ),
                _ => None,
            },
            _ => None,
        }
    }

    fn from_json(j: &Json) -> (r: Option<Moderation>) {
        match j {
            Json::Obj(entries) => {
                let id = match get_dflt_string(entries, "id") {
                    Some(v) => v,
                    None => {
                        return None;
                    },
                };
                let model = match get_dflt_string(entries, "model") {
                    Some(v) => v,
                    None => {
                        return None;
                    },
                };
                let flagged = match get_dflt_bool(entries, "flagged") {
                    Some(v) => v,
                    None => {
                        return None;
                    },
                };
                let results = match get_dflt_arr::<ModerationResult>(entries, "results") {
                    Some(v) => v,
                    None => {
                        return None;
                    },
                };
                let token_usage = match get_opt_payload::<TokenUsage>(entries, "token_usage") {
                    Some(v) => v,
                    None => {
                        return None;
                    },
                };
                Some(Moderation { id, model, flagged, results, token_usage })
            },
            _ => None,
        }
    }
}

/// A link to one generated image.
#[derive(Debug, Clone)]
pub struct Link {
    pub url: String,
}

pub ghost struct LinkV {
    pub url: Seq<char>,
}

impl View for Link {
    type V = LinkV;

    open spec fn view(&self) -> LinkV {
        LinkV { url: self.url@ }
    }
}

impl FromJson for Link {
    open spec fn spec_from_json(j: JsonV) -> Option<LinkV> {
        match j {
            JsonV::Obj(es) => match req_string(es, "url"@) {
                Some(url) => Some(LinkV { url }),
                None => None,
            },
            _ => None,
        }
    }

    fn from_json(j: &Json) -> (r: Option<Link>) {
        match j {
            Json::Obj(entries) => match get_req_string(entries, "url") {
                Some(url) => Some(Link { url }),
                None => None,
            },
            _ => None,
        }
    }
}

/// The links to generated images.
#[derive(Debug, Clone)]
pub struct Image {
    pub created: Option<u64>,
    pub data: Option<Vec<Link>>,
    pub token_usage: Option<TokenUsage>,
}

pub ghost struct ImageV {
    pub created: Option<u64>,
    pub data: Option<Seq<LinkV>>,
    pub token_usage: Option<TokenUsageV>,
}

impl View for Image {
    type V = ImageV;

    open spec fn view(&self) -> ImageV {
        ImageV {
            created: self.created,
            data: match self.data {
                Some(ref d) => Some(views_of(d@)),
                None => None,
            },
            token_usage: match self.token_usage {
                Some(ref t) => Some(t@),
                None => None,
            },
        }
    }
}

impl FromJson for Image {
    open spec fn spec_from_json(j: JsonV) -> Option<ImageV> {
        match j {
            JsonV::Obj(es) => match (
                opt_int(es, "created"@, 0, i64::MAX as int),
                opt_arr::<Link>(es, "data"@),
                opt_payload::<TokenUsage>(es, "token_usage"@),
            ) {
                (Some(created), Some(data), Some(token_usage)) => Some(
                    ImageV {
                        created: match created {
                            Some(c) => Some(c as u64),
                            None => None,
                        },
                        data,
                        token_usage,
                    },
                ),
                _ => None,
            },
            _ => None,
        }
    }

    fn from_json(j: &Json) -> (r: Option<Image>) {
        match j {
            Json::Obj(entries) => {
                let created = match get_opt_u64(entries, "created") {
                    Some(v) => v,
                    None => {
                        return None;
                    },
                };
                let data = match get_opt_arr::<Link>(entries, "data") {
                    Some(v) => v,
                    None => {
                        return None;
                    },
                };
                let token_usage = match get_opt_payload::<TokenUsage>(entries, "token_usage") {
                    Some(v) => v,
                    None => {
                        return None;
                    },
                };
                Some(Image { created, data, token_usage })
            },
            _ => None,
        }
    }
}

/// What a model permits.
#[derive(Debug, Clone)]
pub struct Permissions {
    pub id: String,
    pub object: String,
    pub created: u64,
    pub allow_create_engine: bool,
    pub allow_sampling: bool,
    pub allow_logprobs: bool,
    pub allow_search_indices: bool,
    pub allow_view: bool,
    pub allow_fine_tuning: bool,
    pub organization: String,
    pub is_blocking: bool,
    pub group: Option<String>,
}

pub ghost struct PermissionsV {
    pub id: Seq<char>,
    pub object: Seq<char>,
    pub created: u64,
    pub allow_create_engine: bool,
    pub allow_sampling: bool,
    pub allow_logprobs: bool,
    pub allow_search_indices: bool,
    pub allow_view: bool,
    pub allow_fine_tuning: bool,
    pub organization: Seq<char>,
    pub is_blocking: bool,
    pub group: Option<Seq<char>>,
}

impl View for Permissions {
    type V = PermissionsV;

    open spec fn view(&self) -> PermissionsV {
        PermissionsV {
            id: self.id@,
            object: self.object@,
            created: self.created,
            allow_create_engine: self.allow_create_engine,
            allow_sampling: self.allow_sampling,
            allow_logprobs: self.allow_logprobs,
            allow_search_indices: self.allow_search_indices,
            allow_view: self.allow_view,
            allow_fine_tuning: self.allow_fine_tuning,
            organization: self.organization@,
            is_blocking: self.is_blocking,
            group: match self.group {
                Some(ref s) => Some(s@),
                None => None,
            },
        }
    }
}

impl FromJson for Permissions {
    open spec fn spec_from_json(j: JsonV) -> Option<PermissionsV> {
        match j {
            JsonV::Obj(es) => match (
                req_string(es, "id"@),
                req_string(es, "object"@),
                req_int(es, "created"@, 0, i64::MAX as int),
                req_bool(es, "allow_create_engine"@),
                req_bool(es, "allow_sampling"@),
                req_bool(es, "allow_logprobs"@),
                req_bool(es, "allow_search_indices"@),
                req_bool(es, "allow_view"@),
                req_bool(es, "allow_fine_tuning"@),
                req_string(es, "organization"@),
                req_bool(es, "is_blocking"@),
                opt_string(es, "group"@),
            ) {
                (
                    Some(id),
                    Some(object),
                    Some(created),
                    Some(ace),
                    Some(asp),
                    Some(alp),
                    Some(asi),
                    Some(avw),
                    Some(aft),
                    Some(organization),
                    Some(is_blocking),
                    Some(group),
                ) => Some(
                    PermissionsV {
                        id,
                        object,
                        created: created as u64,
                        allow_create_engine: ace,
                        allow_sampling: asp,
                        allow_logprobs: alp,
                        allow_search_indices: asi,
                        allow_view: avw,
                        allow_fine_tuning: aft,
                        organization,
                        is_blocking,
                        group,
                    },
                ),
                _ => None,
            },
            _ => None,
        }
    }

    fn from_json(j: &Json) -> (r: Option<Permissions>) {
        match j {
            Json::Obj(entries) => {
                let id = match get_req_string(entries, "id") {
                    Some(v) => v,
                    None => {
                        return None;
                    },
                };
                let object = match get_req_string(entries, "object") {
                    Some(v) => v,
                    None => {
                        return None;
                    },
                };
                let created = match get_req_u64(entries, "created") {
                    Some(v) => v,
                    None => {
                        return None;
                    },
                };
                let ace = match get_req_bool(entries, "allow_create_engine") {
                    Some(v) => v,
                    None => {
                        return None;
                    },
                };
                let asp = match get_req_bool(entries, "allow_sampling") {
                    Some(v) => v,
                    None => {
                        return None;
                    },
                };
                let alp = match get_req_bool(entries, "allow_logprobs") {
                    Some(v) => v,
                    None => {
                        return None;
                    },
                };
                let asi = match get_req_bool(entries, "allow_search_indices") {
                    Some(v) => v,
                    None => {
                        return None;
                    },
                };
                let avw = match get_req_bool(entries, "allow_view") {
                    Some(v) => v,
                    None => {
                        return None;
                    },
                };
                let aft = match get_req_bool(entries, "allow_fine_tuning") {
                    Some(v) => v,
                    None => {
                        return None;
                    },
                };
                let organization = match get_req_string(entries, "organization") {
                    Some(v) => v,
                    None => {
                        return None;
                    },
                };
                let is_blocking = match get_req_bool(entries, "is_blocking") {
                    Some(v) => v,
                    None => {
                        return None;
                    },
                };
                let group = match get_opt_string(entries, "group") {
                    Some(v) => v,
                    None => {
                        return None;
                    },
                };
                Some(
                    Permissions {
                        id,
                        object,
                        created,
                        allow_create_engine: ace,
                        allow_sampling: asp,
                        allow_logprobs: alp,
                        allow_search_indices: asi,
                        allow_view: avw,
                        allow_fine_tuning: aft,
                        organization,
                        is_blocking,
                        group,
                    },
                )
            },
            _ => None,
        }
    }
}

/// One available model.
#[derive(Debug, Clone)]
pub struct Model {
    pub id: String,
    pub object: String,
    pub created: u64,
    pub owned_by: String,
    pub permission: Vec<Permissions>,
    pub root: String,
    pub parent: Option<String>,
    pub token_usage: Option<TokenUsage>,
}

pub ghost struct ModelV {
    pub id: Seq<char>,
    pub object: Seq<char>,
    pub created: u64,
    pub owned_by: Seq<char>,
    pub permission: Seq<PermissionsV>,
    pub root: Seq<char>,
    pub parent: Option<Seq<char>>,
    pub token_usage: Option<TokenUsageV>,
}

impl View for Model {
    type V = ModelV;

    open spec fn view(&self) -> ModelV {
        ModelV {
            id: self.id@,
            object: self.object@,
            created: self.created,
            owned_by: self.owned_by@,
            permission: views_of(self.permission@),
            root: self.root@,
            parent: match self.parent {
                Some(ref s) => Some(s@),
                None => None,
            },
            token_usage: match self.token_usage {
                Some(ref t) => Some(t@),
                None => None,
            },
        }
    }
}

impl FromJson for Model {
    open spec fn spec_from_json(j: JsonV) -> Option<ModelV> {
        match j {
            JsonV::Obj(es) => match (
                req_string(es, "id"@),
                req_string(es, "object"@),
                req_int(es, "created"@, 0, i64::MAX as int),
                req_string(es, "owned_by"@),
                req_arr::<Permissions>(es, "permission"@),
                req_string(es, "root"@),
                opt_string(es, "parent"@),
                opt_payload::<TokenUsage>(es, "token_usage"@),
            ) {
                (
                    Some(id),
                    Some(object),
                    Some(created),
                    Some(owned_by),
                    Some(permission),
                    Some(root),
                    Some(parent),
                    Some(token_usage),
                ) => Some(
                    ModelV {
                        id,
                        object,
                        created: created as u64,
                        owned_by,
                        permission,
                        root,
                        parent,
                        token_usage,
                    },
                ),
                _ => None,
            },
            _ => None,
        }
    }

    fn from_json(j: &Json) -> (r: Option<Model>) {
        match j {
            Json::Obj(entries) => {
                let id = match get_req_string(entries, "id") {
                    Some(v) => v,
                    None => {
                        return None;
                    },
                };
                let object = match get_req_string(entries, "object") {
                    Some(v) => v,
                    None => {
                        return None;
                    },
                };
                let created = match get_req_u64(entries, "created") {
                    Some(v) => v,
                    None => {
                        return None;
                    },
                };
                let owned_by = match get_req_string(entries, "owned_by") {
                    Some(v) => v,
                    None => {
                        return None;
                    },
                };
                let permission = match get_req_arr::<Permissions>(entries, "permission") {
                    Some(v) => v,
                    None => {
                        return None;
                    },
                };
                let root = match get_req_string(entries, "root") {
                    Some(v) => v,
                    None => {
                        return None;
                    },
                };
                let parent = match get_opt_string(entries, "parent") {
                    Some(v) => v,
                    None => {
                        return None;
                    },
                };
                let token_usage = match get_opt_payload::<TokenUsage>(entries, "token_usage") {
                    Some(v) => v,
                    None => {
                        return None;
                    },
                };
                Some(
                    Model { id, object, created, owned_by, permission, root, parent, token_usage },
                )
            },
            _ => None,
        }
    }
}

/// The models available to the caller.
#[derive(Debug, Clone)]
pub struct Models {
    pub data: Vec<Model>,
    pub token_usage: Option<TokenUsage>,
}

pub ghost struct ModelsV {
    pub data: Seq<ModelV>,
    pub token_usage: Option<TokenUsageV>,
}

impl View for Models {
    type V = ModelsV;

    open spec fn view(&self) -> ModelsV {
        ModelsV {
            data: views_of(self.data@),
            token_usage: match self.token_usage {
                Some(ref t) => Some(t@),
                None => None,
            },
        }
    }
}

impl FromJson for Models {
    open spec fn spec_from_json(j: JsonV) -> Option<ModelsV> {
        match j {
            JsonV::Obj(es) => match (
                req_arr::<Model>(es, "data"@),
                opt_payload::<TokenUsage>(es, "token_usage"@),
            ) {
                (Some(data), Some(token_usage)) => Some(ModelsV { data, token_usage }),
                _ => None,
            },
            _ => None,
        }
    }

    fn from_json(j: &Json) -> (r: Option<Models>) {
        match j {
            Json::Obj(entries) => {
                let data = match get_req_arr::<Model>(entries, "data") {
                    Some(v) => v,
                    None => {
                        return None;
                    },
                };
                let token_usage = match get_opt_payload::<TokenUsage>(entries, "token_usage") {
                    Some(v) => v,
                    None => {
                        return None;
                    },
                };
                Some(Models { data, token_usage })
            },
            _ => None,
        }
    }
}

// ---------------------------------------------------------------------------
// Chat.
// ---------------------------------------------------------------------------

/// Who authored a chat message.  An unrecognized role on the wire reads
/// as `User`.
#[derive(Debug, Clone, Copy, PartialEq, Eq, Structural, Hash)]
pub enum ChatRole {
    System,
    User,
    Assistant,
    Function,
}

/// The role a wire string denotes.
pub open spec fn spec_role_of(s: Seq<char>) -> ChatRole {
    if s == "system"@ {
        ChatRole::System
    } else if s == "assistant"@ {
        ChatRole::Assistant
    } else if s == "function"@ {
        ChatRole::Function
    } else {
        ChatRole::User
    }
}

/// The wire string of a role.
pub open spec fn spec_role_str(r: ChatRole) -> Seq<char> {
    match r {
        ChatRole::System => "system"@,
        ChatRole::User => "user"@,
        ChatRole::Assistant => "assistant"@,
        ChatRole::Function => "function"@,
    }
}

impl View for ChatRole {
    type V = ChatRole;

    open spec fn view(&self) -> ChatRole {
        *self
    }
}

impl Default for ChatRole {
    fn default() -> (r: ChatRole)
        ensures
            r == ChatRole::User,
    {
        ChatRole::User
    }
}

impl ChatRole {
    /// The wire name of this role.
    pub fn as_str(&self) -> (r: &'static str)
        ensures
            r@ == spec_role_str(*self),
    {
        match self {
            ChatRole::System => "system",
            ChatRole::User => "user",
            ChatRole::Assistant => "assistant",
            ChatRole::Function => "function",
        }
    }

    /// The role a wire string denotes; anything unrecognized is `User`.
    pub fn of_str(s: &str) -> (r: ChatRole)
        ensures
            r == spec_role_of(s@),
    {
        if crate::json::str_eq(s, "system") {
            ChatRole::System
        } else if crate::json::str_eq(s, "assistant") {
            ChatRole::Assistant
        } else if crate::json::str_eq(s, "function") {
            ChatRole::Function
        } else {
            ChatRole::User
        }
    }
}

impl FromJson for ChatRole {
    open spec fn spec_from_json(j: JsonV) -> Option<ChatRole> {
        match j {
            JsonV::Str(s) => Some(spec_role_of(s)),
            _ => None,
        }
    }

    fn from_json(j: &Json) -> (r: Option<ChatRole>) {
        match j {
            Json::Str(s) => Some(ChatRole::of_str(s.as_str())),
            _ => None,
        }
    }
}

/// One chat message.
#[derive(Debug, Clone)]
pub struct ChatMessage {
    pub role: ChatRole,
    pub content: String,
    pub name: Option<String>,
}

pub ghost struct ChatMessageV {
    pub role: ChatRole,
    pub content: Seq<char>,
    pub name: Option<Seq<char>>,
}

impl View for ChatMessage {
    type V = ChatMessageV;

    open spec fn view(&self) -> ChatMessageV {
        ChatMessageV {
            role: self.role,
            content: self.content@,
            name: match self.name {
                Some(ref s) => Some(s@),
                None => None,
            },
        }
    }
}

impl FromJson for ChatMessage {
    open spec fn spec_from_json(j: JsonV) -> Option<ChatMessageV> {
        match j {
            JsonV::Obj(es) => match (
                req_payload::<ChatRole>(es, "role"@),
                req_string(es, "content"@),
                opt_string(es, "name"@),
            ) {
                (Some(role), Some(content), Some(name)) => Some(
                    ChatMessageV { role, content, name },
                ),
                _ => None,
            },
            _ => None,
        }
    }

    fn from_json(j: &Json) -> (r: Option<ChatMessage>) {
        match j {
            Json::Obj(entries) => {
                let role = match get_req_payload::<ChatRole>(entries, "role") {
                    Some(v) => v,
                    None => {
                        return None;
                    },
                };
                let content = match get_req_string(entries, "content") {
                    Some(v) => v,
                    None => {
                        return None;
                    },
                };
                let name = match get_opt_string(entries, "name") {
                    Some(v) => v,
                    None => {
                        return None;
                    },
                };
                Some(ChatMessage { role, content, name })
            },
            _ => None,
        }
    }
}

/// One returned chat alternative.
#[derive(Debug, Clone)]
pub struct ChatChoice {
    pub index: u32,
    pub message: ChatMessage,
    pub finish_reason: Option<String>,
}

pub ghost struct ChatChoiceV {
    pub index: u32,
    pub message: ChatMessageV,
    pub finish_reason: Option<Seq<char>>,
}

impl View for ChatChoice {
    type V = ChatChoiceV;

    open spec fn view(&self) -> ChatChoiceV {
        ChatChoiceV {
            index: self.index,
            message: self.message@,
            finish_reason: match self.finish_reason {
                Some(ref s) => Some(s@),
                None => None,
            },
        }
    }
}

impl FromJson for ChatChoice {
    open spec fn spec_from_json(j: JsonV) -> Option<ChatChoiceV> {
        match j {
            JsonV::Obj(es) => match (
                req_int(es, "index"@, 0, u32::MAX as int),
                req_payload::<ChatMessage>(es, "message"@),
                opt_string(es, "finish_reason"@),
            ) {
                (Some(index), Some(message), Some(finish_reason)) => Some(
                    ChatChoiceV { index: index as u32, message, finish_reason },
                ),
                _ => None,
            },
            _ => None,
        }
    }

    fn from_json(j: &Json) -> (r: Option<ChatChoice>) {
        match j {
            Json::Obj(entries) => {
                let index = match get_req_i64(entries, "index", 0, u32::MAX as i64) {
                    Some(v) => v,
                    None => {
                        return None;
                    },
                };
                let message = match get_req_payload::<ChatMessage>(entries, "message") {
                    Some(v) => v,
                    None => {
                        return None;
                    },
                };
                let finish_reason = match get_opt_string(entries, "finish_reason") {
                    Some(v) => v,
                    None => {
                        return None;
                    },
                };
                Some(ChatChoice { index: index as u32, message, finish_reason })
            },
            _ => None,
        }
    }
}

/// One chat completion.
#[derive(Debug, Clone)]
pub struct Chat {
    pub id: String,
    pub object: String,
    pub created: i64,
    pub choices: Vec<ChatChoice>,
    pub usage: TokenUsage,
    pub error: Option<crate::error::ErrorMessage>,
}

pub ghost struct ChatV {
    pub id: Seq<char>,
    pub object: Seq<char>,
    pub created: i64,
    pub choices: Seq<ChatChoiceV>,
    pub usage: TokenUsageV,
    pub error: Option<crate::error::ErrorMessageV>,
}

impl View for Chat {
    type V = ChatV;

    open spec fn view(&self) -> ChatV {
        ChatV {
            id: self.id@,
            object: self.object@,
            created: self.created,
            choices: views_of(self.choices@),
            usage: self.usage@,
            error: match self.error {
                Some(ref e) => Some(e@),
                None => None,
            },
        }
    }
}

impl FromJson for Chat {
    open spec fn spec_from_json(j: JsonV) -> Option<ChatV> {
        match j {
            JsonV::Obj(es) => match (
                req_string(es, "id"@),
                req_string(es, "object"@),
                req_int(es, "created"@, i64::MIN as int, i64::MAX as int),
                req_arr::<ChatChoice>(es, "choices"@),
                req_payload::<TokenUsage>(es, "usage"@),
                opt_payload::<crate::error::ErrorMessage>(es, "error"@),
            ) {
                (Some(id), Some(object), Some(created), Some(choices), Some(usage), Some(error)) =>
                    Some(
                    ChatV { id, object, created: created as i64, choices, usage, error },
                ),
                _ => None,
            },
            _ => None,
        }
    }

    fn from_json(j: &Json) -> (r: Option<Chat>) {
        match j {
            Json::Obj(entries) => {
                let id = match get_req_string(entries, "id") {
                    Some(v) => v,
                    None => {
                        return None;
                    },
                };
                let object = match get_req_string(entries, "object") {
                    Some(v) => v,
                    None => {
                        return None;
                    },
                };
                let created = match get_req_i64(entries, "created", i64::MIN, i64::MAX) {
                    Some(v) => v,
                    None => {
                        return None;
                    },
                };
                let choices = match get_req_arr::<ChatChoice>(entries, "choices") {
                    Some(v) => v,
                    None => {
                        return None;
                    },
                };
                let usage = match get_req_payload::<TokenUsage>(entries, "usage") {
                    Some(v) => v,
                    None => {
                        return None;
                    },
                };
                let error = match get_opt_payload::<crate::error::ErrorMessage>(entries, "error") {
                    Some(v) => v,
                    None => {
                        return None;
                    },
                };
                Some(Chat { id, object, created, choices, usage, error })
            },
            _ => None,
        }
    }
}

// ---------------------------------------------------------------------------
// Enumerations with fixed wire names.
// ---------------------------------------------------------------------------

/// What an uploaded document is for.
#[derive(Debug, Clone, Copy, PartialEq, Eq, Structural)]
pub enum Purpose {
    FineTune,
    Answers,
    Search,
    Classifications,
}

/// The wire name of a purpose.
pub open spec fn spec_purpose_str(p: Purpose) -> Seq<char> {
    match p {
        Purpose::FineTune => "fine-tune"@,
        Purpose::Answers => "answers"@,
        Purpose::Search => "search"@,
        Purpose::Classifications => "classifications"@,
    }
}

impl Default for Purpose {
    fn default() -> (r: Purpose)
        ensures
            r == Purpose::FineTune,
    {
        Purpose::FineTune
    }
}

impl Purpose {
    /// The wire name of this purpose.
    pub fn as_str(&self) -> (r: &'static str)
        ensures
            r@ == spec_purpose_str(*self),
    {
        match self {
            Purpose::FineTune => "fine-tune",
            Purpose::Answers => "answers",
            Purpose::Search => "search",
            Purpose::Classifications => "classifications",
        }
    }
}

/// The size of a generated image.
#[derive(Debug, Clone, Copy, PartialEq, Eq, Structural)]
pub enum ImageSize {
    S256x256,
    S512x512,
    S1024x1024,
}

/// The wire form of a size.
pub open spec fn spec_size_str(s: ImageSize) -> Seq<char> {
    match s {
        ImageSize::S256x256 => "256x256"@,
        ImageSize::S512x512 => "512x512"@,
        ImageSize::S1024x1024 => "1024x1024"@,
    }
}

/// The size a variant name denotes, as it appears in a parameter read
/// back from JSON.
pub open spec fn spec_size_of_name(s: Seq<char>) -> Option<ImageSize> {
    if s == "S256x256"@ {
        Some(ImageSize::S256x256)
    } else if s == "S512x512"@ {
        Some(ImageSize::S512x512)
    } else if s == "S1024x1024"@ {
        Some(ImageSize::S1024x1024)
    } else {
        None
    }
}

impl View for ImageSize {
    type V = ImageSize;

    open spec fn view(&self) -> ImageSize {
        *self
    }
}

impl Default for ImageSize {
    fn default() -> (r: ImageSize)
        ensures
            r == ImageSize::S1024x1024,
    {
        ImageSize::S1024x1024
    }
}

impl ImageSize {
    /// The wire form of this size.
    pub fn as_str(&self) -> (r: &'static str)
        ensures
            r@ == spec_size_str(*self),
    {
        match self {
            ImageSize::S256x256 => "256x256",
            ImageSize::S512x512 => "512x512",
            ImageSize::S1024x1024 => "1024x1024",
        }
    }

    /// Reads a size from its wire form.
    pub fn of_str(s: &str) -> (r: Option<ImageSize>)
        ensures
            r == (if s@ == "256x256"@ {
                Some(ImageSize::S256x256)
            } else if s@ == "512x512"@ {
                Some(ImageSize::S512x512)
            } else if s@ == "1024x1024"@ {
                Some(ImageSize::S1024x1024)
            } else {
                None::<ImageSize>
            }),
    {
        if crate::json::str_eq(s, "256x256") {
            Some(ImageSize::S256x256)
        } else if crate::json::str_eq(s, "512x512") {
            Some(ImageSize::S512x512)
        } else if crate::json::str_eq(s, "1024x1024") {
            Some(ImageSize::S1024x1024)
        } else {
            None
        }
    }
}

impl FromJson for ImageSize {
    open spec fn spec_from_json(j: JsonV) -> Option<ImageSize> {
        match j {
            JsonV::Str(s) => spec_size_of_name(s),
            _ => None,
        }
    }

    fn from_json(j: &Json) -> (r: Option<ImageSize>) {
        match j {
            Json::Str(s) => {
                if crate::json::str_eq(s.as_str(), "S256x256") {
                    Some(ImageSize::S256x256)
                } else if crate::json::str_eq(s.as_str(), "S512x512") {
                    Some(ImageSize::S512x512)
                } else if crate::json::str_eq(s.as_str(), "S1024x1024") {
                    Some(ImageSize::S1024x1024)
                } else {
                    None
                }
            },
            _ => None,
        }
    }
}

// ---------------------------------------------------------------------------
// Request parameters.  A parameter read back from JSON treats a missing
// field as its default, matching how the builders fill them.
// ---------------------------------------------------------------------------

/// Appends one object entry.
fn push_entry(entries: &mut Vec<(String, Json)>, key: &str, v: Json)
    ensures
        obj_view(final(entries)@) == obj_view(old(entries)@) + seq![(key@, v@)],
{
    let kk = String::from_str(key);
    let ghost kg = kk;
    let ghost vg = v;
    proof {
        crate::json::lemma_obj_view_snoc(entries@, kg, vg);
    }
    entries.push((kk, v));
}

/// The parameters of a chat completion request.
#[derive(Debug, Clone)]
pub struct ChatParam {
    pub messages: Vec<ChatMessage>,
    pub model: String,
    pub frequency_penalty: Option<Number>,
    pub max_tokens: Option<u32>,
    pub n: Option<u32>,
    pub presence_penalty: Option<Number>,
    pub seed: Option<u64>,
    pub stop: Option<String>,
    pub stream: bool,
    pub temperature: Option<Number>,
    pub top_p: Option<Number>,
    pub user: Option<String>,
}

pub ghost struct ChatParamV {
    pub messages: Seq<ChatMessageV>,
    pub model: Seq<char>,
    pub frequency_penalty: Option<Seq<u8>>,
    pub max_tokens: Option<u32>,
    pub n: Option<u32>,
    pub presence_penalty: Option<Seq<u8>>,
    pub seed: Option<u64>,
    pub stop: Option<Seq<char>>,
    pub stream: bool,
    pub temperature: Option<Seq<u8>>,
    pub top_p: Option<Seq<u8>>,
    pub user: Option<Seq<char>>,
}

impl View for ChatParam {
    type V = ChatParamV;

    open spec fn view(&self) -> ChatParamV {
        ChatParamV {
            messages: views_of(self.messages@),
            model: self.model@,
            frequency_penalty: match self.frequency_penalty {
                Some(ref n) => Some(n@),
                None => None,
            },
            max_tokens: self.max_tokens,
            n: self.n,
            presence_penalty: match self.presence_penalty {
                Some(ref n) => Some(n@),
                None => None,
            },
            seed: self.seed,
            stop: match self.stop {
                Some(ref s) => Some(s@),
                None => None,
            },
            stream: self.stream,
            temperature: match self.temperature {
                Some(ref n) => Some(n@),
                None => None,
            },
            top_p: match self.top_p {
                Some(ref n) => Some(n@),
                None => None,
            },
            user: match self.user {
                Some(ref s) => Some(s@),
                None => None,
            },
        }
    }
}

impl FromJson for ChatParam {
    open spec fn spec_from_json(j: JsonV) -> Option<ChatParamV> {
        match j {
            JsonV::Obj(es) => match (
                dflt_arr::<ChatMessage>(es, "messages"@),
                dflt_string(es, "model"@),
                opt_num_raw(es, "frequency_penalty"@),
                opt_int(es, "max_tokens"@, 0, u32::MAX as int),
                opt_int(es, "n"@, 0, u32::MAX as int),
                opt_num_raw(es, "presence_penalty"@),
                opt_int(es, "seed"@, 0, i64::MAX as int),
                opt_string(es, "stop"@),
                dflt_bool(es, "stream"@),
                opt_num_raw(es, "temperature"@),
                opt_num_raw(es, "top_p"@),
                opt_string(es, "user"@),
            ) {
                (
                    Some(messages),
                    Some(model),
                    Some(fp),
                    Some(mt),
                    Some(n),
                    Some(pp),
                    Some(seed),
                    Some(stop),
                    Some(stream),
                    Some(tp),
                    Some(topp),
                    Some(user),
                ) => Some(
                    ChatParamV {
                        messages,
                        model,
                        frequency_penalty: fp,
                        max_tokens: match mt {
                            Some(v) => Some(v as u32),
                            None => None,
                        },
                        n: match n {
                            Some(v) => Some(v as u32),
                            None => None,
                        },
                        presence_penalty: pp,
                        seed: match seed {
                            Some(v) => Some(v as u64),
                            None => None,
                        },
                        stop,
                        stream,
                        temperature: tp,
                        top_p: topp,
                        user,
                    },
                ),
                _ => None,
            },
            _ => None,
        }
    }

    fn from_json(j: &Json) -> (r: Option<ChatParam>) {
        match j {
            Json::Obj(entries) => {
                let messages = match get_dflt_arr::<ChatMessage>(entries, "messages") {
                    Some(v) => v,
                    None => {
                        return None;
                    },
                };
                let model = match get_dflt_string(entries, "model") {
                    Some(v) => v,
                    None => {
                        return None;
                    },
                };
                let fp = match get_opt_number(entries, "frequency_penalty") {
                    Some(v) => v,
                    None => {
                        return None;
                    },
                };
                let mt = match get_opt_i64(entries, "max_tokens", 0, u32::MAX as i64) {
                    Some(v) => v,
                    None => {
                        return None;
                    },
                };
                let n = match get_opt_i64(entries, "n", 0, u32::MAX as i64) {
                    Some(v) => v,
                    None => {
                        return None;
                    },
                };
                let pp = match get_opt_number(entries, "presence_penalty") {
                    Some(v) => v,
                    None => {
                        return None;
                    },
                };
                let seed = match get_opt_u64(entries, "seed") {
                    Some(v) => v,
                    None => {
                        return None;
                    },
                };
                let stop = match get_opt_string(entries, "stop") {
                    Some(v) => v,
                    None => {
                        return None;
                    },
                };
                let stream = match get_dflt_bool(entries, "stream") {
                    Some(v) => v,
                    None => {
                        return None;
                    },
                };
                let tp = match get_opt_number(entries, "temperature") {
                    Some(v) => v,
                    None => {
                        return None;
                    },
                };
                let topp = match get_opt_number(entries, "top_p") {
                    Some(v) => v,
                    None => {
                        return None;
                    },
                };
                let user = match get_opt_string(entries, "user") {
                    Some(v) => v,
                    None => {
                        return None;
                    },
                };
                Some(
                    ChatParam {
                        messages,
                        model,
                        frequency_penalty: fp,
                        max_tokens: match mt {
                            Some(v) => Some(v as u32),
                            None => None,
                        },
                        n: match n {
                            Some(v) => Some(v as u32),
                            None => None,
                        },
                        presence_penalty: pp,
                        seed,
                        stop,
                        stream,
                        temperature: tp,
                        top_p: topp,
                        user,
                    },
                )
            },
            _ => None,
        }
    }
}

impl ToJson for ChatMessage {
    open spec fn spec_to_json(v: ChatMessageV) -> JsonV {
        JsonV::Obj(
            seq![
                ("role"@, JsonV::Str(spec_role_str(v.role))),
                ("content"@, JsonV::Str(v.content)),
            ] + match v.name {
                Some(n) => seq![("name"@, JsonV::Str(n))],
                None => Seq::empty(),
            },
        )
    }

    fn to_json(&self) -> (r: Json) {
        let mut entries: Vec<(String, Json)> = Vec::new();
        proof {
            assert(obj_view(entries@) =~= Seq::<(Seq<char>, JsonV)>::empty());
        }
        push_entry(&mut entries, "role", Json::Str(String::from_str(self.role.as_str())));
        push_entry(&mut entries, "content", Json::Str(self.content.clone()));
        let ghost base = obj_view(entries@);
        match &self.name {
            Some(n) => {
                push_entry(&mut entries, "name", Json::Str(n.clone()));
            },
            None => {},
        }
        proof {
            assert(Seq::<(Seq<char>, JsonV)>::empty() + seq![
                ("role"@, JsonV::Str(spec_role_str(self@.role))),
            ] + seq![("content"@, JsonV::Str(self@.content))] =~= seq![
                ("role"@, JsonV::Str(spec_role_str(self@.role))),
                ("content"@, JsonV::Str(self@.content)),
            ]);
            if self.name is None {
                assert(obj_view(entries@) =~= base + Seq::<(Seq<char>, JsonV)>::empty());
            }
        }
        Json::Obj(entries)
    }
}

/// Writes a list of serializable values as a JSON array.
fn arr_to_json<T: ToJson>(items: &Vec<T>) -> (r: Json)
    ensures
        r@ == JsonV::Arr(Seq::new(items@.len(), |i: int| T::spec_to_json(items@[i]@))),
{
    let ghost target = Seq::new(items@.len(), |i: int| T::spec_to_json(items@[i]@));
    let mut out: Vec<Json> = Vec::new();
    let mut k: usize = 0;
    proof {
        assert(arr_view(out@) =~= Seq::<JsonV>::empty());
    }
    while k < items.len()
        invariant
            k <= items@.len(),
            target == Seq::new(items@.len(), |i: int| T::spec_to_json(items@[i]@)),
            arr_view(out@) =~= target.take(k as int),
        decreases items@.len() - k,
    {
        let ghost out0 = out@;
        let j = items[k].to_json();
        let ghost jg = j;
        proof {
            crate::json::lemma_arr_view_snoc(out0, jg);
        }
        out.push(j);
        proof {
            assert(arr_view(out@) =~= target.take(k + 1));
        }
        k = k + 1;
    }
    proof {
        assert(target.take(items@.len() as int) =~= target);
    }
    Json::Arr(out)
}

impl ToJson for ChatParam {
    open spec fn spec_to_json(v: ChatParamV) -> JsonV {
        JsonV::Obj(
            seq![
                (
                    "messages"@,
                    JsonV::Arr(
                        Seq::new(v.messages.len(), |i: int| ChatMessage::spec_to_json(v.messages[i])),
                    ),
                ),
                ("model"@, JsonV::Str(v.model)),
            ] + (match v.frequency_penalty {
                Some(n) => seq![("frequency_penalty"@, JsonV::Num(n))],
                None => Seq::empty(),
            }) + (match v.max_tokens {
                Some(n) => seq![("max_tokens"@, JsonV::Num(crate::json::int_lit(n as int)))],
                None => Seq::empty(),
            }) + (match v.n {
                Some(n) => seq![("n"@, JsonV::Num(crate::json::int_lit(n as int)))],
                None => Seq::empty(),
            }) + (match v.presence_penalty {
                Some(n) => seq![("presence_penalty"@, JsonV::Num(n))],
                None => Seq::empty(),
            }) + (match v.seed {
                Some(n) => seq![("seed"@, JsonV::Num(crate::json::int_lit(n as int)))],
                None => Seq::empty(),
            }) + (match v.stop {
                Some(s) => seq![("stop"@, JsonV::Str(s))],
                None => Seq::empty(),
            }) + (if v.stream {
                seq![("stream"@, JsonV::Bool(true))]
            } else {
                Seq::empty()
            }) + (match v.temperature {
                Some(n) => seq![("temperature"@, JsonV::Num(n))],
                None => Seq::empty(),
            }) + (match v.top_p {
                Some(n) => seq![("top_p"@, JsonV::Num(n))],
                None => Seq::empty(),
            }) + (match v.user {
                Some(s) => seq![("user"@, JsonV::Str(s))],
                None => Seq::empty(),
            }),
        )
    }

    #[verifier::rlimit(100)]
    fn to_json(&self) -> (r: Json) {
        let mut entries: Vec<(String, Json)> = Vec::new();
        proof {
            assert(obj_view(entries@) =~= Seq::<(Seq<char>, JsonV)>::empty());
        }
        let msgs = arr_to_json::<ChatMessage>(&self.messages);
        proof {
            assert(Seq::new(self.messages@.len(), |i: int| ChatMessage::spec_to_json(self.messages@[i]@))
                =~= Seq::new(self@.messages.len(), |i: int| ChatMessage::spec_to_json(self@.messages[i])));
        }
        push_entry(&mut entries, "messages", msgs);
        push_entry(&mut entries, "model", Json::Str(self.model.clone()));
        let ghost g0 = seq![
            (
                "messages"@,
                JsonV::Arr(
                    Seq::new(self@.messages.len(), |i: int| ChatMessage::spec_to_json(self@.messages[i])),
                ),
            ),
            ("model"@, JsonV::Str(self@.model)),
        ];
        proof {
            assert(obj_view(entries@) =~= g0);
        }
        if let Some(n) = &self.frequency_penalty {
            push_entry(&mut entries, "frequency_penalty", Json::Num(n.raw.clone()));
        }
        let ghost g1 = g0 + (match self@.frequency_penalty {
            Some(n) => seq![("frequency_penalty"@, JsonV::Num(n))],
            None => Seq::empty(),
        });
        proof {
            assert(obj_view(entries@) =~= g1);
        }
        if let Some(n) = &self.max_tokens {
            push_entry(&mut entries, "max_tokens", Json::Num(crate::json::u64_to_dec(*n as u64)));
        }
        let ghost g2 = g1 + (match self@.max_tokens {
            Some(n) => seq![("max_tokens"@, JsonV::Num(crate::json::int_lit(n as int)))],
            None => Seq::empty(),
        });
        proof {
            assert(obj_view(entries@) =~= g2);
        }
        if let Some(n) = &self.n {
            push_entry(&mut entries, "n", Json::Num(crate::json::u64_to_dec(*n as u64)));
        }
        let ghost g3 = g2 + (match self@.n {
            Some(n) => seq![("n"@, JsonV::Num(crate::json::int_lit(n as int)))],
            None => Seq::empty(),
        });
        proof {
            assert(obj_view(entries@) =~= g3);
        }
        if let Some(n) = &self.presence_penalty {
            push_entry(&mut entries, "presence_penalty", Json::Num(n.raw.clone()));
        }
        let ghost g4 = g3 + (match self@.presence_penalty {
            Some(n) => seq![("presence_penalty"@, JsonV::Num(n))],
            None => Seq::empty(),
        });
        proof {
            assert(obj_view(entries@) =~= g4);
        }
        if let Some(n) = &self.seed {
            push_entry(&mut entries, "seed", Json::Num(crate::json::u64_to_dec(*n)));
        }
        let ghost g5 = g4 + (match self@.seed {
            Some(n) => seq![("seed"@, JsonV::Num(crate::json::int_lit(n as int)))],
            None => Seq::empty(),
        });
        proof {
            assert(obj_view(entries@) =~= g5);
        }
        if let Some(s) = &self.stop {
            push_entry(&mut entries, "stop", Json::Str(s.clone()));
        }
        let ghost g6 = g5 + (match self@.stop {
            Some(s) => seq![("stop"@, JsonV::Str(s))],
            None => Seq::empty(),
        });
        proof {
            assert(obj_view(entries@) =~= g6);
        }
        if self.stream {
            push_entry(&mut entries, "stream", Json::Bool(true));
        }
        let ghost g7 = g6 + (if self@.stream {
            seq![("stream"@, JsonV::Bool(true))]
        } else {
            Seq::empty()
        });
        proof {
            assert(obj_view(entries@) =~= g7);
        }
        if let Some(n) = &self.temperature {
            push_entry(&mut entries, "temperature", Json::Num(n.raw.clone()));
        }
        let ghost g8 = g7 + (match self@.temperature {
            Some(n) => seq![("temperature"@, JsonV::Num(n))],
            None => Seq::empty(),
        });
        proof {
            assert(obj_view(entries@) =~= g8);
        }
        if let Some(n) = &self.top_p {
            push_entry(&mut entries, "top_p", Json::Num(n.raw.clone()));
        }
        let ghost g9 = g8 + (match self@.top_p {
            Some(n) => seq![("top_p"@, JsonV::Num(n))],
            None => Seq::empty(),
        });
        proof {
            assert(obj_view(entries@) =~= g9);
        }
        if let Some(s) = &self.user {
            push_entry(&mut entries, "user", Json::Str(s.clone()));
        }
        let ghost g10 = g9 + (match self@.user {
            Some(s) => seq![("user"@, JsonV::Str(s))],
            None => Seq::empty(),
        });
        proof {
            assert(obj_view(entries@) =~= g10);
            assert(Self::spec_to_json(self@) == JsonV::Obj(g10));
        }
        Json::Obj(entries)
    }
}

/// The parameters of a text completion request.
#[derive(Debug, Clone)]
pub struct CompletionParam {
    pub model: String,
    pub prompt: Option<Vec<String>>,
    pub suffix: Option<String>,
    pub max_tokens: Option<i32>,
    pub temperature: Option<Number>,
    pub top_p: Option<Number>,
    pub n: Option<u32>,
    pub stream: bool,
    pub logprobs: Option<Number>,
    pub echo: bool,
    pub stop: Option<String>,
    pub presence_penalty: Option<Number>,
    pub frequency_penalty: Option<Number>,
    pub best_of: Option<u16>,
    pub user: Option<String>,
}

pub ghost struct CompletionParamV {
    pub model: Seq<char>,
    pub prompt: Option<Seq<Seq<char>>>,
    pub suffix: Option<Seq<char>>,
    pub max_tokens: Option<i32>,
    pub temperature: Option<Seq<u8>>,
    pub top_p: Option<Seq<u8>>,
    pub n: Option<u32>,
    pub stream: bool,
    pub logprobs: Option<Seq<u8>>,
    pub echo: bool,
    pub stop: Option<Seq<char>>,
    pub presence_penalty: Option<Seq<u8>>,
    pub frequency_penalty: Option<Seq<u8>>,
    pub best_of: Option<u16>,
    pub user: Option<Seq<char>>,
}

impl View for CompletionParam {
    type V = CompletionParamV;

    open spec fn view(&self) -> CompletionParamV {
        CompletionParamV {
            model: self.model@,
            prompt: match self.prompt {
                Some(ref p) => Some(views_of(p@)),
                None => None,
            },
            suffix: match self.suffix {
                Some(ref s) => Some(s@),
                None => None,
            },
            max_tokens: self.max_tokens,
            temperature: match self.temperature {
                Some(ref n) => Some(n@),
                None => None,
            },
            top_p: match self.top_p {
                Some(ref n) => Some(n@),
                None => None,
            },
            n: self.n,
            stream: self.stream,
            logprobs: match self.logprobs {
                Some(ref n) => Some(n@),
                None => None,
            },
            echo: self.echo,
            stop: match self.stop {
                Some(ref s) => Some(s@),
                None => None,
            },
            presence_penalty: match self.presence_penalty {
                Some(ref n) => Some(n@),
                None => None,
            },
            frequency_penalty: match self.frequency_penalty {
                Some(ref n) => Some(n@),
                None => None,
            },
            best_of: self.best_of,
            user: match self.user {
                Some(ref s) => Some(s@),
                None => None,
            },
        }
    }
}

impl FromJson for CompletionParam {
    open spec fn spec_from_json(j: JsonV) -> Option<CompletionParamV> {
        match j {
            JsonV::Obj(es) => match (
                dflt_string(es, "model"@),
                opt_arr::<String>(es, "prompt"@),
                opt_string(es, "suffix"@),
                opt_int(es, "max_tokens"@, i32::MIN as int, i32::MAX as int),
                opt_num_raw(es, "temperature"@),
                opt_num_raw(es, "top_p"@),
                opt_int(es, "n"@, 0, u32::MAX as int),
                dflt_bool(es, "stream"@),
                opt_num_raw(es, "logprobs"@),
                dflt_bool(es, "echo"@),
                opt_string(es, "stop"@),
                opt_num_raw(es, "presence_penalty"@),
                opt_num_raw(es, "frequency_penalty"@),
                opt_int(es, "best_of"@, 0, u16::MAX as int),
                opt_string(es, "user"@),
            ) {
                (
                    Some(model),
                    Some(prompt),
                    Some(suffix),
                    Some(max_tokens),
                    Some(temperature),
                    Some(top_p),
                    Some(n),
                    Some(stream),
                    Some(logprobs),
                    Some(echo),
                    Some(stop),
                    Some(presence_penalty),
                    Some(frequency_penalty),
                    Some(best_of),
                    Some(user),
                ) => Some(
                    CompletionParamV {
                        model,
                        prompt,
                        suffix,
                        max_tokens: match max_tokens {
                            Some(v) => Some(v as i32),
                            None => None,
                        },
                        temperature,
                        top_p,
                        n: match n {
                            Some(v) => Some(v as u32),
                            None => None,
                        },
                        stream,
                        logprobs,
                        echo,
                        stop,
                        presence_penalty,
                        frequency_penalty,
                        best_of: match best_of {
                            Some(v) => Some(v as u16),
                            None => None,
                        },
                        user,
                    },
                ),
                _ => None,
            },
            _ => None,
        }
    }

    fn from_json(j: &Json) -> (r: Option<CompletionParam>) {
        match j {
            Json::Obj(entries) => {
                let model = match get_dflt_string(entries, "model") {
                    Some(v) => v,
                    None => {
                        return None;
                    },
                };
                let prompt = match get_opt_arr::<String>(entries, "prompt") {
                    Some(v) => v,
                    None => {
                        return None;
                    },
                };
                let suffix = match get_opt_string(entries, "suffix") {
                    Some(v) => v,
                    None => {
                        return None;
                    },
                };
                let max_tokens = match get_opt_i64(entries, "max_tokens", i32::MIN as i64, i32::MAX as i64) {
                    Some(v) => v,
                    None => {
                        return None;
                    },
                };
                let temperature = match get_opt_number(entries, "temperature") {
                    Some(v) => v,
                    None => {
                        return None;
                    },
                };
                let top_p = match get_opt_number(entries, "top_p") {
                    Some(v) => v,
                    None => {
                        return None;
                    },
                };
                let n = match get_opt_i64(entries, "n", 0, u32::MAX as i64) {
                    Some(v) => v,
                    None => {
                        return None;
                    },
                };
                let stream = match get_dflt_bool(entries, "stream") {
                    Some(v) => v,
                    None => {
                        return None;
                    },
                };
                let logprobs = match get_opt_number(entries, "logprobs") {
                    Some(v) => v,
                    None => {
                        return None;
                    },
                };
                let echo = match get_dflt_bool(entries, "echo") {
                    Some(v) => v,
                    None => {
                        return None;
                    },
                };
                let stop = match get_opt_string(entries, "stop") {
                    Some(v) => v,
                    None => {
                        return None;
                    },
                };
                let presence_penalty = match get_opt_number(entries, "presence_penalty") {
                    Some(v) => v,
                    None => {
                        return None;
                    },
                };
                let frequency_penalty = match get_opt_number(entries, "frequency_penalty") {
                    Some(v) => v,
                    None => {
                        return None;
                    },
                };
                let best_of = match get_opt_i64(entries, "best_of", 0, u16::MAX as i64) {
                    Some(v) => v,
                    None => {
                        return None;
                    },
                };
                let user = match get_opt_string(entries, "user") {
                    Some(v) => v,
                    None => {
                        return None;
                    },
                };
                Some(
                    CompletionParam {
                        model,
                        prompt,
                        suffix,
                        max_tokens: match max_tokens {
                            Some(v) => Some(v as i32),
                            None => None,
                        },
                        temperature,
                        top_p,
                        n: match n {
                            Some(v) => Some(v as u32),
                            None => None,
                        },
                        stream,
                        logprobs,
                        echo,
                        stop,
                        presence_penalty,
                        frequency_penalty,
                        best_of: match best_of {
                            Some(v) => Some(v as u16),
                            None => None,
                        },
                        user,
                    },
                )
            },
            _ => None,
        }
    }
}

/// The parameters of an edit request.
#[derive(Debug, Clone)]
pub struct EditParam {
    pub model: String,
    pub instruction: String,
    pub input: Option<String>,
    pub n: Option<u32>,
    pub temperature: Option<Number>,
    pub top_p: Option<Number>,
}

pub ghost struct EditParamV {
    pub model: Seq<char>,
    pub instruction: Seq<char>,
    pub input: Option<Seq<char>>,
    pub n: Option<u32>,
    pub temperature: Option<Seq<u8>>,
    pub top_p: Option<Seq<u8>>,
}

impl View for EditParam {
    type V = EditParamV;

    open spec fn view(&self) -> EditParamV {
        EditParamV {
            model: self.model@,
            instruction: self.instruction@,
            input: match self.input {
                Some(ref s) => Some(s@),
                None => None,
            },
            n: self.n,
            temperature: match self.temperature {
                Some(ref n) => Some(n@),
                None => None,
            },
            top_p: match self.top_p {
                Some(ref n) => Some(n@),
                None => None,
            },
        }
    }
}

impl FromJson for EditParam {
    open spec fn spec_from_json(j: JsonV) -> Option<EditParamV> {
        match j {
            JsonV::Obj(es) => match (
                dflt_string(es, "model"@),
                dflt_string(es, "instruction"@),
                opt_string(es, "input"@),
                opt_int(es, "n"@, 0, u32::MAX as int),
                opt_num_raw(es, "temperature"@),
                opt_num_raw(es, "top_p"@),
            ) {
                (Some(model), Some(instruction), Some(input), Some(n), Some(tp), Some(topp)) =>
                    Some(
                    EditParamV {
                        model,
                        instruction,
                        input,
                        n: match n {
                            Some(v) => Some(v as u32),
                            None => None,
                        },
                        temperature: tp,
                        top_p: topp,
                    },
                ),
                _ => None,
            },
            _ => None,
        }
    }

    fn from_json(j: &Json) -> (r: Option<EditParam>) {
        match j {
            Json::Obj(entries) => {
                let model = match get_dflt_string(entries, "model") {
                    Some(v) => v,
                    None => {
                        return None;
                    },
                };
                let instruction = match get_dflt_string(entries, "instruction") {
                    Some(v) => v,
                    None => {
                        return None;
                    },
                };
                let input = match get_opt_string(entries, "input") {
                    Some(v) => v,
                    None => {
                        return None;
                    },
                };
                let n = match get_opt_i64(entries, "n", 0, u32::MAX as i64) {
                    Some(v) => v,
                    None => {
                        return None;
                    },
                };
                let tp = match get_opt_number(entries, "temperature") {
                    Some(v) => v,
                    None => {
                        return None;
                    },
                };
                let topp = match get_opt_number(entries, "top_p") {
                    Some(v) => v,
                    None => {
                        return None;
                    },
                };
                Some(
                    EditParam {
                        model,
                        instruction,
                        input,
                        n: match n {
                            Some(v) => Some(v as u32),
                            None => None,
                        },
                        temperature: tp,
                        top_p: topp,
                    },
                )
            },
            _ => None,
        }
    }
}

/// The parameters of an embedding request.
#[derive(Debug, Clone)]
pub struct EmbeddingParam {
    pub model: String,
    pub input: String,
    pub user: Option<String>,
}

pub ghost struct EmbeddingParamV {
    pub model: Seq<char>,
    pub input: Seq<char>,
    pub user: Option<Seq<char>>,
}

impl View for EmbeddingParam {
    type V = EmbeddingParamV;

    open spec fn view(&self) -> EmbeddingParamV {
        EmbeddingParamV {
            model: self.model@,
            input: self.input@,
            user: match self.user {
                Some(ref s) => Some(s@),
                None => None,
            },
        }
    }
}

impl FromJson for EmbeddingParam {
    open spec fn spec_from_json(j: JsonV) -> Option<EmbeddingParamV> {
        match j {
            JsonV::Obj(es) => match (
                dflt_string(es, "model"@),
                dflt_string(es, "input"@),
                opt_string(es, "user"@),
            ) {
                (Some(model), Some(input), Some(user)) => Some(
                    EmbeddingParamV { model, input, user },
                ),
                _ => None,
            },
            _ => None,
        }
    }

    fn from_json(j: &Json) -> (r: Option<EmbeddingParam>) {
        match j {
            Json::Obj(entries) => {
                let model = match get_dflt_string(entries, "model") {
                    Some(v) => v,
                    None => {
                        return None;
                    },
                };
                let input = match get_dflt_string(entries, "input") {
                    Some(v) => v,
                    None => {
                        return None;
                    },
                };
                let user = match get_opt_string(entries, "user") {
                    Some(v) => v,
                    None => {
                        return None;
                    },
                };
                Some(EmbeddingParam { model, input, user })
            },
            _ => None,
        }
    }
}

impl ToJson for EmbeddingParam {
    open spec fn spec_to_json(v: EmbeddingParamV) -> JsonV {
        JsonV::Obj(
            seq![("model"@, JsonV::Str(v.model)), ("input"@, JsonV::Str(v.input))] + (
            match v.user {
                Some(s) => seq![("user"@, JsonV::Str(s))],
                None => Seq::empty(),
            }),
        )
    }

    fn to_json(&self) -> (r: Json) {
        let mut entries: Vec<(String, Json)> = Vec::new();
        proof {
            assert(obj_view(entries@) =~= Seq::<(Seq<char>, JsonV)>::empty());
        }
        push_entry(&mut entries, "model", Json::Str(self.model.clone()));
        push_entry(&mut entries, "input", Json::Str(self.input.clone()));
        let ghost base = seq![
            ("model"@, JsonV::Str(self@.model)),
            ("input"@, JsonV::Str(self@.input)),
        ];
        proof {
            assert(obj_view(entries@) =~= base);
        }
        if let Some(s) = &self.user {
            push_entry(&mut entries, "user", Json::Str(s.clone()));
        }
        proof {
            assert(obj_view(entries@) =~= base + (match self@.user {
                Some(s) => seq![("user"@, JsonV::Str(s))],
                None => Seq::<(Seq<char>, JsonV)>::empty(),
            }));
        }
        Json::Obj(entries)
    }
}

/// The parameters of a moderation request.
#[derive(Debug, Clone)]
pub struct ModerationParam {
    pub model: Option<String>,
    pub input: String,
}

pub ghost struct ModerationParamV {
    pub model: Option<Seq<char>>,
    pub input: Seq<char>,
}

impl View for ModerationParam {
    type V = ModerationParamV;

    open spec fn view(&self) -> ModerationParamV {
        ModerationParamV {
            model: match self.model {
                Some(ref s) => Some(s@),
                None => None,
            },
            input: self.input@,
        }
    }
}

impl FromJson for ModerationParam {
    open spec fn spec_from_json(j: JsonV) -> Option<ModerationParamV> {
        match j {
            JsonV::Obj(es) => match (opt_string(es, "model"@), dflt_string(es, "input"@)) {
                (Some(model), Some(input)) => Some(ModerationParamV { model, input }),
                _ => None,
            },
            _ => None,
        }
    }

    fn from_json(j: &Json) -> (r: Option<ModerationParam>) {
        match j {
            Json::Obj(entries) => {
                let model = match get_opt_string(entries, "model") {
                    Some(v) => v,
                    None => {
                        return None;
                    },
                };
                let input = match get_dflt_string(entries, "input") {
                    Some(v) => v,
                    None => {
                        return None;
                    },
                };
                Some(ModerationParam { model, input })
            },
            _ => None,
        }
    }
}

/// The parameters of an image generation request.
#[derive(Debug, Clone)]
pub struct GenerateImageParam {
    pub prompt: String,
    pub n: Option<u8>,
    pub size: Option<ImageSize>,
    pub user: Option<String>,
}

pub ghost struct GenerateImageParamV {
    pub prompt: Seq<char>,
    pub n: Option<u8>,
    pub size: Option<ImageSize>,
    pub user: Option<Seq<char>>,
}

impl View for GenerateImageParam {
    type V = GenerateImageParamV;

    open spec fn view(&self) -> GenerateImageParamV {
        GenerateImageParamV {
            prompt: self.prompt@,
            n: self.n,
            size: self.size,
            user: match self.user {
                Some(ref s) => Some(s@),
                None => None,
            },
        }
    }
}

impl FromJson for GenerateImageParam {
    open spec fn spec_from_json(j: JsonV) -> Option<GenerateImageParamV> {
        match j {
            JsonV::Obj(es) => match (
                dflt_string(es, "prompt"@),
                opt_int(es, "n"@, 0, u8::MAX as int),
                opt_payload::<ImageSize>(es, "size"@),
                opt_string(es, "user"@),
            ) {
                (Some(prompt), Some(n), Some(size), Some(user)) => Some(
                    GenerateImageParamV {
                        prompt,
                        n: match n {
                            Some(v) => Some(v as u8),
                            None => None,
                        },
                        size,
                        user,
                    },
                ),
                _ => None,
            },
            _ => None,
        }
    }

    fn from_json(j: &Json) -> (r: Option<GenerateImageParam>) {
        match j {
            Json::Obj(entries) => {
                let prompt = match get_dflt_string(entries, "prompt") {
                    Some(v) => v,
                    None => {
                        return None;
                    },
                };
                let n = match get_opt_i64(entries, "n", 0, u8::MAX as i64) {
                    Some(v) => v,
                    None => {
                        return None;
                    },
                };
                let size = match get_opt_payload::<ImageSize>(entries, "size") {
                    Some(v) => v,
                    None => {
                        return None;
                    },
                };
                let user = match get_opt_string(entries, "user") {
                    Some(v) => v,
                    None => {
                        return None;
                    },
                };
                Some(
                    GenerateImageParam {
                        prompt,
                        n: match n {
                            Some(v) => Some(v as u8),
                            None => None,
                        },
                        size,
                        user,
                    },
                )
            },
            _ => None,
        }
    }
}

/// The parameters of a fine-tune creation request.
#[derive(Debug, Clone)]
pub struct CreateFineTuneParam {
    pub training_file: String,
    pub validation_file: Option<String>,
    pub model: Option<String>,
    pub n_epochs: Option<i32>,
    pub batch_size: Option<i32>,
    pub learning_rate_multiplier: Option<Number>,
    pub prompt_loss_weight: Option<Number>,
    pub compute_classification_metrics: Option<bool>,
    pub classification_n_classes: Option<i32>,
    pub classification_positive_class: Option<String>,
    pub classification_betas: Option<Vec<Number>>,
    pub suffix: Option<String>,
}

pub ghost struct CreateFineTuneParamV {
    pub training_file: Seq<char>,
    pub validation_file: Option<Seq<char>>,
    pub model: Option<Seq<char>>,
    pub n_epochs: Option<i32>,
    pub batch_size: Option<i32>,
    pub learning_rate_multiplier: Option<Seq<u8>>,
    pub prompt_loss_weight: Option<Seq<u8>>,
    pub compute_classification_metrics: Option<bool>,
    pub classification_n_classes: Option<i32>,
    pub classification_positive_class: Option<Seq<char>>,
    pub classification_betas: Option<Seq<Seq<u8>>>,
    pub suffix: Option<Seq<char>>,
}

impl View for CreateFineTuneParam {
    type V = CreateFineTuneParamV;

    open spec fn view(&self) -> CreateFineTuneParamV {
        CreateFineTuneParamV {
            training_file: self.training_file@,
            validation_file: match self.validation_file {
                Some(ref s) => Some(s@),
                None => None,
            },
            model: match self.model {
                Some(ref s) => Some(s@),
                None => None,
            },
            n_epochs: self.n_epochs,
            batch_size: self.batch_size,
            learning_rate_multiplier: match self.learning_rate_multiplier {
                Some(ref n) => Some(n@),
                None => None,
            },
            prompt_loss_weight: match self.prompt_loss_weight {
                Some(ref n) => Some(n@),
                None => None,
            },
            compute_classification_metrics: self.compute_classification_metrics,
            classification_n_classes: self.classification_n_classes,
            classification_positive_class: match self.classification_positive_class {
                Some(ref s) => Some(s@),
                None => None,
            },
            classification_betas: match self.classification_betas {
                Some(ref b) => Some(views_of(b@)),
                None => None,
            },
            suffix: match self.suffix {
                Some(ref s) => Some(s@),
                None => None,
            },
        }
    }
}

/// The parameters of an image edit request.
#[derive(Debug, Clone)]
pub struct EditImageParam {
    pub prompt: String,
    pub n: u8,
    pub size: ImageSize,
    pub user: String,
}

pub ghost struct EditImageParamV {
    pub prompt: Seq<char>,
    pub n: u8,
    pub size: ImageSize,
    pub user: Seq<char>,
}

impl View for EditImageParam {
    type V = EditImageParamV;

    open spec fn view(&self) -> EditImageParamV {
        EditImageParamV { prompt: self.prompt@, n: self.n, size: self.size, user: self.user@ }
    }
}

impl Default for EditImageParam {
    /// One image of the largest size, with no prompt and no user tag.
    fn default() -> (r: EditImageParam)
        ensures
            r@.prompt == Seq::<char>::empty(),
            r@.n == 1u8,
            r@.size == ImageSize::S1024x1024,
            r@.user == Seq::<char>::empty(),
    {
        EditImageParam {
            prompt: String::new(),
            n: 1,
            size: ImageSize::S1024x1024,
            user: String::new(),
        }
    }
}

/// The parameters of an image variation request.
#[derive(Debug, Clone)]
pub struct VariateImageParam {
    pub n: u8,
    pub size: ImageSize,
    pub user: String,
}

pub ghost struct VariateImageParamV {
    pub n: u8,
    pub size: ImageSize,
    pub user: Seq<char>,
}

impl View for VariateImageParam {
    type V = VariateImageParamV;

    open spec fn view(&self) -> VariateImageParamV {
        VariateImageParamV { n: self.n, size: self.size, user: self.user@ }
    }
}

impl Default for VariateImageParam {
    /// One image of the largest size, with no user tag.
    fn default() -> (r: VariateImageParam)
        ensures
            r@.n == 1u8,
            r@.size == ImageSize::S1024x1024,
            r@.user == Seq::<char>::empty(),
    {
        VariateImageParam { n: 1, size: ImageSize::S1024x1024, user: String::new() }
    }
}

// ---------------------------------------------------------------------------
// Upload forms.  The file's bytes are read by the surrounding program;
// assembling the form from them is the library's job.
// ---------------------------------------------------------------------------

/// The form of a document upload: the file part and its purpose.
pub fn upload_form(filename: &str, content: Vec<u8>, purpose: Purpose) -> (r: MultipartForm)
    ensures
        r@ == seq![
            FormPartV::File { name: "file"@, filename: filename@, content: content@ },
            FormPartV::Text { name: "purpose"@, value: spec_purpose_str(purpose) },
        ],
{
    let ghost c = content@;
    let mut parts: Vec<FormPart> = Vec::new();
    parts.push(
        FormPart::File {
            name: String::from_str("file"),
            filename: String::from_str(filename),
            content,
        },
    );
    parts.push(
        FormPart::Text { name: String::from_str("purpose"), value: String::from_str(purpose.as_str()) },
    );
    proof {
        crate::client::lemma_parts_view_elts(parts@);
        assert(parts_view(parts@) =~= seq![
            FormPartV::File { name: "file"@, filename: filename@, content: c },
            FormPartV::Text { name: "purpose"@, value: spec_purpose_str(purpose) },
        ]);
    }
    MultipartForm { parts }
}

/// The form of an image edit: the image, the prompt, and the settings.
pub fn edit_image_form(image_name: &str, image: Vec<u8>, param: &EditImageParam) -> (r:
    MultipartForm)
    ensures
        r@ == seq![
            FormPartV::File { name: "image"@, filename: image_name@, content: image@ },
            FormPartV::Text { name: "prompt"@, value: param@.prompt },
            FormPartV::Text {
                name: "n"@,
                value: vstd::utf8::decode_utf8(crate::json::int_lit(param@.n as int)),
            },
            FormPartV::Text { name: "size"@, value: spec_size_str(param@.size) },
            FormPartV::Text { name: "user"@, value: param@.user },
        ],
{
    let ghost c = image@;
    let mut parts: Vec<FormPart> = Vec::new();
    parts.push(
        FormPart::File {
            name: String::from_str("image"),
            filename: String::from_str(image_name),
            content: image,
        },
    );
    parts.push(
        FormPart::Text { name: String::from_str("prompt"), value: param.prompt.clone() },
    );
    parts.push(
        FormPart::Text { name: String::from_str("n"), value: crate::json::dec_string(param.n as u64) },
    );
    parts.push(
        FormPart::Text { name: String::from_str("size"), value: String::from_str(param.size.as_str()) },
    );
    parts.push(FormPart::Text { name: String::from_str("user"), value: param.user.clone() });
    proof {
        crate::client::lemma_parts_view_elts(parts@);
        assert(parts_view(parts@) =~= seq![
            FormPartV::File { name: "image"@, filename: image_name@, content: c },
            FormPartV::Text { name: "prompt"@, value: param@.prompt },
            FormPartV::Text {
                name: "n"@,
                value: vstd::utf8::decode_utf8(crate::json::int_lit(param@.n as int)),
            },
            FormPartV::Text { name: "size"@, value: spec_size_str(param@.size) },
            FormPartV::Text { name: "user"@, value: param@.user },
        ]);
    }
    MultipartForm { parts }
}

/// The form of an image variation: the image and the settings.
pub fn variate_image_form(image_name: &str, image: Vec<u8>, param: &VariateImageParam) -> (r:
    MultipartForm)
    ensures
        r@ == seq![
            FormPartV::File { name: "image"@, filename: image_name@, content: image@ },
            FormPartV::Text {
                name: "n"@,
                value: vstd::utf8::decode_utf8(crate::json::int_lit(param@.n as int)),
            },
            FormPartV::Text { name: "size"@, value: spec_size_str(param@.size) },
            FormPartV::Text { name: "user"@, value: param@.user },
        ],
{
    let ghost c = image@;
    let mut parts: Vec<FormPart> = Vec::new();
    parts.push(
        FormPart::File {
            name: String::from_str("image"),
            filename: String::from_str(image_name),
            content: image,
        },
    );
    parts.push(
        FormPart::Text { name: String::from_str("n"), value: crate::json::dec_string(param.n as u64) },
    );
    parts.push(
        FormPart::Text { name: String::from_str("size"), value: String::from_str(param.size.as_str()) },
    );
    parts.push(FormPart::Text { name: String::from_str("user"), value: param.user.clone() });
    proof {
        crate::client::lemma_parts_view_elts(parts@);
        assert(parts_view(parts@) =~= seq![
            FormPartV::File { name: "image"@, filename: image_name@, content: c },
            FormPartV::Text {
                name: "n"@,
                value: vstd::utf8::decode_utf8(crate::json::int_lit(param@.n as int)),
            },
            FormPartV::Text { name: "size"@, value: spec_size_str(param@.size) },
            FormPartV::Text { name: "user"@, value: param@.user },
        ]);
    }
    MultipartForm { parts }
}

// ---------------------------------------------------------------------------
// Builders.  Every required field is taken at construction, so finishing
// a builder cannot fail; `build` keeps the fallible signature its callers
// expect.
// ---------------------------------------------------------------------------

/// Builds a [`ChatMessage`].
#[derive(Debug, Clone)]
pub struct ChatMessageBuilder {
    pub param: ChatMessage,
}

impl ChatMessageBuilder {
    pub fn new(role: ChatRole, content: &str) -> (r: ChatMessageBuilder)
        ensures
            r.param@.role == role,
            r.param@.content == content@,
            r.param@.name is None,
    {
        ChatMessageBuilder {
            param: ChatMessage { role, content: String::from_str(content), name: None },
        }
    }

    /// Names the author of the message.
    pub fn name(self, name: &str) -> (r: ChatMessageBuilder)
        ensures
            r.param@ == (ChatMessageV { name: Some(name@), ..self.param@ }),
    {
        ChatMessageBuilder {
            param: ChatMessage { name: Some(String::from_str(name)), ..self.param },
        }
    }

    /// Finishes the message; every field has a value, so this cannot
    /// fail.
    pub fn build(self) -> (r: Result<ChatMessage, crate::error::Error>)
        ensures
            r matches Ok(m) && m@ == self.param@,
    {
        Ok(self.param)
    }
}

/// Builds a [`ChatParam`].
#[derive(Debug, Clone)]
pub struct ChatParamBuilder {
    pub param: ChatParam,
}

impl ChatParamBuilder {
    pub fn new(model: &str, messages: Vec<ChatMessage>) -> (r: ChatParamBuilder)
        ensures
            r.param@.model == model@,
            r.param@.messages == views_of(messages@),
            r.param@.frequency_penalty is None,
            r.param@.max_tokens is None,
            r.param@.n is None,
            r.param@.presence_penalty is None,
            r.param@.seed is None,
            r.param@.stop is None,
            !r.param@.stream,
            r.param@.temperature is None,
            r.param@.top_p is None,
            r.param@.user is None,
    {
        ChatParamBuilder {
            param: ChatParam {
                messages,
                model: String::from_str(model),
                frequency_penalty: None,
                max_tokens: None,
                n: None,
                presence_penalty: None,
                seed: None,
                stop: None,
                stream: false,
                temperature: None,
                top_p: None,
                user: None,
            },
        }
    }

    /// Caps the number of generated tokens.
    pub fn max_tokens(self, max_tokens: u32) -> (r: ChatParamBuilder)
        ensures
            r.param@ == (ChatParamV { max_tokens: Some(max_tokens), ..self.param@ }),
    {
        ChatParamBuilder { param: ChatParam { max_tokens: Some(max_tokens), ..self.param } }
    }

    /// Asks for a streamed response.
    pub fn stream(self, stream: bool) -> (r: ChatParamBuilder)
        ensures
            r.param@ == (ChatParamV { stream, ..self.param@ }),
    {
        ChatParamBuilder { param: ChatParam { stream, ..self.param } }
    }

    pub fn build(self) -> (r: Result<ChatParam, crate::error::Error>)
        ensures
            r matches Ok(p) && p@ == self.param@,
    {
        Ok(self.param)
    }
}

/// Builds a [`CompletionParam`].
#[derive(Debug, Clone)]
pub struct CompletionParamBuilder {
    pub param: CompletionParam,
}

impl CompletionParamBuilder {
    pub fn new(model: &str) -> (r: CompletionParamBuilder)
        ensures
            r.param@.model == model@,
            r.param@.prompt is None,
            !r.param@.stream,
            !r.param@.echo,
    {
        CompletionParamBuilder {
            param: CompletionParam {
                model: String::from_str(model),
                prompt: None,
                suffix: None,
                max_tokens: None,
                temperature: None,
                top_p: None,
                n: None,
                stream: false,
                logprobs: None,
                echo: false,
                stop: None,
                presence_penalty: None,
                frequency_penalty: None,
                best_of: None,
                user: None,
            },
        }
    }

    /// Sets the prompts to complete.
    pub fn prompt(self, prompt: Vec<String>) -> (r: CompletionParamBuilder)
        ensures
            r.param@ == (CompletionParamV { prompt: Some(views_of(prompt@)), ..self.param@ }),
    {
        CompletionParamBuilder {
            param: CompletionParam { prompt: Some(prompt), ..self.param },
        }
    }

    /// Sets the sampling temperature, as its literal text.
    pub fn temperature(self, temperature: Number) -> (r: CompletionParamBuilder)
        ensures
            r.param@ == (CompletionParamV { temperature: Some(temperature@), ..self.param@ }),
    {
        CompletionParamBuilder {
            param: CompletionParam { temperature: Some(temperature), ..self.param },
        }
    }

    pub fn build(self) -> (r: Result<CompletionParam, crate::error::Error>)
        ensures
            r matches Ok(p) && p@ == self.param@,
    {
        Ok(self.param)
    }
}

/// Builds an [`EditParam`].
#[derive(Debug, Clone)]
pub struct EditParamBuilder {
    pub param: EditParam,
}

impl EditParamBuilder {
    pub fn new(model: &str, instruction: &str) -> (r: EditParamBuilder)
        ensures
            r.param@.model == model@,
            r.param@.instruction == instruction@,
            r.param@.input is None,
    {
        EditParamBuilder {
            param: EditParam {
                model: String::from_str(model),
                instruction: String::from_str(instruction),
                input: None,
                n: None,
                temperature: None,
                top_p: None,
            },
        }
    }

    /// Sets the text to edit.
    pub fn input(self, input: &str) -> (r: EditParamBuilder)
        ensures
            r.param@ == (EditParamV { input: Some(input@), ..self.param@ }),
    {
        EditParamBuilder { param: EditParam { input: Some(String::from_str(input)), ..self.param } }
    }

    pub fn build(self) -> (r: Result<EditParam, crate::error::Error>)
        ensures
            r matches Ok(p) && p@ == self.param@,
    {
        Ok(self.param)
    }
}

/// Builds an [`EmbeddingParam`].
#[derive(Debug, Clone)]
pub struct EmbeddingParamBuilder {
    pub param: EmbeddingParam,
}

impl EmbeddingParamBuilder {
    pub fn new(model: &str, input: &str) -> (r: EmbeddingParamBuilder)
        ensures
            r.param@.model == model@,
            r.param@.input == input@,
            r.param@.user is None,
    {
        EmbeddingParamBuilder {
            param: EmbeddingParam {
                model: String::from_str(model),
                input: String::from_str(input),
                user: None,
            },
        }
    }

    /// Tags the request with an end-user identifier.
    pub fn user(self, user: &str) -> (r: EmbeddingParamBuilder)
        ensures
            r.param@ == (EmbeddingParamV { user: Some(user@), ..self.param@ }),
    {
        EmbeddingParamBuilder {
            param: EmbeddingParam { user: Some(String::from_str(user)), ..self.param },
        }
    }

    pub fn build(self) -> (r: Result<EmbeddingParam, crate::error::Error>)
        ensures
            r matches Ok(p) && p@ == self.param@,
    {
        Ok(self.param)
    }
}

/// Builds a [`CreateFineTuneParam`].
#[derive(Debug, Clone)]
pub struct CreateFineTuneParamBuilder {
    pub param: CreateFineTuneParam,
}

impl CreateFineTuneParamBuilder {
    pub fn new(training_file: &str) -> (r: CreateFineTuneParamBuilder)
        ensures
            r.param@.training_file == training_file@,
            r.param@.validation_file is None,
            r.param@.model is None,
    {
        CreateFineTuneParamBuilder {
            param: CreateFineTuneParam {
                training_file: String::from_str(training_file),
                validation_file: None,
                model: None,
                n_epochs: None,
                batch_size: None,
                learning_rate_multiplier: None,
                prompt_loss_weight: None,
                compute_classification_metrics: None,
                classification_n_classes: None,
                classification_positive_class: None,
                classification_betas: None,
                suffix: None,
            },
        }
    }

    /// Names the base model to tune.
    pub fn model(self, model: &str) -> (r: CreateFineTuneParamBuilder)
        ensures
            r.param@ == (CreateFineTuneParamV { model: Some(model@), ..self.param@ }),
    {
        CreateFineTuneParamBuilder {
            param: CreateFineTuneParam { model: Some(String::from_str(model)), ..self.param },
        }
    }

    pub fn build(self) -> (r: Result<CreateFineTuneParam, crate::error::Error>)
        ensures
            r matches Ok(p) && p@ == self.param@,
    {
        Ok(self.param)
    }
}

/// Builds a [`GenerateImageParam`].
#[derive(Debug, Clone)]
pub struct GenerateImageParamBuilder {
    pub param: GenerateImageParam,
}

impl GenerateImageParamBuilder {
    pub fn new(prompt: &str) -> (r: GenerateImageParamBuilder)
        ensures
            r.param@.prompt == prompt@,
            r.param@.n is None,
            r.param@.size is None,
            r.param@.user is None,
    {
        GenerateImageParamBuilder {
            param: GenerateImageParam {
                prompt: String::from_str(prompt),
                n: None,
                size: None,
                user: None,
            },
        }
    }

    /// Sets how many images to generate.
    pub fn n(self, n: u8) -> (r: GenerateImageParamBuilder)
        ensures
            r.param@ == (GenerateImageParamV { n: Some(n), ..self.param@ }),
    {
        GenerateImageParamBuilder { param: GenerateImageParam { n: Some(n), ..self.param } }
    }

    /// Sets the size of the generated images.
    pub fn size(self, size: ImageSize) -> (r: GenerateImageParamBuilder)
        ensures
            r.param@ == (GenerateImageParamV { size: Some(size), ..self.param@ }),
    {
        GenerateImageParamBuilder { param: GenerateImageParam { size: Some(size), ..self.param } }
    }

    pub fn build(self) -> (r: Result<GenerateImageParam, crate::error::Error>)
        ensures
            r matches Ok(p) && p@ == self.param@,
    {
        Ok(self.param)
    }
}

/// Builds an [`EditImageParam`].
#[derive(Debug, Clone)]
pub struct EditImageParamBuilder {
    pub param: EditImageParam,
}

impl EditImageParamBuilder {
    pub fn new(prompt: &str) -> (r: EditImageParamBuilder)
        ensures
            r.param@.prompt == prompt@,
            r.param@.n == 1u8,
            r.param@.size == ImageSize::S1024x1024,
    {
        EditImageParamBuilder {
            param: EditImageParam { prompt: String::from_str(prompt), ..EditImageParam::default() },
        }
    }

    pub fn build(self) -> (r: Result<EditImageParam, crate::error::Error>)
        ensures
            r matches Ok(p) && p@ == self.param@,
    {
        Ok(self.param)
    }
}

/// Builds a [`VariateImageParam`].
#[derive(Debug, Clone)]
pub struct VariateImageParamBuilder {
    pub param: VariateImageParam,
}

impl VariateImageParamBuilder {
    pub fn new() -> (r: VariateImageParamBuilder)
        ensures
            r.param@.n == 1u8,
            r.param@.size == ImageSize::S1024x1024,
    {
        VariateImageParamBuilder { param: VariateImageParam::default() }
    }

    pub fn build(self) -> (r: Result<VariateImageParam, crate::error::Error>)
        ensures
            r matches Ok(p) && p@ == self.param@,
    {
        Ok(self.param)
    }
}

/// Builds a [`ModerationParam`].
#[derive(Debug, Clone)]
pub struct ModerationParamBuilder {
    pub param: ModerationParam,
}

impl ModerationParamBuilder {
    pub fn new(input: &str) -> (r: ModerationParamBuilder)
        ensures
            r.param@.input == input@,
            r.param@.model is None,
    {
        ModerationParamBuilder {
            param: ModerationParam { model: None, input: String::from_str(input) },
        }
    }

    /// Names the moderation model to use.
    pub fn model(self, model: &str) -> (r: ModerationParamBuilder)
        ensures
            r.param@ == (ModerationParamV { model: Some(model@), ..self.param@ }),
    {
        ModerationParamBuilder {
            param: ModerationParam { model: Some(String::from_str(model)), ..self.param },
        }
    }

    pub fn build(self) -> (r: Result<ModerationParam, crate::error::Error>)
        ensures
            r matches Ok(p) && p@ == self.param@,
    {
        Ok(self.param)
    }
}

} // verus!
