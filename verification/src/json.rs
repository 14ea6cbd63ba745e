//! A JSON value model with a verified parser and serializer.
//!
//! Values are parsed from raw bytes.  Number literals are kept verbatim as
//! their byte text, so no floating point arithmetic happens anywhere in the
//! library; strings are decoded (escapes resolved) into `String`s.

use vstd::prelude::*;
use vstd::utf8::{valid_utf8, decode_utf8};

verus! {

broadcast use vstd::std_specs::vec::group_vec_axioms, vstd::seq::group_seq_axioms;

/// Mathematical model of a JSON value.
pub ghost enum JsonV {
    Null,
    Bool(bool),
    /// A number literal, kept as its byte text.
    Num(Seq<u8>),
    Str(Seq<char>),
    Arr(Seq<JsonV>),
    Obj(Seq<(Seq<char>, JsonV)>),
}

/// A JSON value.  Numbers carry their literal byte text; object entries
/// keep their textual order.
pub enum Json {
    Null,
    Bool(bool),
    Num(Vec<u8>),
    Str(String),
    Arr(Vec<Json>),
    Obj(Vec<(String, Json)>),
}

impl View for Json {
    type V = JsonV;

    open spec fn view(&self) -> JsonV
        decreases self,
    {
        match self {
            Json::Null => JsonV::Null,
            Json::Bool(b) => JsonV::Bool(*b),
            Json::Num(n) => JsonV::Num(n@),
            Json::Str(s) => JsonV::Str(s@),
            Json::Arr(items) => JsonV::Arr(arr_view(items@)),
            Json::Obj(entries) => JsonV::Obj(obj_view(entries@)),
        }
    }
}

/// The views of a sequence of JSON values, element by element.
pub open spec fn arr_view(items: Seq<Json>) -> Seq<JsonV>
    decreases items,
{
    if items.len() == 0 {
        Seq::empty()
    } else {
        seq![items[0]@] + arr_view(items.drop_first())
    }
}

/// The views of a sequence of object entries, element by element.
pub open spec fn obj_view(entries: Seq<(String, Json)>) -> Seq<(Seq<char>, JsonV)>
    decreases entries,
{
    if entries.len() == 0 {
        Seq::empty()
    } else {
        seq![(entries[0].0@, entries[0].1@)] + obj_view(entries.drop_first())
    }
}

pub proof fn lemma_arr_view(items: Seq<Json>)
    ensures
        arr_view(items).len() == items.len(),
        forall|i: int| 0 <= i < items.len() ==> arr_view(items)[i] == items[i]@,
    decreases items.len(),
{
    if items.len() > 0 {
        lemma_arr_view(items.drop_first());
        assert(arr_view(items) == seq![items[0]@] + arr_view(items.drop_first()));
        assert forall|i: int| 0 <= i < items.len() implies arr_view(items)[i] == items[i]@ by {
            if i > 0 {
                assert(arr_view(items)[i] == arr_view(items.drop_first())[i - 1]);
                assert(items.drop_first()[i - 1] == items[i]);
            }
        }
    }
}

pub proof fn lemma_obj_view(entries: Seq<(String, Json)>)
    ensures
        obj_view(entries).len() == entries.len(),
        forall|i: int| 0 <= i < entries.len() ==> obj_view(entries)[i] == (
            entries[i].0@,
            entries[i].1@,
        ),
    decreases entries.len(),
{
    if entries.len() > 0 {
        lemma_obj_view(entries.drop_first());
        assert(obj_view(entries) == seq![(entries[0].0@, entries[0].1@)] + obj_view(
            entries.drop_first(),
        ));
        assert forall|i: int| 0 <= i < entries.len() implies obj_view(entries)[i] == (
            entries[i].0@,
            entries[i].1@,
        ) by {
            if i > 0 {
                assert(obj_view(entries)[i] == obj_view(entries.drop_first())[i - 1]);
                assert(entries.drop_first()[i - 1] == entries[i]);
            }
        }
    }
}

pub proof fn lemma_arr_view_snoc(items: Seq<Json>, v: Json)
    ensures
        arr_view(items.push(v)) == arr_view(items) + seq![v@],
    decreases items.len(),
{
    if items.len() == 0 {
        assert(items.push(v).drop_first() =~= Seq::<Json>::empty());
        assert(items.push(v)[0] == v);
        assert(arr_view(Seq::<Json>::empty()) == Seq::<JsonV>::empty());
        assert(arr_view(items.push(v)) =~= arr_view(items) + seq![v@]);
    } else {
        lemma_arr_view_snoc(items.drop_first(), v);
        assert(items.push(v).drop_first() =~= items.drop_first().push(v));
        assert(items.push(v)[0] == items[0]);
        assert(seq![items[0]@] + (arr_view(items.drop_first()) + seq![v@]) =~= (seq![items[0]@]
            + arr_view(items.drop_first())) + seq![v@]);
    }
}

pub proof fn lemma_obj_view_snoc(entries: Seq<(String, Json)>, k: String, v: Json)
    ensures
        obj_view(entries.push((k, v))) == obj_view(entries) + seq![(k@, v@)],
    decreases entries.len(),
{
    if entries.len() == 0 {
        assert(entries.push((k, v)).drop_first() =~= Seq::<(String, Json)>::empty());
        assert(entries.push((k, v))[0] == (k, v));
        assert(obj_view(Seq::<(String, Json)>::empty()) == Seq::<(Seq<char>, JsonV)>::empty());
        assert(obj_view(entries.push((k, v))) =~= obj_view(entries) + seq![(k@, v@)]);
    } else {
        lemma_obj_view_snoc(entries.drop_first(), k, v);
        assert(entries.push((k, v)).drop_first() =~= entries.drop_first().push((k, v)));
        assert(entries.push((k, v))[0] == entries[0]);
        assert(seq![(entries[0].0@, entries[0].1@)] + (obj_view(entries.drop_first()) + seq![
            (k@, v@),
        ]) =~= (seq![(entries[0].0@, entries[0].1@)] + obj_view(entries.drop_first())) + seq![
            (k@, v@),
        ]);
    }
}

// ---------------------------------------------------------------------------
// The grammar, as spec functions over the raw bytes.
//
// Every parsing function takes the whole input and a position; a successful
// parse returns the recognized value together with the position just after
// it.  Nesting of arrays and objects is bounded by a depth budget, as is
// common for JSON decoders; the budget is generous enough for any response
// this library handles.
// ---------------------------------------------------------------------------

/// Nesting depth budget of the parser.
pub const MAX_DEPTH: u32 = 128;

pub open spec fn is_ws(b: u8) -> bool {
    b == 32 || b == 9 || b == 10 || b == 13
}

pub open spec fn is_digit(b: u8) -> bool {
    48 <= b <= 57
}

pub open spec fn is_hex(b: u8) -> bool {
    is_digit(b) || (97 <= b <= 102) || (65 <= b <= 70)
}

pub open spec fn hex_val(b: u8) -> u32 {
    if is_digit(b) {
        (b - 48) as u32
    } else if 97 <= b <= 102 {
        (b - 87) as u32
    } else {
        (b - 55) as u32
    }
}

/// Remaining length from position `i`, never negative.
pub open spec fn rem(s: Seq<u8>, i: int) -> int {
    if 0 <= i <= s.len() {
        s.len() - i
    } else {
        0
    }
}

/// First position at or after `i` holding no whitespace.
pub open spec fn spec_skip_ws(s: Seq<u8>, i: int) -> int
    decreases rem(s, i),
{
    if 0 <= i < s.len() && is_ws(s[i]) {
        spec_skip_ws(s, i + 1)
    } else {
        i
    }
}


/// First position at or after `i` holding no decimal digit.
pub open spec fn spec_skip_digits(s: Seq<u8>, i: int) -> int
    decreases rem(s, i),
{
    if 0 <= i < s.len() && is_digit(s[i]) {
        spec_skip_digits(s, i + 1)
    } else {
        i
    }
}


/// End position of a number literal starting at `i`, if one starts there.
/// The grammar is the JSON one: an optional minus, an integer part without
/// a superfluous leading zero, an optional fraction, an optional exponent.
pub open spec fn spec_scan_number(s: Seq<u8>, i: int) -> Option<int> {
    let a = if 0 <= i < s.len() && s[i] == 45 {
        i + 1
    } else {
        i
    };
    if 0 <= a < s.len() && is_digit(s[a]) {
        let b = if s[a] == 48 {
            a + 1
        } else {
            spec_skip_digits(s, a)
        };
        let c = if b < s.len() && s[b] == 46 {
            if b + 1 < s.len() && is_digit(s[b + 1]) {
                Some(spec_skip_digits(s, b + 1))
            } else {
                None
            }
        } else {
            Some(b)
        };
        match c {
            Some(c2) => if c2 < s.len() && (s[c2] == 101 || s[c2] == 69) {
                let d = if c2 + 1 < s.len() && (s[c2 + 1] == 43 || s[c2 + 1] == 45) {
                    c2 + 2
                } else {
                    c2 + 1
                };
                if d < s.len() && is_digit(s[d]) {
                    Some(spec_skip_digits(s, d))
                } else {
                    None
                }
            } else {
                Some(c2)
            },
            None => None,
        }
    } else {
        None
    }
}

/// The byte replacing a short escape, if the escaped letter is a valid one.
pub open spec fn esc_byte(e: u8) -> Option<u8> {
    if e == 34 {
        Some(34u8)
    } else if e == 92 {
        Some(92u8)
    } else if e == 47 {
        Some(47u8)
    } else if e == 98 {
        Some(8u8)
    } else if e == 102 {
        Some(12u8)
    } else if e == 110 {
        Some(10u8)
    } else if e == 114 {
        Some(13u8)
    } else if e == 116 {
        Some(9u8)
    } else {
        None
    }
}

/// UTF-8 encoding of a code point below 0x10000 that is not a surrogate.
pub open spec fn utf8_of_cp(cp: int) -> Seq<u8> {
    if cp < 0x80 {
        seq![cp as u8]
    } else if cp < 0x800 {
        seq![(0xC0 + cp / 0x40) as u8, (0x80 + cp % 0x40) as u8]
    } else {
        seq![(0xE0 + cp / 0x1000) as u8, (0x80 + (cp / 0x40) % 0x40) as u8, (0x80 + cp % 0x40) as u8]
    }
}

/// Scans the inside of a string literal from `i` (just after the opening
/// quote) to its closing quote.  Returns the position just after the
/// closing quote and the unescaped content bytes.
pub open spec fn spec_scan_string(s: Seq<u8>, i: int) -> Option<(int, Seq<u8>)>
    decreases rem(s, i),
{
    if 0 <= i < s.len() {
        let b = s[i];
        if b == 34 {
            Some((i + 1, Seq::empty()))
        } else if b == 92 {
            if i + 1 < s.len() {
                let e = s[i + 1];
                if e == 117 {
                    if i + 6 <= s.len() && is_hex(s[i + 2]) && is_hex(s[i + 3]) && is_hex(s[i + 4])
                        && is_hex(s[i + 5]) {
                        let cp = hex_val(s[i + 2]) * 0x1000 + hex_val(s[i + 3]) * 0x100 + hex_val(
                            s[i + 4],
                        ) * 0x10 + hex_val(s[i + 5]);
                        if cp < 0xD800 || cp > 0xDFFF {
                            match spec_scan_string(s, i + 6) {
                                Some((j, tail)) => Some((j, utf8_of_cp(cp) + tail)),
                                None => None,
                            }
                        } else {
                            None
                        }
                    } else {
                        None
                    }
                } else {
                    match esc_byte(e) {
                        Some(eb) => match spec_scan_string(s, i + 2) {
                            Some((j, tail)) => Some((j, seq![eb] + tail)),
                            None => None,
                        },
                        None => None,
                    }
                }
            } else {
                None
            }
        } else if b < 32 {
            None
        } else {
            match spec_scan_string(s, i + 1) {
                Some((j, tail)) => Some((j, seq![b] + tail)),
                None => None,
            }
        }
    } else {
        None
    }
}

pub proof fn lemma_scan_string(s: Seq<u8>, i: int)
    requires
        0 <= i,
    ensures
        spec_scan_string(s, i) matches Some((j, _)) ==> i < j <= s.len(),
    decreases rem(s, i),
{
    if 0 <= i < s.len() {
        let b = s[i];
        if b == 92 {
            if i + 1 < s.len() && s[i + 1] == 117 {
                lemma_scan_string(s, i + 6);
            } else {
                lemma_scan_string(s, i + 2);
            }
        } else if b != 34 && b >= 32 {
            lemma_scan_string(s, i + 1);
        }
    }
}

/// One parsed JSON value starting at `i` (leading whitespace allowed),
/// with the position just after it.  `d` bounds container nesting.
pub open spec fn spec_value(s: Seq<u8>, i: int, d: int) -> Option<(JsonV, int)>
    decreases d, rem(s, i), 0int,
{
    if d <= 0 {
        None
    } else {
        let p = spec_skip_ws(s, i);
        if 0 <= p < s.len() {
            let b = s[p];
            if b == 110 {
                if p + 4 <= s.len() && s[p + 1] == 117 && s[p + 2] == 108 && s[p + 3] == 108 {
                    Some((JsonV::Null, p + 4))
                } else {
                    None
                }
            } else if b == 116 {
                if p + 4 <= s.len() && s[p + 1] == 114 && s[p + 2] == 117 && s[p + 3] == 101 {
                    Some((JsonV::Bool(true), p + 4))
                } else {
                    None
                }
            } else if b == 102 {
                if p + 5 <= s.len() && s[p + 1] == 97 && s[p + 2] == 108 && s[p + 3] == 115 && s[p
                    + 4] == 101 {
                    Some((JsonV::Bool(false), p + 5))
                } else {
                    None
                }
            } else if b == 34 {
                match spec_scan_string(s, p + 1) {
                    Some((j, content)) => if valid_utf8(content) {
                        Some((JsonV::Str(decode_utf8(content)), j))
                    } else {
                        None
                    },
                    None => None,
                }
            } else if b == 45 || is_digit(b) {
                match spec_scan_number(s, p) {
                    Some(j) => Some((JsonV::Num(s.subrange(p, j)), j)),
                    None => None,
                }
            } else if b == 91 {
                let q = spec_skip_ws(s, p + 1);
                if q < s.len() && s[q] == 93 {
                    Some((JsonV::Arr(Seq::empty()), q + 1))
                } else if p + 1 <= s.len() {
                    match spec_arr_items(s, p + 1, d - 1) {
                        Some((items, j)) => Some((JsonV::Arr(items), j)),
                        None => None,
                    }
                } else {
                    None
                }
            } else if b == 123 {
                let q = spec_skip_ws(s, p + 1);
                if q < s.len() && s[q] == 125 {
                    Some((JsonV::Obj(Seq::empty()), q + 1))
                } else if p + 1 <= s.len() {
                    match spec_obj_items(s, p + 1, d - 1) {
                        Some((entries, j)) => Some((JsonV::Obj(entries), j)),
                        None => None,
                    }
                } else {
                    None
                }
            } else {
                None
            }
        } else {
            None
        }
    }
}

/// One or more comma-separated array elements starting at `i`, consuming
/// the closing bracket.
pub open spec fn spec_arr_items(s: Seq<u8>, i: int, d: int) -> Option<(Seq<JsonV>, int)>
    decreases d, rem(s, i), 1int,
{
    if 0 <= i <= s.len() {
        match spec_value(s, i, d) {
            Some((v, j)) => {
                let q = spec_skip_ws(s, j);
                if 0 <= q < s.len() && s[q] == 44 {
                    if i < q + 1 {
                        match spec_arr_items(s, q + 1, d) {
                            Some((tail, j2)) => Some((seq![v] + tail, j2)),
                            None => None,
                        }
                    } else {
                        None
                    }
                } else if 0 <= q < s.len() && s[q] == 93 {
                    Some((seq![v], q + 1))
                } else {
                    None
                }
            },
            None => None,
        }
    } else {
        None
    }
}

/// One or more comma-separated `"key": value` entries starting at `i`,
/// consuming the closing brace.
pub open spec fn spec_obj_items(s: Seq<u8>, i: int, d: int) -> Option<
    (Seq<(Seq<char>, JsonV)>, int),
>
    decreases d, rem(s, i), 1int,
{
    if 0 <= i <= s.len() {
        let p = spec_skip_ws(s, i);
        if p < s.len() && s[p] == 34 {
            match spec_scan_string(s, p + 1) {
                Some((jk, kcontent)) => if valid_utf8(kcontent) {
                    let key = decode_utf8(kcontent);
                    let pc = spec_skip_ws(s, jk);
                    if pc < s.len() && s[pc] == 58 {
                        if i <= pc + 1 {
                            match spec_value(s, pc + 1, d) {
                                Some((v, j)) => {
                                    let q = spec_skip_ws(s, j);
                                    if 0 <= q < s.len() && s[q] == 44 {
                                        if i < q + 1 {
                                            match spec_obj_items(s, q + 1, d) {
                                                Some((tail, j2)) => Some(
                                                    (seq![(key, v)] + tail, j2),
                                                ),
                                                None => None,
                                            }
                                        } else {
                                            None
                                        }
                                    } else if 0 <= q < s.len() && s[q] == 125 {
                                        Some((seq![(key, v)], q + 1))
                                    } else {
                                        None
                                    }
                                },
                                None => None,
                            }
                        } else {
                            None
                        }
                    } else {
                        None
                    }
                } else {
                    None
                },
                None => None,
            }
        } else {
            None
        }
    } else {
        None
    }
}

/// A whole JSON document: one value surrounded by whitespace only.
pub open spec fn spec_parse_doc(s: Seq<u8>) -> Option<JsonV> {
    match spec_value(s, 0, MAX_DEPTH as int) {
        Some((v, j)) => if spec_skip_ws(s, j) == s.len() {
            Some(v)
        } else {
            None
        },
        None => None,
    }
}

// ---------------------------------------------------------------------------
// The executable parser.  Each function returns exactly what its spec
// counterpart describes.
// ---------------------------------------------------------------------------

/// Relies on String::from_utf8: it succeeds exactly on valid UTF-8 input
/// and yields the characters that input encodes.
#[verifier::external_body]
fn bytes_to_string(b: Vec<u8>) -> (r: Option<String>)
    ensures
        r is Some <==> valid_utf8(b@),
        r matches Some(s) ==> s@ == decode_utf8(b@),
{
    match String::from_utf8(b) {
        Ok(s) => Some(s),
        Err(_) => None,
    }
}

fn skip_ws(s: &[u8], i: usize) -> (r: usize)
    requires
        i <= s@.len(),
    ensures
        i <= r <= s@.len(),
        r as int == spec_skip_ws(s@, i as int),
{
    let mut p = i;
    while p < s.len() && (s[p] == 32 || s[p] == 9 || s[p] == 10 || s[p] == 13)
        invariant
            i <= p <= s@.len(),
            spec_skip_ws(s@, i as int) == spec_skip_ws(s@, p as int),
        decreases s@.len() - p,
    {
        p = p + 1;
    }
    p
}

fn skip_digits(s: &[u8], i: usize) -> (r: usize)
    requires
        i <= s@.len(),
    ensures
        i <= r <= s@.len(),
        r as int == spec_skip_digits(s@, i as int),
{
    let mut p = i;
    while p < s.len() && 48 <= s[p] && s[p] <= 57
        invariant
            i <= p <= s@.len(),
            spec_skip_digits(s@, i as int) == spec_skip_digits(s@, p as int),
        decreases s@.len() - p,
    {
        p = p + 1;
    }
    p
}

fn scan_number(s: &[u8], i: usize) -> (r: Option<usize>)
    requires
        i <= s@.len(),
    ensures
        match r {
            Some(j) => spec_scan_number(s@, i as int) == Some(j as int) && i <= j <= s@.len(),
            None => spec_scan_number(s@, i as int) is None,
        },
{
    let a = if i < s.len() && s[i] == 45 {
        i + 1
    } else {
        i
    };
    if a < s.len() && 48 <= s[a] && s[a] <= 57 {
        let b = if s[a] == 48 {
            a + 1
        } else {
            skip_digits(s, a)
        };
        let c = if b < s.len() && s[b] == 46 {
            if b + 1 < s.len() && 48 <= s[b + 1] && s[b + 1] <= 57 {
                Some(skip_digits(s, b + 1))
            } else {
                None
            }
        } else {
            Some(b)
        };
        match c {
            Some(c2) => if c2 < s.len() && (s[c2] == 101 || s[c2] == 69) {
                let d = if c2 + 1 < s.len() && (s[c2 + 1] == 43 || s[c2 + 1] == 45) {
                    c2 + 2
                } else {
                    c2 + 1
                };
                if d < s.len() && 48 <= s[d] && s[d] <= 57 {
                    Some(skip_digits(s, d))
                } else {
                    None
                }
            } else {
                Some(c2)
            },
            None => None,
        }
    } else {
        None
    }
}

fn hexv(b: u8) -> (r: u32)
    requires
        is_hex(b),
    ensures
        r == hex_val(b),
        r <= 15,
{
    if 48 <= b && b <= 57 {
        (b - 48) as u32
    } else if 97 <= b && b <= 102 {
        (b - 87) as u32
    } else {
        (b - 55) as u32
    }
}

fn is_hex_x(b: u8) -> (r: bool)
    ensures
        r == is_hex(b),
{
    (48 <= b && b <= 57) || (97 <= b && b <= 102) || (65 <= b && b <= 70)
}

/// Copies `s[from..to]` into a fresh vector.
pub fn copy_range(s: &[u8], from: usize, to: usize) -> (r: Vec<u8>)
    requires
        from <= to <= s@.len(),
    ensures
        r@ == s@.subrange(from as int, to as int),
{
    let mut out: Vec<u8> = Vec::new();
    let mut k = from;
    while k < to
        invariant
            from <= k <= to <= s@.len(),
            out@ == s@.subrange(from as int, k as int),
        decreases to - k,
    {
        out.push(s[k]);
        proof {
            assert(s@.subrange(from as int, k as int).push(s@[k as int]) =~= s@.subrange(
                from as int,
                k + 1,
            ));
        }
        k = k + 1;
    }
    out
}

#[verifier::rlimit(60)]
fn scan_string(s: &[u8], i: usize) -> (r: Option<(usize, Vec<u8>)>)
    requires
        i <= s@.len(),
    ensures
        match r {
            Some((j, content)) => spec_scan_string(s@, i as int) == Some((j as int, content@))
                && j <= s@.len(),
            None => spec_scan_string(s@, i as int) is None,
        },
{
    let mut p = i;
    let mut acc: Vec<u8> = Vec::new();
    proof {
        lemma_scan_string(s@, i as int);
        if let Some((j, tail)) = spec_scan_string(s@, i as int) {
            assert(Seq::<u8>::empty() + tail =~= tail);
        }
    }
    loop
        invariant
            i <= p <= s@.len(),
            match spec_scan_string(s@, p as int) {
                Some((j, tail)) => spec_scan_string(s@, i as int) == Some((j, acc@ + tail)) && p
                    < j,
                None => spec_scan_string(s@, i as int) is None,
            },
        decreases s@.len() - p,
    {
        proof {
            lemma_scan_string(s@, p as int);
        }
        if p == s.len() {
            return None;
        }
        let b = s[p];
        if b == 34 {
            proof {
                assert(acc@ + Seq::<u8>::empty() =~= acc@);
            }
            return Some((p + 1, acc));
        } else if b == 92 {
            if p + 1 >= s.len() {
                return None;
            }
            let e = s[p + 1];
            if e == 117 {
                if !(s.len() - p >= 6 && is_hex_x(s[p + 2]) && is_hex_x(s[p + 3]) && is_hex_x(
                    s[p + 4],
                ) && is_hex_x(s[p + 5])) {
                    return None;
                }
                let cp: u32 = hexv(s[p + 2]) * 0x1000 + hexv(s[p + 3]) * 0x100 + hexv(s[p + 4])
                    * 0x10 + hexv(s[p + 5]);
                if 0xD800 <= cp && cp <= 0xDFFF {
                    return None;
                }
                let ghost acc0 = acc@;
                if cp < 0x80 {
                    acc.push(cp as u8);
                } else if cp < 0x800 {
                    acc.push((0xC0 + cp / 0x40) as u8);
                    acc.push((0x80 + cp % 0x40) as u8);
                } else {
                    acc.push((0xE0 + cp / 0x1000) as u8);
                    acc.push((0x80 + (cp / 0x40) % 0x40) as u8);
                    acc.push((0x80 + cp % 0x40) as u8);
                }
                proof {
                    assert(acc@ =~= acc0 + utf8_of_cp(cp as int));
                    lemma_scan_string(s@, p + 6);
                    if let Some((j, tail)) = spec_scan_string(s@, p + 6) {
                        assert(spec_scan_string(s@, p as int) == Some(
                            (j, utf8_of_cp(cp as int) + tail),
                        ));
                        assert(acc0 + (utf8_of_cp(cp as int) + tail) =~= acc@ + tail);
                    } else {
                        assert(spec_scan_string(s@, p as int) is None);
                    }
                }
                p = p + 6;
            } else {
                let eb: u8;
                if e == 34 {
                    eb = 34;
                } else if e == 92 {
                    eb = 92;
                } else if e == 47 {
                    eb = 47;
                } else if e == 98 {
                    eb = 8;
                } else if e == 102 {
                    eb = 12;
                } else if e == 110 {
                    eb = 10;
                } else if e == 114 {
                    eb = 13;
                } else if e == 116 {
                    eb = 9;
                } else {
                    return None;
                }
                let ghost acc0 = acc@;
                acc.push(eb);
                proof {
                    lemma_scan_string(s@, p + 2);
                    if let Some((j, tail)) = spec_scan_string(s@, p + 2) {
                        assert(spec_scan_string(s@, p as int) == Some((j, seq![eb] + tail)));
                        assert(acc0 + (seq![eb] + tail) =~= acc@ + tail);
                    } else {
                        assert(spec_scan_string(s@, p as int) is None);
                    }
                }
                p = p + 2;
            }
        } else if b < 32 {
            return None;
        } else {
            let ghost acc0 = acc@;
            acc.push(b);
            proof {
                lemma_scan_string(s@, p + 1);
                if let Some((j, tail)) = spec_scan_string(s@, p + 1) {
                    assert(spec_scan_string(s@, p as int) == Some((j, seq![b] + tail)));
                    assert(acc0 + (seq![b] + tail) =~= acc@ + tail);
                } else {
                    assert(spec_scan_string(s@, p as int) is None);
                }
            }
            p = p + 1;
        }
    }
}

proof fn lemma_arr_view_cons(v: Json, tail: Seq<Json>)
    ensures
        arr_view(seq![v] + tail) == seq![v@] + arr_view(tail),
{
    assert((seq![v] + tail).drop_first() =~= tail);
    assert(arr_view(seq![v] + tail) =~= seq![v@] + arr_view(tail));
}

proof fn lemma_arr_view_singleton(v: Json)
    ensures
        arr_view(seq![v]) == seq![v@],
{
    assert(seq![v].drop_first() =~= Seq::<Json>::empty());
    assert(arr_view(Seq::<Json>::empty()) == Seq::<JsonV>::empty());
    assert(arr_view(seq![v]) =~= seq![v@]);
}

proof fn lemma_obj_view_cons(k: String, v: Json, tail: Seq<(String, Json)>)
    ensures
        obj_view(seq![(k, v)] + tail) == seq![(k@, v@)] + obj_view(tail),
{
    assert((seq![(k, v)] + tail).drop_first() =~= tail);
    assert(obj_view(seq![(k, v)] + tail) =~= seq![(k@, v@)] + obj_view(tail));
}

proof fn lemma_obj_view_singleton(k: String, v: Json)
    ensures
        obj_view(seq![(k, v)]) == seq![(k@, v@)],
{
    assert(seq![(k, v)].drop_first() =~= Seq::<(String, Json)>::empty());
    assert(obj_view(Seq::<(String, Json)>::empty()) == Seq::<(Seq<char>, JsonV)>::empty());
    assert(obj_view(seq![(k, v)]) =~= seq![(k@, v@)]);
}

#[verifier::rlimit(80)]
fn parse_value(s: &[u8], i: usize, d: u32) -> (r: Option<(Json, usize)>)
    requires
        i <= s@.len(),
    ensures
        match r {
            Some((v, j)) => spec_value(s@, i as int, d as int) == Some((v@, j as int)) && j
                <= s@.len(),
            None => spec_value(s@, i as int, d as int) is None,
        },
    decreases d, s@.len() - i, 0int,
{
    if d == 0 {
        return None;
    }
    let p = skip_ws(s, i);
    if p >= s.len() {
        return None;
    }
    let b = s[p];
    if b == 110 {
        if s.len() - p >= 4 && s[p + 1] == 117 && s[p + 2] == 108 && s[p + 3] == 108 {
            Some((Json::Null, p + 4))
        } else {
            None
        }
    } else if b == 116 {
        if s.len() - p >= 4 && s[p + 1] == 114 && s[p + 2] == 117 && s[p + 3] == 101 {
            Some((Json::Bool(true), p + 4))
        } else {
            None
        }
    } else if b == 102 {
        if s.len() - p >= 5 && s[p + 1] == 97 && s[p + 2] == 108 && s[p + 3] == 115 && s[p + 4]
            == 101 {
            Some((Json::Bool(false), p + 5))
        } else {
            None
        }
    } else if b == 34 {
        match scan_string(s, p + 1) {
            Some((j, content)) => {
                let ghost c = content@;
                match bytes_to_string(content) {
                    Some(st) => Some((Json::Str(st), j)),
                    None => None,
                }
            },
            None => None,
        }
    } else if b == 45 || (48 <= b && b <= 57) {
        match scan_number(s, p) {
            Some(j) => {
                let tok = copy_range(s, p, j);
                Some((Json::Num(tok), j))
            },
            None => None,
        }
    } else if b == 91 {
        let q = skip_ws(s, p + 1);
        if q < s.len() && s[q] == 93 {
            let items: Vec<Json> = Vec::new();
            proof {
                assert(arr_view(items@) =~= Seq::<JsonV>::empty());
            }
            Some((Json::Arr(items), q + 1))
        } else {
            match parse_arr_items(s, p + 1, d - 1) {
                Some((items, j)) => Some((Json::Arr(items), j)),
                None => None,
            }
        }
    } else if b == 123 {
        let q = skip_ws(s, p + 1);
        if q < s.len() && s[q] == 125 {
            let entries: Vec<(String, Json)> = Vec::new();
            proof {
                assert(obj_view(entries@) =~= Seq::<(Seq<char>, JsonV)>::empty());
            }
            Some((Json::Obj(entries), q + 1))
        } else {
            match parse_obj_items(s, p + 1, d - 1) {
                Some((entries, j)) => Some((Json::Obj(entries), j)),
                None => None,
            }
        }
    } else {
        None
    }
}

#[verifier::rlimit(80)]
fn parse_arr_items(s: &[u8], i: usize, d: u32) -> (r: Option<(Vec<Json>, usize)>)
    requires
        i <= s@.len(),
    ensures
        match r {
            Some((items, j)) => spec_arr_items(s@, i as int, d as int) == Some(
                (arr_view(items@), j as int),
            ) && j <= s@.len(),
            None => spec_arr_items(s@, i as int, d as int) is None,
        },
    decreases d, s@.len() - i, 1int,
{
    match parse_value(s, i, d) {
        Some((v, j)) => {
            let q = skip_ws(s, j);
            if q < s.len() && s[q] == 44 {
                if i < q + 1 {
                    match parse_arr_items(s, q + 1, d) {
                        Some((mut tail, j2)) => {
                            let ghost tail0 = tail@;
                            let ghost v0 = v;
                            proof {
                                lemma_arr_view_cons(v0, tail0);
                            }
                            tail.insert(0, v);
                            proof {
                                assert(tail@ =~= seq![v0] + tail0);
                            }
                            Some((tail, j2))
                        },
                        None => None,
                    }
                } else {
                    None
                }
            } else if q < s.len() && s[q] == 93 {
                let ghost v0 = v;
                proof {
                    lemma_arr_view_singleton(v0);
                }
                let mut items: Vec<Json> = Vec::new();
                items.push(v);
                proof {
                    assert(items@ =~= seq![v0]);
                }
                Some((items, q + 1))
            } else {
                None
            }
        },
        None => None,
    }
}

#[verifier::rlimit(100)]
fn parse_obj_items(s: &[u8], i: usize, d: u32) -> (r: Option<(Vec<(String, Json)>, usize)>)
    requires
        i <= s@.len(),
    ensures
        match r {
            Some((entries, j)) => spec_obj_items(s@, i as int, d as int) == Some(
                (obj_view(entries@), j as int),
            ) && j <= s@.len(),
            None => spec_obj_items(s@, i as int, d as int) is None,
        },
    decreases d, s@.len() - i, 1int,
{
    let p = skip_ws(s, i);
    if !(p < s.len() && s[p] == 34) {
        return None;
    }
    match scan_string(s, p + 1) {
        Some((jk, kcontent)) => {
            let ghost kc = kcontent@;
            match bytes_to_string(kcontent) {
                Some(key) => {
                    let pc = skip_ws(s, jk);
                    if !(pc < s.len() && s[pc] == 58) {
                        return None;
                    }
                    if !(i <= pc + 1) {
                        return None;
                    }
                    match parse_value(s, pc + 1, d) {
                        Some((v, j)) => {
                            let q = skip_ws(s, j);
                            if q < s.len() && s[q] == 44 {
                                if i < q + 1 {
                                    match parse_obj_items(s, q + 1, d) {
                                        Some((mut tail, j2)) => {
                                            let ghost tail0 = tail@;
                                            let ghost k0 = key;
                                            let ghost v0 = v;
                                            proof {
                                                lemma_obj_view_cons(k0, v0, tail0);
                                            }
                                            tail.insert(0, (key, v));
                                            proof {
                                                assert(tail@ =~= seq![(k0, v0)] + tail0);
                                            }
                                            Some((tail, j2))
                                        },
                                        None => None,
                                    }
                                } else {
                                    None
                                }
                            } else if q < s.len() && s[q] == 125 {
                                let ghost k0 = key;
                                let ghost v0 = v;
                                proof {
                                    lemma_obj_view_singleton(k0, v0);
                                }
                                let mut entries: Vec<(String, Json)> = Vec::new();
                                entries.push((key, v));
                                proof {
                                    assert(entries@ =~= seq![(k0, v0)]);
                                }
                                Some((entries, q + 1))
                            } else {
                                None
                            }
                        },
                        None => None,
                    }
                },
                None => None,
            }
        },
        None => None,
    }
}

// ---------------------------------------------------------------------------
// The serializer: spec first, then the executable writer.
// ---------------------------------------------------------------------------

/// Lower-case hex digit of a value below 16.
pub open spec fn hex_digit(v: u8) -> u8 {
    if v < 10 {
        (48 + v) as u8
    } else {
        (87 + v) as u8
    }
}

/// How one byte of string content is written inside a string literal.
pub open spec fn spec_esc_of(b: u8) -> Seq<u8> {
    if b == 34 {
        seq![92u8, 34u8]
    } else if b == 92 {
        seq![92u8, 92u8]
    } else if b == 10 {
        seq![92u8, 110u8]
    } else if b == 13 {
        seq![92u8, 114u8]
    } else if b == 9 {
        seq![92u8, 116u8]
    } else if b == 8 {
        seq![92u8, 98u8]
    } else if b == 12 {
        seq![92u8, 102u8]
    } else if b < 32 {
        seq![92u8, 117u8, 48u8, 48u8, hex_digit(b / 16), hex_digit(b % 16)]
    } else {
        seq![b]
    }
}

/// String content bytes, escaped for a string literal.
pub open spec fn spec_escape(bs: Seq<u8>) -> Seq<u8>
    decreases bs.len(),
{
    if bs.len() == 0 {
        Seq::empty()
    } else {
        spec_esc_of(bs[0]) + spec_escape(bs.drop_first())
    }
}

proof fn lemma_escape_snoc(bs: Seq<u8>, b: u8)
    ensures
        spec_escape(bs.push(b)) == spec_escape(bs) + spec_esc_of(b),
    decreases bs.len(),
{
    if bs.len() == 0 {
        assert(bs.push(b).drop_first() =~= Seq::<u8>::empty());
        assert(bs.push(b)[0] == b);
        assert(spec_escape(Seq::<u8>::empty()) == Seq::<u8>::empty());
        assert(spec_escape(bs.push(b)) =~= spec_escape(bs) + spec_esc_of(b));
    } else {
        lemma_escape_snoc(bs.drop_first(), b);
        assert(bs.push(b).drop_first() =~= bs.drop_first().push(b));
        assert(bs.push(b)[0] == bs[0]);
        assert(spec_esc_of(bs[0]) + (spec_escape(bs.drop_first()) + spec_esc_of(b)) =~= (spec_esc_of(
            bs[0],
        ) + spec_escape(bs.drop_first())) + spec_esc_of(b));
    }
}

/// The serialized bytes of a string value.
pub open spec fn spec_ser_str(s: Seq<char>) -> Seq<u8> {
    seq![34u8] + spec_escape(vstd::utf8::encode_utf8(s)) + seq![34u8]
}

/// The serialized bytes of a JSON value.
pub open spec fn spec_ser(v: JsonV) -> Seq<u8>
    decreases v, 0int,
{
    match v {
        JsonV::Null => seq![110u8, 117u8, 108u8, 108u8],
        JsonV::Bool(b) => if b {
            seq![116u8, 114u8, 117u8, 101u8]
        } else {
            seq![102u8, 97u8, 108u8, 115u8, 101u8]
        },
        JsonV::Num(n) => n,
        JsonV::Str(s) => spec_ser_str(s),
        JsonV::Arr(items) => seq![91u8] + spec_ser_items(items, 0) + seq![93u8],
        JsonV::Obj(entries) => seq![123u8] + spec_ser_entries(entries, 0) + seq![125u8],
    }
}

/// The serialized elements of an array from index `k` on, comma separated.
pub open spec fn spec_ser_items(items: Seq<JsonV>, k: int) -> Seq<u8>
    decreases items, items.len() - k,
{
    if k < 0 || k >= items.len() {
        Seq::empty()
    } else if k == items.len() - 1 {
        spec_ser(items[k])
    } else {
        spec_ser(items[k]) + seq![44u8] + spec_ser_items(items, k + 1)
    }
}

/// The serialized entries of an object from index `k` on, comma separated.
pub open spec fn spec_ser_entries(entries: Seq<(Seq<char>, JsonV)>, k: int) -> Seq<u8>
    decreases entries, entries.len() - k,
{
    if k < 0 || k >= entries.len() {
        Seq::empty()
    } else if k == entries.len() - 1 {
        spec_ser_str(entries[k].0) + seq![58u8] + spec_ser(entries[k].1)
    } else {
        spec_ser_str(entries[k].0) + seq![58u8] + spec_ser(entries[k].1) + seq![44u8]
            + spec_ser_entries(entries, k + 1)
    }
}

/// Appends the bytes of `b` to `out`.
pub fn push_bytes(out: &mut Vec<u8>, b: &[u8])
    ensures
        final(out)@ == old(out)@ + b@,
{
    let mut k: usize = 0;
    while k < b.len()
        invariant
            k <= b@.len(),
            out@ == old(out)@ + b@.subrange(0, k as int),
        decreases b@.len() - k,
    {
        out.push(b[k]);
        proof {
            assert(old(out)@ + b@.subrange(0, k as int).push(b@[k as int]) =~= old(out)@
                + b@.subrange(0, k + 1));
        }
        k = k + 1;
    }
    proof {
        assert(b@.subrange(0, b@.len() as int) =~= b@);
    }
}

/// Appends the escaped form of the string `s` (with its quotes) to `out`.
fn write_string(out: &mut Vec<u8>, s: &str)
    ensures
        final(out)@ == old(out)@ + spec_ser_str(s@),
{
    out.push(34);
    let b = s.as_bytes_vec();
    let ghost entry = out@;
    let mut k: usize = 0;
    while k < b.len()
        invariant
            k <= b@.len(),
            b@ == vstd::utf8::encode_utf8(s@),
            out@ == entry + spec_escape(b@.subrange(0, k as int)),
        decreases b@.len() - k,
    {
        let ghost pre = b@.subrange(0, k as int);
        let c = b[k];
        if c == 34 {
            out.push(92);
            out.push(34);
        } else if c == 92 {
            out.push(92);
            out.push(92);
        } else if c == 10 {
            out.push(92);
            out.push(110);
        } else if c == 13 {
            out.push(92);
            out.push(114);
        } else if c == 9 {
            out.push(92);
            out.push(116);
        } else if c == 8 {
            out.push(92);
            out.push(98);
        } else if c == 12 {
            out.push(92);
            out.push(102);
        } else if c < 32 {
            out.push(92);
            out.push(117);
            out.push(48);
            out.push(48);
            let hi = c / 16;
            let lo = c % 16;
            out.push(if hi < 10 { 48 + hi } else { 87 + hi });
            out.push(if lo < 10 { 48 + lo } else { 87 + lo });
        } else {
            out.push(c);
        }
        proof {
            lemma_escape_snoc(pre, b@[k as int]);
            assert(pre.push(b@[k as int]) =~= b@.subrange(0, k + 1));
            assert(out@ =~= entry + spec_escape(b@.subrange(0, k + 1)));
        }
        k = k + 1;
    }
    out.push(34);
    proof {
        assert(b@.subrange(0, b@.len() as int) =~= b@);
        assert(out@ =~= old(out)@ + spec_ser_str(s@));
    }
}

/// Appends the serialized bytes of `v` to `out`.
#[verifier::rlimit(80)]
fn write_json(v: &Json, out: &mut Vec<u8>)
    ensures
        final(out)@ == old(out)@ + spec_ser(v@),
    decreases v, 0int,
{
    match v {
        Json::Null => {
            out.push(110);
            out.push(117);
            out.push(108);
            out.push(108);
            proof {
                assert(out@ =~= old(out)@ + spec_ser(v@));
            }
        },
        Json::Bool(b) => {
            if *b {
                out.push(116);
                out.push(114);
                out.push(117);
                out.push(101);
            } else {
                out.push(102);
                out.push(97);
                out.push(108);
                out.push(115);
                out.push(101);
            }
            proof {
                assert(out@ =~= old(out)@ + spec_ser(v@));
            }
        },
        Json::Num(n) => {
            push_bytes(out, n.as_slice());
        },
        Json::Str(s) => {
            write_string(out, s.as_str());
        },
        Json::Arr(items) => {
            out.push(91);
            write_items(items, 0, out);
            out.push(93);
            proof {
                assert(out@ =~= old(out)@ + spec_ser(v@));
            }
        },
        Json::Obj(entries) => {
            out.push(123);
            write_entries(entries, 0, out);
            out.push(125);
            proof {
                assert(out@ =~= old(out)@ + spec_ser(v@));
            }
        },
    }
}

#[verifier::rlimit(80)]
fn write_items(items: &Vec<Json>, k: usize, out: &mut Vec<u8>)
    requires
        k <= items@.len(),
    ensures
        final(out)@ == old(out)@ + spec_ser_items(arr_view(items@), k as int),
    decreases items, items@.len() - k,
{
    proof {
        lemma_arr_view(items@);
    }
    if k >= items.len() {
        proof {
            assert(out@ =~= old(out)@ + spec_ser_items(arr_view(items@), k as int));
        }
        return ;
    }
    write_json(&items[k], out);
    if k + 1 < items.len() {
        out.push(44);
        write_items(items, k + 1, out);
        proof {
            assert(out@ =~= old(out)@ + spec_ser_items(arr_view(items@), k as int));
        }
    } else {
        proof {
            assert(out@ =~= old(out)@ + spec_ser_items(arr_view(items@), k as int));
        }
    }
}

#[verifier::rlimit(80)]
fn write_entries(entries: &Vec<(String, Json)>, k: usize, out: &mut Vec<u8>)
    requires
        k <= entries@.len(),
    ensures
        final(out)@ == old(out)@ + spec_ser_entries(obj_view(entries@), k as int),
    decreases entries, entries@.len() - k,
{
    proof {
        lemma_obj_view(entries@);
    }
    if k >= entries.len() {
        proof {
            assert(out@ =~= old(out)@ + spec_ser_entries(obj_view(entries@), k as int));
        }
        return ;
    }
    write_string(out, entries[k].0.as_str());
    out.push(58);
    write_json(&entries[k].1, out);
    if k + 1 < entries.len() {
        out.push(44);
        write_entries(entries, k + 1, out);
        proof {
            assert(out@ =~= old(out)@ + spec_ser_entries(obj_view(entries@), k as int));
        }
    } else {
        proof {
            assert(out@ =~= old(out)@ + spec_ser_entries(obj_view(entries@), k as int));
        }
    }
}

/// Serializes a JSON value to bytes.
pub fn json_to_bytes(v: &Json) -> (r: Vec<u8>)
    ensures
        r@ == spec_ser(v@),
{
    let mut out: Vec<u8> = Vec::new();
    write_json(v, &mut out);
    proof {
        assert(Seq::<u8>::empty() + spec_ser(v@) =~= spec_ser(v@));
    }
    out
}

// ---------------------------------------------------------------------------
// Decimal integers: the value of a digit string, reading it, writing it.
// ---------------------------------------------------------------------------

pub open spec fn all_digits(s: Seq<u8>) -> bool {
    forall|i: int| 0 <= i < s.len() ==> is_digit(#[trigger] s[i])
}

/// Value of a digit string, most significant digit first.
pub open spec fn digits_val(s: Seq<u8>) -> int
    decreases s.len(),
{
    if s.len() == 0 {
        0
    } else {
        digits_val(s.drop_last()) * 10 + (s.last() - 48)
    }
}

/// The integer a byte string denotes, if it is an optional minus sign
/// followed by one or more digits.
pub open spec fn dec_val(s: Seq<u8>) -> Option<int> {
    if s.len() >= 2 && s[0] == 45 && all_digits(s.skip(1)) {
        Some(-digits_val(s.skip(1)))
    } else if s.len() >= 1 && all_digits(s) {
        Some(digits_val(s))
    } else {
        None
    }
}

pub proof fn lemma_digits_val_nonneg(s: Seq<u8>)
    requires
        all_digits(s),
    ensures
        digits_val(s) >= 0,
    decreases s.len(),
{
    if s.len() > 0 {
        assert(all_digits(s.drop_last()));
        lemma_digits_val_nonneg(s.drop_last());
    }
}

pub proof fn lemma_digits_val_prefix_le(s: Seq<u8>, k: int)
    requires
        all_digits(s),
        0 <= k <= s.len(),
    ensures
        digits_val(s.subrange(0, k)) <= digits_val(s),
    decreases s.len(),
{
    if k == s.len() {
        assert(s.subrange(0, k) =~= s);
    } else {
        assert(all_digits(s.drop_last()));
        assert(s.subrange(0, k) =~= s.drop_last().subrange(0, k));
        lemma_digits_val_prefix_le(s.drop_last(), k);
        lemma_digits_val_nonneg(s.drop_last());
    }
}

/// Reads a decimal integer.  Fails exactly when the bytes are not an
/// integer literal or its value does not fit an `i64`.
pub fn parse_dec(b: &[u8]) -> (r: Option<i64>)
    ensures
        match r {
            Some(v) => dec_val(b@) == Some(v as int),
            None => dec_val(b@) matches Some(n) ==> (n < i64::MIN || n > i64::MAX),
        },
{
    let n = b.len();
    if n == 0 {
        return None;
    }
    let neg = b[0] == 45;
    let start: usize = if neg {
        1
    } else {
        0
    };
    if n == start {
        return None;
    }
    let limit: u64 = if neg {
        9223372036854775808u64
    } else {
        9223372036854775807u64
    };
    let ghost digs = b@.skip(start as int);
    let mut mag: u64 = 0;
    let mut k = start;
    while k < n
        invariant
            start <= k <= n,
            n == b@.len(),
            n >= start + 1,
            neg <==> b@[0] == 45,
            start == if neg {
                1int
            } else {
                0int
            },
            limit == if neg {
                9223372036854775808u64
            } else {
                9223372036854775807u64
            },
            digs == b@.skip(start as int),
            all_digits(digs.subrange(0, k - start)),
            mag as int == digits_val(digs.subrange(0, k - start)),
            mag <= limit,
        decreases n - k,
    {
        let c = b[k];
        if !(48 <= c && c <= 57) {
            proof {
                assert(!is_digit(digs[k - start]));
                if neg {
                    assert(!all_digits(b@.skip(1)));
                    assert(!is_digit(b@[0]));
                    assert(!all_digits(b@));
                } else {
                    assert(!all_digits(b@));
                }
            }
            return None;
        }
        let d = (c - 48) as u64;
        let ghost pre = digs.subrange(0, k - start);
        proof {
            assert(digs.subrange(0, k - start + 1).drop_last() =~= pre);
            assert(digs.subrange(0, k - start + 1).last() == digs[k - start]);
            assert(digs[k - start] == b@[k as int]);
        }
        if mag > (limit - d) / 10 {
            proof {
                assert(10 * (mag as int) + d as int > limit as int);
                assert(digits_val(digs.subrange(0, k - start + 1)) > limit as int);
                if dec_val(b@) is Some {
                    if neg {
                        assert(all_digits(digs));
                        lemma_digits_val_prefix_le(digs, k - start + 1);
                        assert(digits_val(digs) > limit as int);
                        assert(dec_val(b@) == Some(-digits_val(digs)));
                        assert(-digits_val(digs) < i64::MIN);
                    } else {
                        assert(b@[0] != 45);
                        assert(all_digits(b@));
                        assert(digs =~= b@);
                        lemma_digits_val_prefix_le(digs, k - start + 1);
                        assert(digits_val(digs) > limit as int);
                        assert(dec_val(b@) == Some(digits_val(digs)));
                    }
                }
            }
            return None;
        }
        mag = mag * 10 + d;
        k = k + 1;
        proof {
            assert(all_digits(digs.subrange(0, k - start)));
        }
    }
    proof {
        assert(digs.subrange(0, n - start) =~= digs);
        if neg {
            assert(dec_val(b@) == Some(-digits_val(digs)));
        } else {
            assert(b@[0] != 45);
            assert(digs =~= b@);
            assert(dec_val(b@) == Some(digits_val(digs)));
        }
    }
    if neg {
        if mag == 9223372036854775808u64 {
            Some(i64::MIN)
        } else {
            Some(-(mag as i64))
        }
    } else {
        Some(mag as i64)
    }
}

/// The canonical decimal literal of a nonnegative integer.
pub open spec fn int_lit(n: int) -> Seq<u8>
    decreases n,
{
    if n < 0 {
        Seq::empty()
    } else if n < 10 {
        seq![(48 + n) as u8]
    } else {
        int_lit(n / 10).push((48 + n % 10) as u8)
    }
}

/// Writes a nonnegative integer as its decimal digits.
pub fn u64_to_dec(n: u64) -> (r: Vec<u8>)
    ensures
        r@.len() >= 1,
        all_digits(r@),
        digits_val(r@) == n as int,
        dec_val(r@) == Some(n as int),
        r@ == int_lit(n as int),
    decreases n,
{
    if n < 10 {
        let mut v: Vec<u8> = Vec::new();
        v.push(48 + n as u8);
        proof {
            assert(v@.drop_last() =~= Seq::<u8>::empty());
            assert(v@.last() == 48 + n as u8);
            assert(digits_val(Seq::<u8>::empty()) == 0);
            assert(digits_val(v@) == n as int);
            assert(is_digit(v@[0]));
            assert(v@[0] != 45);
        }
        v
    } else {
        let mut v = u64_to_dec(n / 10);
        let ghost v0 = v@;
        v.push(48 + (n % 10) as u8);
        proof {
            assert(v@.drop_last() =~= v0);
            assert(v@.last() == 48 + (n % 10) as u8);
            assert(digits_val(v@) == digits_val(v0) * 10 + (n % 10) as int);
            assert(n as int == (n / 10) as int * 10 + (n % 10) as int);
            assert forall|i: int| 0 <= i < v@.len() implies is_digit(#[trigger] v@[i]) by {
                if i < v0.len() {
                    assert(v@[i] == v0[i]);
                    assert(is_digit(v0[i]));
                }
            }
            assert(is_digit(v0[0]));
            assert(v@[0] == v0[0]);
            assert(v@[0] != 45);
        }
        v
    }
}

/// Writes an integer as a decimal literal, with a minus sign if negative.
pub fn i64_to_dec(n: i64) -> (r: Vec<u8>)
    ensures
        dec_val(r@) == Some(n as int),
{
    if n >= 0 {
        u64_to_dec(n as u64)
    } else {
        let mag: u64 = if n == i64::MIN {
            9223372036854775808u64
        } else {
            (-n) as u64
        };
        let digits = u64_to_dec(mag);
        let ghost d0 = digits@;
        let mut out: Vec<u8> = Vec::new();
        out.push(45);
        push_bytes(&mut out, digits.as_slice());
        proof {
            assert(out@ =~= seq![45u8] + d0);
            assert(out@.skip(1) =~= d0);
            assert(out@[0] == 45);
            assert(out@.len() >= 2);
            assert(dec_val(out@) == Some(-digits_val(d0)));
        }
        out
    }
}

/// Bytes below 0x80 are valid UTF-8 and decode to themselves.
pub proof fn lemma_ascii_valid_utf8(s: Seq<u8>)
    requires
        forall|i: int| 0 <= i < s.len() ==> #[trigger] s[i] < 0x80,
    ensures
        valid_utf8(s),
        decode_utf8(s) == Seq::new(s.len(), |i: int| s[i] as char),
    decreases s.len(),
{
    if s.len() == 0 {
        assert(decode_utf8(s) =~= Seq::new(s.len(), |i: int| s[i] as char));
    } else {
        let b = s[0];
        assert(b < 0x80);
        assert(b & 0x7F == b) by (bit_vector)
            requires
                b < 0x80,
        ;
        assert(vstd::utf8::valid_first_scalar(s));
        assert(vstd::utf8::length_of_first_scalar(s) == 1);
        assert(vstd::utf8::pop_first_scalar(s) =~= s.skip(1));
        lemma_ascii_valid_utf8(s.skip(1));
        assert(vstd::utf8::decode_first_scalar(s) == b as u32);
        assert(decode_utf8(s) =~= Seq::new(s.len(), |i: int| s[i] as char));
    }
}

/// The decimal text of a nonnegative integer, as a string.
pub fn dec_string(n: u64) -> (r: String)
    ensures
        r@ == decode_utf8(int_lit(n as int)),
{
    let digits = u64_to_dec(n);
    proof {
        lemma_ascii_valid_utf8(digits@);
    }
    match bytes_to_string(digits) {
        Some(s) => s,
        None => String::new(),
    }
}

// ---------------------------------------------------------------------------
// Looking values up in objects.
// ---------------------------------------------------------------------------

/// Byte-for-byte equality of two slices.
pub fn bytes_eq(a: &[u8], b: &[u8]) -> (r: bool)
    ensures
        r == (a@ == b@),
{
    if a.len() != b.len() {
        proof {
            assert(a@.len() != b@.len());
        }
        return false;
    }
    let mut k: usize = 0;
    while k < a.len()
        invariant
            k <= a@.len(),
            a@.len() == b@.len(),
            forall|i: int| 0 <= i < k ==> a@[i] == b@[i],
        decreases a@.len() - k,
    {
        if a[k] != b[k] {
            return false;
        }
        k = k + 1;
    }
    proof {
        assert(a@ =~= b@);
    }
    true
}

/// Equality of two string slices, decided on their characters.
pub fn str_eq(a: &str, b: &str) -> (r: bool)
    ensures
        r == (a@ == b@),
{
    let r = bytes_eq(a.as_bytes(), b.as_bytes());
    proof {
        vstd::utf8::encode_utf8_decode_utf8(a@);
        vstd::utf8::encode_utf8_decode_utf8(b@);
    }
    r
}

/// The value under `key` among object entries from index `k` on; the first
/// entry with that key wins.
pub open spec fn jv_get_from(entries: Seq<(Seq<char>, JsonV)>, key: Seq<char>, k: int) -> Option<
    JsonV,
>
    decreases entries.len() - k,
{
    if k < 0 || k >= entries.len() {
        None
    } else if entries[k].0 == key {
        Some(entries[k].1)
    } else {
        jv_get_from(entries, key, k + 1)
    }
}

/// The value under `key` in an object's entries.
pub open spec fn jv_get(entries: Seq<(Seq<char>, JsonV)>, key: Seq<char>) -> Option<JsonV> {
    jv_get_from(entries, key, 0)
}

/// Looks a key up among an object's entries.
pub fn obj_get<'a>(entries: &'a Vec<(String, Json)>, key: &str) -> (r: Option<&'a Json>)
    ensures
        match r {
            Some(v) => jv_get(obj_view(entries@), key@) == Some(v@),
            None => jv_get(obj_view(entries@), key@) is None,
        },
{
    proof {
        lemma_obj_view(entries@);
    }
    let mut k: usize = 0;
    while k < entries.len()
        invariant
            k <= entries@.len(),
            obj_view(entries@).len() == entries@.len(),
            forall|i: int| 0 <= i < entries@.len() ==> #[trigger] obj_view(entries@)[i] == (
                entries@[i].0@,
                entries@[i].1@,
            ),
            jv_get(obj_view(entries@), key@) == jv_get_from(obj_view(entries@), key@, k as int),
        decreases entries@.len() - k,
    {
        if str_eq(entries[k].0.as_str(), key) {
            return Some(&entries[k].1);
        }
        k = k + 1;
    }
    None
}

/// Parses a whole JSON document from raw bytes.
pub fn parse_json(s: &[u8]) -> (r: Option<Json>)
    ensures
        match r {
            Some(v) => spec_parse_doc(s@) == Some(v@),
            None => spec_parse_doc(s@) is None,
        },
{
    match parse_value(s, 0, MAX_DEPTH) {
        Some((v, j)) => {
            let q = skip_ws(s, j);
            if q == s.len() {
                Some(v)
            } else {
                None
            }
        },
        None => None,
    }
}

} // verus!
