//! The trusted boundary to `serde_json`, which decodes the inline literal
//! payload of an atomic list, and the verified conversion of the decoded
//! document into a literal `Value`.

use vstd::prelude::*;
use vstd::string::StringExecFns;
use crate::ast::{LiteralV, view_literal, view_literals, lemma_view_literals};

verus! {

/// `serde_json`'s document value, opaque to the verifier.
#[verifier::external_type_specification]
#[verifier::external_body]
pub struct ExJsonValue(serde_json::Value);

/// The model of a decoded JSON document: what a `serde_json::Value` holds,
/// with numbers as their rendered text.
pub enum JsonV {
    Null,
    Bool(bool),
    Num(Seq<char>),
    Str(Seq<char>),
    Arr(Seq<JsonV>),
    Obj,
}

/// What a `serde_json::Value` holds.
pub uninterp spec fn json_model(v: serde_json::Value) -> JsonV;

/// What `serde_json` decodes a given text to, or nothing when the text is
/// not a JSON document.
pub uninterp spec fn json_parsed(s: Seq<char>) -> Option<JsonV>;

/// The variant of a decoded JSON value.
#[derive(Debug, Clone, Copy, PartialEq, Eq, Structural)]
pub enum JsonKind {
    Null,
    Bool,
    Num,
    Str,
    Arr,
    Obj,
}

/// The kind of a JSON model value.
pub open spec fn kind_of(j: JsonV) -> JsonKind {
    match j {
        JsonV::Null => JsonKind::Null,
        JsonV::Bool(_) => JsonKind::Bool,
        JsonV::Num(_) => JsonKind::Num,
        JsonV::Str(_) => JsonKind::Str,
        JsonV::Arr(_) => JsonKind::Arr,
        JsonV::Obj => JsonKind::Obj,
    }
}

/// Relies on `serde_json::from_str`: decodes a JSON document, or fails when
/// the text is not one.
#[verifier::external_body]
fn sj_parse(s: &str) -> (r: Option<serde_json::Value>)
    ensures
        match r {
            Option::Some(v) => json_parsed(s@) == Option::Some(json_model(v)),
            Option::None => json_parsed(s@) is None,
        },
{
    serde_json::from_str::<serde_json::Value>(s).ok()
}

/// Relies on `serde_json::Value`'s variants: reports which one this is.
#[verifier::external_body]
fn sj_kind(v: &serde_json::Value) -> (r: JsonKind)
    ensures
        r == kind_of(json_model(*v)),
{
    match v {
        serde_json::Value::Null => JsonKind::Null,
        serde_json::Value::Bool(_) => JsonKind::Bool,
        serde_json::Value::Number(_) => JsonKind::Num,
        serde_json::Value::String(_) => JsonKind::Str,
        serde_json::Value::Array(_) => JsonKind::Arr,
        serde_json::Value::Object(_) => JsonKind::Obj,
    }
}

/// Relies on `serde_json::Value::as_bool`: the boolean a `Bool` holds.
#[verifier::external_body]
fn sj_bool(v: &serde_json::Value) -> (r: bool)
    requires
        json_model(*v) is Bool,
    ensures
        json_model(*v) == JsonV::Bool(r),
{
    v.as_bool().unwrap_or(false)
}

/// Relies on `serde_json::Value::as_str`: the text a `String` holds.
#[verifier::external_body]
fn sj_str(v: &serde_json::Value) -> (r: String)
    requires
        json_model(*v) is Str,
    ensures
        json_model(*v) == JsonV::Str(r@),
{
    match v.as_str() {
        Some(s) => s.to_owned(),
        None => String::new(),
    }
}

/// Relies on `serde_json::Number`'s `Display`: the rendered text of the
/// number a `Number` holds, a function of the decoded value alone.
#[verifier::external_body]
fn sj_num_text(v: &serde_json::Value) -> (r: String)
    requires
        json_model(*v) is Num,
    ensures
        json_model(*v) == JsonV::Num(r@),
{
    match v.as_number() {
        Some(n) => format!("{}", n),
        None => String::new(),
    }
}

/// Relies on `serde_json::Value::as_array`: how many elements an `Array`
/// holds.
#[verifier::external_body]
fn sj_arr_len(v: &serde_json::Value) -> (r: usize)
    requires
        json_model(*v) is Arr,
    ensures
        json_model(*v)->Arr_0.len() == r,
{
    match v.as_array() {
        Some(a) => a.len(),
        None => 0,
    }
}

/// Relies on `serde_json::Value::as_array`: the element of an `Array` at a
/// given position.
#[verifier::external_body]
fn sj_arr_get<'a>(v: &'a serde_json::Value, i: usize) -> (r: &'a serde_json::Value)
    requires
        json_model(*v) is Arr,
        i < json_model(*v)->Arr_0.len(),
    ensures
        json_model(*r) == json_model(*v)->Arr_0[i as int],
{
    &v.as_array().unwrap()[i]
}

/// Converting one decoded JSON value into a literal `Value`: strings,
/// booleans, numbers and arrays carry over; objects and nulls are rejected
/// with the reason text.
pub open spec fn spec_json_to_value(j: JsonV) -> Result<LiteralV, Seq<char>>
    decreases j,
{
    match j {
        JsonV::Null => Result::Err("got null"@),
        JsonV::Bool(b) => Result::Ok(LiteralV::Bool(b)),
        JsonV::Num(t) => Result::Ok(LiteralV::Number(t)),
        JsonV::Str(s) => Result::Ok(LiteralV::Str(s)),
        JsonV::Arr(a) => match spec_jsons_to_values(a) {
            Result::Ok(vs) => Result::Ok(LiteralV::List(vs)),
            Result::Err(e) => Result::Err(e),
        },
        JsonV::Obj => Result::Err("got object"@),
    }
}

/// Converting a sequence of decoded JSON values, failing on the first one
/// that cannot carry over.
pub open spec fn spec_jsons_to_values(a: Seq<JsonV>) -> Result<Seq<LiteralV>, Seq<char>>
    decreases a,
{
    if a.len() == 0 {
        Result::Ok(Seq::empty())
    } else {
        match spec_json_to_value(a[0]) {
            Result::Err(e) => Result::Err(e),
            Result::Ok(v) => match spec_jsons_to_values(a.drop_first()) {
                Result::Err(e) => Result::Err(e),
                Result::Ok(rest) => Result::Ok(seq![v] + rest),
            },
        }
    }
}

/// Pointwise characterization of `spec_jsons_to_values`.
proof fn lemma_spec_jsons_to_values(a: Seq<JsonV>)
    ensures
        spec_jsons_to_values(a) is Ok <==> (forall|j: int|
            0 <= j < a.len() ==> spec_json_to_value(#[trigger] a[j]) is Ok),
        spec_jsons_to_values(a) matches Result::Ok(vs) ==> vs.len() == a.len() && forall|j: int|
            0 <= j < a.len() ==> spec_json_to_value(a[j]) == Result::<LiteralV, Seq<char>>::Ok(
                #[trigger] vs[j],
            ),
        spec_jsons_to_values(a) matches Result::Err(e) ==> exists|j: int|
            0 <= j < a.len() && spec_json_to_value(#[trigger] a[j]) == Result::<
                LiteralV,
                Seq<char>,
            >::Err(e) && (forall|k: int| 0 <= k < j ==> spec_json_to_value(#[trigger] a[k]) is Ok),
    decreases a,
{
    if a.len() > 0 {
        lemma_spec_jsons_to_values(a.drop_first());
        assert(forall|j: int| 0 < j < a.len() ==> a.drop_first()[j - 1] == a[j]);
        match spec_json_to_value(a[0]) {
            Result::Err(e) => {
                assert(spec_json_to_value(a[0]) == Result::<LiteralV, Seq<char>>::Err(e));
            },
            Result::Ok(v) => {
                match spec_jsons_to_values(a.drop_first()) {
                    Result::Err(e) => {
                        let j = choose|j: int|
                            0 <= j < a.drop_first().len() && spec_json_to_value(
                                #[trigger] a.drop_first()[j],
                            ) == Result::<LiteralV, Seq<char>>::Err(e) && (forall|k: int|
                                0 <= k < j ==> spec_json_to_value(
                                    #[trigger] a.drop_first()[k],
                                ) is Ok);
                        assert(a[j + 1] == a.drop_first()[j]);
                        assert forall|k: int| 0 <= k < j + 1 implies spec_json_to_value(
                            #[trigger] a[k],
                        ) is Ok by {
                            if k > 0 {
                                assert(a.drop_first()[k - 1] == a[k]);
                            }
                        }
                    },
                    Result::Ok(rest) => {
                        let vs = seq![v] + rest;
                        assert forall|j: int| 0 <= j < a.len() implies spec_json_to_value(a[j])
                            == Result::<LiteralV, Seq<char>>::Ok(#[trigger] vs[j]) by {
                            if j > 0 {
                                assert(vs[j] == rest[j - 1]);
                                assert(a.drop_first()[j - 1] == a[j]);
                            }
                        }
                    },
                }
            },
        }
    }
}

/// Converts one decoded JSON document into a literal `Value`.
fn json_to_value(v: &serde_json::Value) -> (r: Result<crate::ast::Literal, String>)
    ensures
        match r {
            Result::Ok(val) => spec_json_to_value(json_model(*v)) == Result::<
                LiteralV,
                Seq<char>,
            >::Ok(view_literal(val)),
            Result::Err(e) => spec_json_to_value(json_model(*v)) == Result::<
                LiteralV,
                Seq<char>,
            >::Err(e@),
        },
    decreases json_model(*v),
{
    let ghost j = json_model(*v);
    match sj_kind(v) {
        JsonKind::Null => Result::Err("got null".to_owned()),
        JsonKind::Bool => Result::Ok(crate::ast::Literal::Bool(sj_bool(v))),
        JsonKind::Num => Result::Ok(crate::ast::Literal::Number(sj_num_text(v))),
        JsonKind::Str => Result::Ok(crate::ast::Literal::String(sj_str(v))),
        JsonKind::Obj => Result::Err("got object".to_owned()),
        JsonKind::Arr => {
            let ghost arr = json_model(*v)->Arr_0;
            let n = sj_arr_len(v);
            let mut out: Vec<crate::ast::Literal> = Vec::new();
            let mut i: usize = 0;
            proof {
                lemma_spec_jsons_to_values(arr);
            }
            while i < n
                invariant
                    i <= n,
                    n == arr.len(),
                    json_model(*v) == JsonV::Arr(arr),
                    j == JsonV::Arr(arr),
                    out@.len() == i,
                    forall|k: int|
                        0 <= k < i ==> spec_json_to_value(#[trigger] arr[k]) == Result::<
                            LiteralV,
                            Seq<char>,
                        >::Ok(view_literal(out@[k])),
                decreases n - i,
            {
                let child = sj_arr_get(v, i);
                proof {
                    assert(decreases_to!(j => j->Arr_0));
                    assert(decreases_to!(arr => arr[i as int]));
                }
                match json_to_value(child) {
                    Result::Ok(val) => {
                        out.push(val);
                    },
                    Result::Err(e) => {
                        proof {
                            lemma_spec_jsons_to_values(arr);
                            assert(spec_json_to_value(arr[i as int]) == Result::<
                                LiteralV,
                                Seq<char>,
                            >::Err(e@));
                            if spec_jsons_to_values(arr) is Ok {
                                assert(spec_json_to_value(arr[i as int]) is Ok);
                            }
                            let bad = choose|jj: int|
                                0 <= jj < arr.len() && spec_json_to_value(#[trigger] arr[jj])
                                    == Result::<LiteralV, Seq<char>>::Err(
                                    spec_jsons_to_values(arr)->Err_0,
                                ) && (forall|k: int|
                                    0 <= k < jj ==> spec_json_to_value(#[trigger] arr[k]) is Ok);
                            if bad < i {
                                assert(spec_json_to_value(arr[bad]) is Ok);
                            }
                            if bad > i {
                                assert(spec_json_to_value(arr[i as int]) is Ok);
                            }
                            assert(bad == i);
                        }
                        return Result::Err(e);
                    },
                }
                i = i + 1;
            }
            proof {
                lemma_spec_jsons_to_values(arr);
                if spec_jsons_to_values(arr) is Err {
                    let ghost e0 = spec_jsons_to_values(arr)->Err_0;
                    let bad = choose|jj: int|
                        0 <= jj < arr.len() && spec_json_to_value(#[trigger] arr[jj]) == Result::<
                            LiteralV,
                            Seq<char>,
                        >::Err(e0) && (forall|k: int|
                            0 <= k < jj ==> spec_json_to_value(#[trigger] arr[k]) is Ok);
                    assert(spec_json_to_value(arr[bad]) is Ok);
                }
                let vs = spec_jsons_to_values(arr)->Ok_0;
                lemma_view_literals(out@);
                assert(view_literals(out@) =~= vs);
            }
            Result::Ok(crate::ast::Literal::List(out))
        },
    }
}

/// The bracketed form that an atomic payload is decoded through: the text
/// embedded in a one-element JSON array literal.
pub open spec fn bracketed(text: Seq<char>) -> Seq<char> {
    "["@ + text + "]"@
}

/// Decoding an atomic list payload: the bracketed text is decoded as a JSON
/// document and converted into literal values; the reason text of a failure
/// names the text that was rejected.
pub open spec fn spec_parse_atomic(text: Seq<char>) -> Result<LiteralV, Seq<char>> {
    match json_parsed(bracketed(text)) {
        Option::None => Result::Err("content was not json: "@ + bracketed(text)),
        Option::Some(j) => spec_json_to_value(j),
    }
}

/// Decodes the inline payload of an atomic list literal.
pub fn parse_atomic(text: &str) -> (r: Result<crate::ast::Literal, String>)
    ensures
        match r {
            Result::Ok(val) => spec_parse_atomic(text@) == Result::<LiteralV, Seq<char>>::Ok(
                view_literal(val),
            ),
            Result::Err(e) => spec_parse_atomic(text@) == Result::<LiteralV, Seq<char>>::Err(e@),
        },
{
    let mut s2 = "[".to_owned();
    s2.append(text);
    s2.append("]");
    assert(s2@ == bracketed(text@));
    match sj_parse(s2.as_str()) {
        Option::Some(v) => json_to_value(&v),
        Option::None => {
            let mut reason = "content was not json: ".to_owned();
            reason.append(s2.as_str());
            Result::Err(reason)
        },
    }
}

} // verus!
