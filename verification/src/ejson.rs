//! The EJSON encoder: BSON values to the JSON shape Meteor clients expect.
//!
//! The mapping is fixed per variant — binaries become `{"$binary": …}`,
//! datetimes `{"$date": …}`, object ids `{"$type":"oid","$value": …}`, and
//! so on — with documents keeping their key order and every unrecognized
//! variant collapsing to JSON null. `ejson_of` states the whole table;
//! `into_ejson` is proved to implement it.

use crate::json::{json_model, json_model_pairs, json_model_seq, JsonModel, JsonValue, HEX_LOWER};
use crate::value::{bson_model, bson_model_seq, BsonModel, BsonValue, DoubleModel, DoubleValue};
use vstd::prelude::*;

verus! {

/// The text that base64's standard alphabet, with padding, assigns to a byte
/// sequence.
pub uninterp spec fn base64_of(bytes: Seq<u8>) -> Seq<char>;

/// Relies on base64's `STANDARD` engine: `Engine::encode` returns the
/// standard-alphabet, padded encoding of the input bytes, four characters
/// per three input bytes. It panics when that length overflows `usize`, so
/// the precondition keeps such inputs out.
#[verifier::external_body]
fn base64_encode(bytes: &Vec<u8>) -> (r: String)
    requires
        4 * ((bytes@.len() + 2) / 3) <= usize::MAX,
    ensures
        r@ == base64_of(bytes@),
{
    base64::Engine::encode(&base64::engine::general_purpose::STANDARD, bytes)
}

/// The lowercase hexadecimal rendering of a byte sequence, two digits per
/// byte.
pub open spec fn hex_lower_of(bytes: Seq<u8>) -> Seq<char>
    decreases bytes,
{
    if bytes.len() == 0 {
        Seq::empty()
    } else {
        hex_lower_of(bytes.drop_last()) + seq![
            HEX_LOWER@[bytes.last() as int / 16],
            HEX_LOWER@[bytes.last() as int % 16],
        ]
    }
}

/// Renders bytes as lowercase hex, as object ids are printed.
pub fn hex_lower(bytes: &Vec<u8>) -> (r: String)
    ensures
        r@ == hex_lower_of(bytes@),
{
    let mut out = String::new();
    let mut i: usize = 0;
    while i < bytes.len()
        invariant
            i <= bytes@.len(),
            out@ == hex_lower_of(bytes@.take(i as int)),
        decreases bytes@.len() - i,
    {
        let b = bytes[i];
        crate::json::push_char(&mut out, HEX_LOWER[(b / 16) as usize]);
        crate::json::push_char(&mut out, HEX_LOWER[(b % 16) as usize]);
        proof {
            assert(bytes@.take(i + 1).drop_last() =~= bytes@.take(i as int));
            assert(out@ =~= hex_lower_of(bytes@.take(i + 1)));
        }
        i += 1;
    }
    proof {
        assert(bytes@.take(bytes@.len() as int) =~= bytes@);
    }
    out
}

/// The EJSON encoding of a BSON value: the fixed, order-preserving mapping
/// the bridge promises its subscribers.
pub open spec fn ejson_of(v: BsonModel) -> JsonModel
    decreases v,
{
    match v {
        BsonModel::Binary(b) => JsonModel::Obj(
            seq![("$binary"@, JsonModel::Text(base64_of(b)))],
        ),
        BsonModel::DateTime(ms) => JsonModel::Obj(seq![("$date"@, JsonModel::IntNum(ms))]),
        BsonModel::Decimal128(s) => JsonModel::Obj(
            seq![
                ("$type"@, JsonModel::Text("Decimal"@)),
                ("$value"@, JsonModel::Text(s)),
            ],
        ),
        BsonModel::Double(DoubleModel::Finite(s)) => JsonModel::RawNum(s),
        BsonModel::Double(DoubleModel::PosInfinity) => JsonModel::Obj(
            seq![("$InfNaN"@, JsonModel::RawNum("1.0"@))],
        ),
        BsonModel::Double(DoubleModel::NegInfinity) => JsonModel::Obj(
            seq![("$InfNaN"@, JsonModel::RawNum("-1.0"@))],
        ),
        BsonModel::Double(DoubleModel::NotANumber) => JsonModel::Obj(
            seq![("$InfNan"@, JsonModel::IntNum(0))],
        ),
        BsonModel::ObjectId(b) => JsonModel::Obj(
            seq![
                ("$type"@, JsonModel::Text("oid"@)),
                ("$value"@, JsonModel::Text(hex_lower_of(b))),
            ],
        ),
        BsonModel::Regex(p, o) => JsonModel::Obj(
            seq![("$regexp"@, JsonModel::Text(p)), ("$flags"@, JsonModel::Text(o))],
        ),
        BsonModel::Array(items) => JsonModel::Arr(ejson_seq(items)),
        BsonModel::Boolean(b) => JsonModel::Bool(b),
        BsonModel::Document(pairs) => JsonModel::Obj(ejson_pairs(pairs)),
        BsonModel::Int32(n) => JsonModel::IntNum(n),
        BsonModel::Int64(n) => JsonModel::IntNum(n),
        BsonModel::Null => JsonModel::Null,
        BsonModel::Text(s) => JsonModel::Text(s),
        BsonModel::Other => JsonModel::Null,
    }
}

/// Elementwise encoding of an array's items.
pub open spec fn ejson_seq(items: Seq<BsonModel>) -> Seq<JsonModel>
    decreases items,
{
    if items.len() == 0 {
        Seq::empty()
    } else {
        ejson_seq(items.drop_last()).push(ejson_of(items.last()))
    }
}

/// Elementwise encoding of a document's members; keys stay as they are.
pub open spec fn ejson_pairs(pairs: Seq<(Seq<char>, BsonModel)>) -> Seq<(Seq<char>, JsonModel)>
    decreases pairs,
{
    if pairs.len() == 0 {
        Seq::empty()
    } else {
        ejson_pairs(pairs.drop_last()).push((pairs.last().0, ejson_of(pairs.last().1)))
    }
}

/// `ejson_seq` maps the sequence pointwise.
pub proof fn lemma_ejson_seq(items: Seq<BsonModel>)
    ensures
        ejson_seq(items).len() == items.len(),
        forall|i: int| 0 <= i < items.len() ==> ejson_seq(items)[i] == ejson_of(items[i]),
    decreases items,
{
    if items.len() > 0 {
        lemma_ejson_seq(items.drop_last());
    }
}

/// `ejson_pairs` maps the sequence pointwise.
pub proof fn lemma_ejson_pairs(pairs: Seq<(Seq<char>, BsonModel)>)
    ensures
        ejson_pairs(pairs).len() == pairs.len(),
        forall|i: int| 0 <= i < pairs.len() ==> ejson_pairs(pairs)[i] == (
            pairs[i].0,
            ejson_of(pairs[i].1),
        ),
    decreases pairs,
{
    if pairs.len() > 0 {
        lemma_ejson_pairs(pairs.drop_last());
    }
}

/// Every binary payload in the value is small enough for its base64 text
/// length to fit in `usize` — a machine limit, not a rule of the protocol.
pub open spec fn binaries_fit(v: BsonModel) -> bool
    decreases v,
{
    match v {
        BsonModel::Binary(b) => 4 * ((b.len() + 2) / 3) <= usize::MAX,
        BsonModel::Array(items) => binaries_fit_seq(items),
        BsonModel::Document(pairs) => binaries_fit_pairs(pairs),
        _ => true,
    }
}

/// [`binaries_fit`] over a sequence of values.
pub open spec fn binaries_fit_seq(items: Seq<BsonModel>) -> bool
    decreases items,
{
    forall|i: int| 0 <= i < items.len() ==> binaries_fit(#[trigger] items[i])
}

/// [`binaries_fit`] over a document's members.
pub open spec fn binaries_fit_pairs(pairs: Seq<(Seq<char>, BsonModel)>) -> bool
    decreases pairs,
{
    forall|i: int| 0 <= i < pairs.len() ==> binaries_fit(#[trigger] pairs[i].1)
}

impl BsonValue {
    /// Encodes this value as EJSON: the mapping [`ejson_of`] states, applied
    /// to the whole tree.
    #[verifier::loop_isolation(false)]
    pub fn into_ejson(&self) -> (r: JsonValue)
        requires
            binaries_fit(bson_model(*self)),
        ensures
            json_model(r) == ejson_of(bson_model(*self)),
        decreases *self,
    {
        match self {
            BsonValue::Binary(b) => {
                let encoded = base64_encode(b);
                let mut members: Vec<(String, JsonValue)> = Vec::new();
                members.push((String::from_str("$binary"), JsonValue::Text(encoded)));
                proof {
                    json_model_pairs_singleton(members@);
                }
                JsonValue::Obj(members)
            },
            BsonValue::DateTime(ms) => {
                let mut members: Vec<(String, JsonValue)> = Vec::new();
                members.push((String::from_str("$date"), JsonValue::IntNum(*ms)));
                proof {
                    json_model_pairs_singleton(members@);
                }
                JsonValue::Obj(members)
            },
            BsonValue::Decimal128(s) => {
                let mut members: Vec<(String, JsonValue)> = Vec::new();
                members.push(
                    (String::from_str("$type"), JsonValue::Text(String::from_str("Decimal"))),
                );
                members.push((String::from_str("$value"), JsonValue::Text(s.clone())));
                proof {
                    json_model_pairs_two(members@);
                }
                JsonValue::Obj(members)
            },
            BsonValue::Double(d) => {
                match d {
                    DoubleValue::Finite(s) => JsonValue::RawNum(s.clone()),
                    DoubleValue::PosInfinity => {
                        let mut members: Vec<(String, JsonValue)> = Vec::new();
                        members.push(
                            (String::from_str("$InfNaN"), JsonValue::RawNum(
                                String::from_str("1.0"),
                            )),
                        );
                        proof {
                            json_model_pairs_singleton(members@);
                        }
                        JsonValue::Obj(members)
                    },
                    DoubleValue::NegInfinity => {
                        let mut members: Vec<(String, JsonValue)> = Vec::new();
                        members.push(
                            (String::from_str("$InfNaN"), JsonValue::RawNum(
                                String::from_str("-1.0"),
                            )),
                        );
                        proof {
                            json_model_pairs_singleton(members@);
                        }
                        JsonValue::Obj(members)
                    },
                    DoubleValue::NotANumber => {
                        let mut members: Vec<(String, JsonValue)> = Vec::new();
                        members.push((String::from_str("$InfNan"), JsonValue::IntNum(0)));
                        proof {
                            json_model_pairs_singleton(members@);
                        }
                        JsonValue::Obj(members)
                    },
                }
            },
            BsonValue::ObjectId(b) => {
                let hex = hex_lower(b);
                let mut members: Vec<(String, JsonValue)> = Vec::new();
                members.push((String::from_str("$type"), JsonValue::Text(String::from_str("oid"))));
                members.push((String::from_str("$value"), JsonValue::Text(hex)));
                proof {
                    json_model_pairs_two(members@);
                }
                JsonValue::Obj(members)
            },
            BsonValue::Regex(p, o) => {
                let mut members: Vec<(String, JsonValue)> = Vec::new();
                members.push((String::from_str("$regexp"), JsonValue::Text(p.clone())));
                members.push((String::from_str("$flags"), JsonValue::Text(o.clone())));
                proof {
                    json_model_pairs_two(members@);
                }
                JsonValue::Obj(members)
            },
            BsonValue::Array(items) => {
                let ghost m = bson_model_seq(items@);
                proof {
                    crate::value::lemma_bson_model_seq(items@);
                }
                let mut out: Vec<JsonValue> = Vec::new();
                let mut i: usize = 0;
                while i < items.len()
                    invariant
                        i <= items@.len(),
                        out@.len() == i,
                        json_model_seq(out@) == ejson_seq(m.take(i as int)),
                    decreases items@.len() - i,
                {
                    proof {
                        assert(decreases_to!(*self => self->Array_0));
                        assert(decreases_to!(*items => items@));
                        assert(decreases_to!(items@ => items@[i as int]));
                        assert(decreases_to!(*self => items@[i as int]));
                        assert(binaries_fit_seq(m));
                        assert(bson_model_seq(items@)[i as int] == bson_model(items@[i as int]));
                        assert(binaries_fit(m[i as int]));
                    }
                    let ghost prev = out@;
                    let e = items[i].into_ejson();
                    out.push(e);
                    proof {
                        assert(out@.drop_last() =~= prev);
                        assert(m.take(i + 1).drop_last() =~= m.take(i as int));
                        assert(json_model_seq(out@) =~= ejson_seq(m.take(i + 1)));
                    }
                    i += 1;
                }
                proof {
                    assert(m.take(items@.len() as int) =~= m);
                }
                JsonValue::Arr(out)
            },
            BsonValue::Document(pairs) => {
                let ghost m = crate::value::bson_model_pairs(pairs@);
                proof {
                    crate::value::lemma_bson_model_pairs(pairs@);
                }
                let mut out: Vec<(String, JsonValue)> = Vec::new();
                let mut i: usize = 0;
                while i < pairs.len()
                    invariant
                        i <= pairs@.len(),
                        out@.len() == i,
                        json_model_pairs(out@) == ejson_pairs(m.take(i as int)),
                    decreases pairs@.len() - i,
                {
                    proof {
                        assert(decreases_to!(*self => self->Document_0));
                        assert(decreases_to!(*pairs => pairs@));
                        assert(decreases_to!(pairs@ => pairs@[i as int]));
                        assert(decreases_to!(pairs@[i as int] => pairs@[i as int].1));
                        assert(decreases_to!(*self => pairs@[i as int].1));
                        assert(binaries_fit_pairs(m));
                        assert(crate::value::bson_model_pairs(pairs@)[i as int] == (
                            pairs@[i as int].0@,
                            bson_model(pairs@[i as int].1),
                        ));
                        assert(binaries_fit(m[i as int].1));
                    }
                    let ghost prev = out@;
                    let pair = &pairs[i];
                    let k = pair.0.clone();
                    let e = pair.1.into_ejson();
                    out.push((k, e));
                    proof {
                        assert(out@.drop_last() =~= prev);
                        assert(m.take(i + 1).drop_last() =~= m.take(i as int));
                        assert(json_model_pairs(out@) =~= ejson_pairs(m.take(i + 1)));
                    }
                    i += 1;
                }
                proof {
                    assert(m.take(pairs@.len() as int) =~= m);
                }
                JsonValue::Obj(out)
            },
            BsonValue::Boolean(b) => JsonValue::Bool(*b),
            BsonValue::Int32(n) => JsonValue::IntNum(*n as i64),
            BsonValue::Int64(n) => JsonValue::IntNum(*n),
            BsonValue::Null => JsonValue::Null,
            BsonValue::Text(s) => JsonValue::Text(s.clone()),
            BsonValue::Other => JsonValue::Null,
        }
    }
}

/// Unfolds `json_model_pairs` for a one-member object.
proof fn json_model_pairs_singleton(s: Seq<(String, JsonValue)>)
    requires
        s.len() == 1,
    ensures
        json_model_pairs(s) =~= seq![(s[0].0@, json_model(s[0].1))],
{
    assert(s.drop_last() =~= Seq::<(String, JsonValue)>::empty());
    assert(json_model_pairs(Seq::<(String, JsonValue)>::empty())
        =~= Seq::<(Seq<char>, JsonModel)>::empty());
    assert(s.last() == s[0]);
}

/// Unfolds `json_model_pairs` for a two-member object.
proof fn json_model_pairs_two(s: Seq<(String, JsonValue)>)
    requires
        s.len() == 2,
    ensures
        json_model_pairs(s) =~= seq![
            (s[0].0@, json_model(s[0].1)),
            (s[1].0@, json_model(s[1].1)),
        ],
{
    json_model_pairs_singleton(s.drop_last());
    assert(s.drop_last()[0] == s[0]);
}

} // verus!
