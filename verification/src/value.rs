//! A self-contained model of the BSON values that flow through the bridge.
//!
//! Change-stream documents arrive as BSON; the encoder and the pipeline
//! builder only ever read plain data out of them, so the library keeps its
//! own value type whose fields are ordinary integers, strings and byte
//! vectors. The unverified edge converts the driver's values into this type.

use vstd::prelude::*;

verus! {

/// A double-precision number, as the encoder needs to see it: either finite,
/// carrying its decimal rendering, or one of the three non-finite classes.
pub enum DoubleValue {
    /// A finite number together with its shortest decimal text, as the
    /// driver's JSON writer would print it (for example `"1.5"`).
    Finite(String),
    PosInfinity,
    NegInfinity,
    NotANumber,
}

/// Ghost mirror of [`DoubleValue`].
pub enum DoubleModel {
    Finite(Seq<char>),
    PosInfinity,
    NegInfinity,
    NotANumber,
}

/// The mathematical value of a [`DoubleValue`].
pub open spec fn double_model(d: DoubleValue) -> DoubleModel {
    match d {
        DoubleValue::Finite(s) => DoubleModel::Finite(s@),
        DoubleValue::PosInfinity => DoubleModel::PosInfinity,
        DoubleValue::NegInfinity => DoubleModel::NegInfinity,
        DoubleValue::NotANumber => DoubleModel::NotANumber,
    }
}

/// A BSON value. Every variant the encoder maps specially is present; any
/// other BSON variant is collapsed to [`BsonValue::Other`] by the edge that
/// converts driver values.
pub enum BsonValue {
    /// Binary payload (the bytes, without subtype).
    Binary(Vec<u8>),
    /// UTC datetime as milliseconds since the Unix epoch.
    DateTime(i64),
    /// A 128-bit decimal, carried as its canonical string form.
    Decimal128(String),
    Double(DoubleValue),
    /// An object id: exactly twelve bytes.
    ObjectId(Vec<u8>),
    /// A regular expression: pattern and options.
    Regex(String, String),
    Array(Vec<BsonValue>),
    Boolean(bool),
    /// An embedded document: key/value pairs in document order.
    Document(Vec<(String, BsonValue)>),
    Int32(i32),
    Int64(i64),
    Null,
    Text(String),
    /// Any BSON variant the bridge does not recognize.
    Other,
}

/// Ghost mirror of [`BsonValue`].
pub enum BsonModel {
    Binary(Seq<u8>),
    DateTime(int),
    Decimal128(Seq<char>),
    Double(DoubleModel),
    ObjectId(Seq<u8>),
    Regex(Seq<char>, Seq<char>),
    Array(Seq<BsonModel>),
    Boolean(bool),
    Document(Seq<(Seq<char>, BsonModel)>),
    Int32(int),
    Int64(int),
    Null,
    Text(Seq<char>),
    Other,
}

/// The mathematical value of a [`BsonValue`].
pub open spec fn bson_model(v: BsonValue) -> BsonModel
    decreases v,
{
    match v {
        BsonValue::Binary(b) => BsonModel::Binary(b@),
        BsonValue::DateTime(ms) => BsonModel::DateTime(ms as int),
        BsonValue::Decimal128(s) => BsonModel::Decimal128(s@),
        BsonValue::Double(d) => BsonModel::Double(double_model(d)),
        BsonValue::ObjectId(b) => BsonModel::ObjectId(b@),
        BsonValue::Regex(p, o) => BsonModel::Regex(p@, o@),
        BsonValue::Array(items) => BsonModel::Array(bson_model_seq(items@)),
        BsonValue::Boolean(b) => BsonModel::Boolean(b),
        BsonValue::Document(pairs) => BsonModel::Document(bson_model_pairs(pairs@)),
        BsonValue::Int32(n) => BsonModel::Int32(n as int),
        BsonValue::Int64(n) => BsonModel::Int64(n as int),
        BsonValue::Null => BsonModel::Null,
        BsonValue::Text(s) => BsonModel::Text(s@),
        BsonValue::Other => BsonModel::Other,
    }
}

/// The models of a sequence of values, element by element.
pub open spec fn bson_model_seq(s: Seq<BsonValue>) -> Seq<BsonModel>
    decreases s,
{
    if s.len() == 0 {
        Seq::empty()
    } else {
        bson_model_seq(s.drop_last()).push(bson_model(s.last()))
    }
}

/// The models of a sequence of key/value pairs, element by element.
pub open spec fn bson_model_pairs(s: Seq<(String, BsonValue)>) -> Seq<(Seq<char>, BsonModel)>
    decreases s,
{
    if s.len() == 0 {
        Seq::empty()
    } else {
        bson_model_pairs(s.drop_last()).push((s.last().0@, bson_model(s.last().1)))
    }
}

/// `bson_model_seq` maps the sequence pointwise.
pub proof fn lemma_bson_model_seq(s: Seq<BsonValue>)
    ensures
        bson_model_seq(s).len() == s.len(),
        forall|i: int| 0 <= i < s.len() ==> bson_model_seq(s)[i] == bson_model(s[i]),
    decreases s,
{
    if s.len() > 0 {
        lemma_bson_model_seq(s.drop_last());
    }
}

/// `bson_model_pairs` maps the sequence pointwise.
pub proof fn lemma_bson_model_pairs(s: Seq<(String, BsonValue)>)
    ensures
        bson_model_pairs(s).len() == s.len(),
        forall|i: int| 0 <= i < s.len() ==> bson_model_pairs(s)[i] == (s[i].0@, bson_model(
            s[i].1,
        )),
    decreases s,
{
    if s.len() > 0 {
        lemma_bson_model_pairs(s.drop_last());
    }
}

} // verus!
