//! The ingest side: what the bridge asks MongoDB for.
//!
//! The aggregation pipeline that narrows and reshapes change events, and the
//! per-stream cursor options, are pure data computed from the configuration.
//! They are built here, as values of the library's own BSON model; the
//! unverified edge turns them into driver documents and opens the cursors.

use crate::config::Config;
use crate::value::{
    bson_model, bson_model_pairs, bson_model_seq, lemma_bson_model_pairs, lemma_bson_model_seq,
    BsonModel, BsonValue,
};
use vstd::prelude::*;

verus! {

/// What the change stream is asked to attach as `fullDocument`: the
/// driver's modes, plus pass-through of any other string for forward
/// compatibility.
#[derive(Debug)]
pub enum FullDocumentKind {
    UpdateLookup,
    WhenAvailable,
    Required,
    Other(String),
}

impl FullDocumentKind {
    /// An owned copy of this mode.
    pub fn duplicate(&self) -> (r: FullDocumentKind)
        ensures
            r == *self,
    {
        match self {
            FullDocumentKind::UpdateLookup => FullDocumentKind::UpdateLookup,
            FullDocumentKind::WhenAvailable => FullDocumentKind::WhenAvailable,
            FullDocumentKind::Required => FullDocumentKind::Required,
            FullDocumentKind::Other(s) => FullDocumentKind::Other(s.clone()),
        }
    }
}

/// The cursor options one stream is opened with.
pub struct StreamOptions {
    /// What to request as `fullDocument`.
    pub full_document: Option<FullDocumentKind>,
    /// Whether to request `fullDocumentBeforeChange: whenAvailable`.
    pub full_document_before_change_when_available: bool,
}

/// Decides each stream's cursor options: the primary stream asks for the
/// configured full-document mode, falling back to `updateLookup` when the
/// namespaces option is active (namespaces need the document body); the
/// secondary stream asks for no full document. Both request the pre-change
/// document when namespaces are configured.
pub fn change_stream_options(config: &Config, primary: bool) -> (r: StreamOptions)
    ensures
        r.full_document == (if primary {
            if config.full_document is Some {
                config.full_document
            } else if config.namespaces is Some {
                Some(FullDocumentKind::UpdateLookup)
            } else {
                Option::<FullDocumentKind>::None
            }
        } else {
            Option::<FullDocumentKind>::None
        }),
        r.full_document_before_change_when_available == (config.namespaces is Some),
{
    let full_document = if primary {
        match &config.full_document {
            Some(k) => Some(k.duplicate()),
            None => if config.namespaces.is_some() {
                Some(FullDocumentKind::UpdateLookup)
            } else {
                None
            },
        }
    } else {
        None
    };
    StreamOptions {
        full_document,
        full_document_before_change_when_available: config.namespaces.is_some(),
    }
}

/// A BSON string from a literal.
fn text(s: &str) -> (r: BsonValue)
    ensures
        bson_model(r) == BsonModel::Text(s@),
{
    BsonValue::Text(String::from_str(s))
}

/// A one-member BSON document.
fn doc1(k: &str, v: BsonValue) -> (r: BsonValue)
    ensures
        bson_model(r) == BsonModel::Document(seq![(k@, bson_model(v))]),
{
    let ghost m = bson_model(v);
    let mut pairs: Vec<(String, BsonValue)> = Vec::new();
    pairs.push((String::from_str(k), v));
    proof {
        lemma_bson_model_pairs(pairs@);
        assert(bson_model_pairs(pairs@) =~= seq![(k@, m)]);
    }
    BsonValue::Document(pairs)
}

/// A two-member BSON document.
fn doc2(k1: &str, v1: BsonValue, k2: &str, v2: BsonValue) -> (r: BsonValue)
    ensures
        bson_model(r) == BsonModel::Document(
            seq![(k1@, bson_model(v1)), (k2@, bson_model(v2))],
        ),
{
    let ghost m1 = bson_model(v1);
    let ghost m2 = bson_model(v2);
    let mut pairs: Vec<(String, BsonValue)> = Vec::new();
    pairs.push((String::from_str(k1), v1));
    pairs.push((String::from_str(k2), v2));
    proof {
        lemma_bson_model_pairs(pairs@);
        assert(bson_model_pairs(pairs@) =~= seq![(k1@, m1), (k2@, m2)]);
    }
    BsonValue::Document(pairs)
}

/// A three-member BSON document.
fn doc3(k1: &str, v1: BsonValue, k2: &str, v2: BsonValue, k3: &str, v3: BsonValue) -> (r:
    BsonValue)
    ensures
        bson_model(r) == BsonModel::Document(
            seq![(k1@, bson_model(v1)), (k2@, bson_model(v2)), (k3@, bson_model(v3))],
        ),
{
    let ghost m1 = bson_model(v1);
    let ghost m2 = bson_model(v2);
    let ghost m3 = bson_model(v3);
    let mut pairs: Vec<(String, BsonValue)> = Vec::new();
    pairs.push((String::from_str(k1), v1));
    pairs.push((String::from_str(k2), v2));
    pairs.push((String::from_str(k3), v3));
    proof {
        lemma_bson_model_pairs(pairs@);
        assert(bson_model_pairs(pairs@) =~= seq![(k1@, m1), (k2@, m2), (k3@, m3)]);
    }
    BsonValue::Document(pairs)
}

/// An empty BSON array.
fn arr0() -> (r: BsonValue)
    ensures
        bson_model(r) == BsonModel::Array(Seq::empty()),
{
    let items: Vec<BsonValue> = Vec::new();
    proof {
        assert(bson_model_seq(items@) =~= Seq::<BsonModel>::empty());
    }
    BsonValue::Array(items)
}

/// A one-element BSON array.
fn arr1(v1: BsonValue) -> (r: BsonValue)
    ensures
        bson_model(r) == BsonModel::Array(seq![bson_model(v1)]),
{
    let ghost m1 = bson_model(v1);
    let mut items: Vec<BsonValue> = Vec::new();
    items.push(v1);
    proof {
        lemma_bson_model_seq(items@);
        assert(bson_model_seq(items@) =~= seq![m1]);
    }
    BsonValue::Array(items)
}

/// A two-element BSON array.
fn arr2(v1: BsonValue, v2: BsonValue) -> (r: BsonValue)
    ensures
        bson_model(r) == BsonModel::Array(seq![bson_model(v1), bson_model(v2)]),
{
    let ghost m1 = bson_model(v1);
    let ghost m2 = bson_model(v2);
    let mut items: Vec<BsonValue> = Vec::new();
    items.push(v1);
    items.push(v2);
    proof {
        lemma_bson_model_seq(items@);
        assert(bson_model_seq(items@) =~= seq![m1, m2]);
    }
    BsonValue::Array(items)
}

/// A four-element BSON array.
fn arr4(v1: BsonValue, v2: BsonValue, v3: BsonValue, v4: BsonValue) -> (r: BsonValue)
    ensures
        bson_model(r) == BsonModel::Array(
            seq![bson_model(v1), bson_model(v2), bson_model(v3), bson_model(v4)],
        ),
{
    let ghost m1 = bson_model(v1);
    let ghost m2 = bson_model(v2);
    let ghost m3 = bson_model(v3);
    let ghost m4 = bson_model(v4);
    let mut items: Vec<BsonValue> = Vec::new();
    items.push(v1);
    items.push(v2);
    items.push(v3);
    items.push(v4);
    proof {
        lemma_bson_model_seq(items@);
        assert(bson_model_seq(items@) =~= seq![m1, m2, m3, m4]);
    }
    BsonValue::Array(items)
}

/// Each name as a BSON string.
pub open spec fn text_models(names: Seq<Seq<char>>) -> Seq<BsonModel>
    decreases names,
{
    if names.len() == 0 {
        Seq::empty()
    } else {
        text_models(names.drop_last()).push(BsonModel::Text(names.last()))
    }
}

/// `text_models` maps the sequence pointwise.
pub proof fn lemma_text_models(names: Seq<Seq<char>>)
    ensures
        text_models(names).len() == names.len(),
        forall|i: int| 0 <= i < names.len() ==> text_models(names)[i] == BsonModel::Text(
            names[i],
        ),
    decreases names,
{
    if names.len() > 0 {
        lemma_text_models(names.drop_last());
    }
}

/// A BSON array holding each name as a string.
fn text_array(names: &Vec<String>) -> (r: BsonValue)
    ensures
        bson_model(r) == BsonModel::Array(text_models(names.deep_view())),
{
    let mut items: Vec<BsonValue> = Vec::new();
    let mut i: usize = 0;
    while i < names.len()
        invariant
            i <= names@.len(),
            names.deep_view().len() == names@.len(),
            items@.len() == i,
            forall|j: int|
                0 <= j < i ==> bson_model(#[trigger] items@[j]) == BsonModel::Text(
                    names.deep_view()[j],
                ),
        decreases names@.len() - i,
    {
        items.push(BsonValue::Text(names[i].clone()));
        proof {
            assert(names.deep_view()[i as int] == names@[i as int]@);
        }
        i += 1;
    }
    proof {
        lemma_bson_model_seq(items@);
        lemma_text_models(names.deep_view());
        assert(bson_model_seq(items@) =~= text_models(names.deep_view()));
    }
    BsonValue::Array(items)
}

/// The `$match` selection: `_id`s of the supported types, the four handled
/// operation kinds, and — when configured — the collection filter, where a
/// configured `full_document_collections` list supersedes
/// `excluded_collections` (the two write the same `ns.coll` key).
pub open spec fn match_query_model(config: Config, primary: bool) -> Seq<(Seq<char>, BsonModel)> {
    let base = seq![
        (
            "documentKey._id"@,
            BsonModel::Document(
                seq![
                    (
                        "$type"@,
                        BsonModel::Array(
                            seq![BsonModel::Text("objectId"@), BsonModel::Text("string"@)],
                        ),
                    ),
                ],
            ),
        ),
        (
            "operationType"@,
            BsonModel::Document(
                seq![
                    (
                        "$in"@,
                        BsonModel::Array(
                            seq![
                                BsonModel::Text("delete"@),
                                BsonModel::Text("insert"@),
                                BsonModel::Text("replace"@),
                                BsonModel::Text("update"@),
                            ],
                        ),
                    ),
                ],
            ),
        ),
    ];
    match config.full_document_collections {
        Option::Some(names) => base.push(
            (
                "ns.coll"@,
                BsonModel::Document(
                    seq![
                        (
                            if primary {
                                "$in"@
                            } else {
                                "$nin"@
                            },
                            BsonModel::Array(text_models(names.deep_view())),
                        ),
                    ],
                ),
            ),
        ),
        Option::None => match config.excluded_collections {
            Option::Some(names) => base.push(
                (
                    "ns.coll"@,
                    BsonModel::Document(
                        seq![("$nin"@, BsonModel::Array(text_models(names.deep_view())))],
                    ),
                ),
            ),
            Option::None => base,
        },
    }
}

/// Builds the `$match` stage.
fn match_stage(config: &Config, primary: bool) -> (r: BsonValue)
    ensures
        bson_model(r) == BsonModel::Document(
            seq![("$match"@, BsonModel::Document(match_query_model(*config, primary)))],
        ),
{
    let id_filter = doc1("$type", arr2(text("objectId"), text("string")));
    let op_filter = doc1(
        "$in",
        arr4(text("delete"), text("insert"), text("replace"), text("update")),
    );
    let ghost id_m = bson_model(id_filter);
    let ghost op_m = bson_model(op_filter);
    let mut pairs: Vec<(String, BsonValue)> = Vec::new();
    pairs.push((String::from_str("documentKey._id"), id_filter));
    pairs.push((String::from_str("operationType"), op_filter));
    match &config.full_document_collections {
        Some(names) => {
            let operator = if primary {
                "$in"
            } else {
                "$nin"
            };
            let filter = doc1(operator, text_array(names));
            let ghost f_m = bson_model(filter);
            pairs.push((String::from_str("ns.coll"), filter));
            proof {
                lemma_bson_model_pairs(pairs@);
                assert(bson_model_pairs(pairs@) =~= match_query_model(*config, primary));
            }
        },
        None => {
            match &config.excluded_collections {
                Some(names) => {
                    let filter = doc1("$nin", text_array(names));
                    let ghost f_m = bson_model(filter);
                    pairs.push((String::from_str("ns.coll"), filter));
                    proof {
                        lemma_bson_model_pairs(pairs@);
                        assert(bson_model_pairs(pairs@) =~= match_query_model(*config, primary));
                    }
                },
                None => {
                    proof {
                        lemma_bson_model_pairs(pairs@);
                        assert(bson_model_pairs(pairs@) =~= match_query_model(*config, primary));
                    }
                },
            }
        },
    }
    doc1_owned(String::from_str("$match"), BsonValue::Document(pairs))
}

/// A one-member BSON document from an owned key.
fn doc1_owned(k: String, v: BsonValue) -> (r: BsonValue)
    ensures
        bson_model(r) == BsonModel::Document(seq![(k@, bson_model(v))]),
{
    let ghost m = bson_model(v);
    let ghost kv = k@;
    let mut pairs: Vec<(String, BsonValue)> = Vec::new();
    pairs.push((k, v));
    proof {
        lemma_bson_model_pairs(pairs@);
        assert(bson_model_pairs(pairs@) =~= seq![(kv, m)]);
    }
    BsonValue::Document(pairs)
}

/// The namespaces fold's starting value: the empty string, literally.
pub open spec fn ns_literal_model() -> BsonModel {
    BsonModel::Document(seq![("$literal"@, BsonModel::Text(""@))])
}

/// One step of the namespaces fold: for change events on `collection`, a
/// server-side `$reduce` that appends one `field::value` fragment per value
/// found at `fullDocument.field` (or, failing that,
/// `fullDocumentBeforeChange.field`), wrapping non-arrays as singletons;
/// events on other collections pass `acc` through unchanged.
pub open spec fn ns_reduce_model(collection: Seq<char>, field: Seq<char>, acc: BsonModel)
    -> BsonModel {
    BsonModel::Document(
        seq![
            (
                "$reduce"@,
                BsonModel::Document(
                    seq![
                        (
                            "input"@,
                            BsonModel::Document(
                                seq![
                                    (
                                        "$cond"@,
                                        BsonModel::Document(
                                            seq![
                                                (
                                                    "if"@,
                                                    BsonModel::Document(
                                                        seq![
                                                            (
                                                                "$eq"@,
                                                                BsonModel::Array(
                                                                    seq![
                                                                        BsonModel::Text(
                                                                            "$ns.coll"@,
                                                                        ),
                                                                        BsonModel::Text(
                                                                            collection,
                                                                        ),
                                                                    ],
                                                                ),
                                                            ),
                                                        ],
                                                    ),
                                                ),
                                                (
                                                    "then"@,
                                                    BsonModel::Document(
                                                        seq![
                                                            (
                                                                "$let"@,
                                                                BsonModel::Document(
                                                                    seq![
                                                                        (
                                                                            "vars"@,
                                                                            BsonModel::Document(
                                                                                seq![
                                                                                    (
                                                                                        "v"@,
                                                                                        BsonModel::Document(
                                                                                            seq![
                                                                                                (
                                                                                                    "$ifNull"@,
                                                                                                    BsonModel::Array(
                                                                                                        seq![
                                                                                                            BsonModel::Text(
                                                                                                                "$fullDocument."@
                                                                                                                    + field,
                                                                                                            ),
                                                                                                            BsonModel::Document(
                                                                                                                seq![
                                                                                                                    (
                                                                                                                        "$ifNull"@,
                                                                                                                        BsonModel::Array(
                                                                                                                            seq![
                                                                                                                                BsonModel::Text(
                                                                                                                                    "$fullDocumentBeforeChange."@
                                                                                                                                        + field,
                                                                                                                                ),
                                                                                                                                BsonModel::Array(
                                                                                                                                    Seq::empty(),
                                                                                                                                ),
                                                                                                                            ],
                                                                                                                        ),
                                                                                                                    ),
                                                                                                                ],
                                                                                                            ),
                                                                                                        ],
                                                                                                    ),
                                                                                                ),
                                                                                            ],
                                                                                        ),
                                                                                    ),
                                                                                ],
                                                                            ),
                                                                        ),
                                                                        (
                                                                            "in"@,
                                                                            BsonModel::Document(
                                                                                seq![
                                                                                    (
                                                                                        "$cond"@,
                                                                                        BsonModel::Document(
                                                                                            seq![
                                                                                                (
                                                                                                    "if"@,
                                                                                                    BsonModel::Document(
                                                                                                        seq![
                                                                                                            (
                                                                                                                "$isArray"@,
                                                                                                                BsonModel::Text(
                                                                                                                    "$$v"@,
                                                                                                                ),
                                                                                                            ),
                                                                                                        ],
                                                                                                    ),
                                                                                                ),
                                                                                                (
                                                                                                    "then"@,
                                                                                                    BsonModel::Text(
                                                                                                        "$$v"@,
                                                                                                    ),
                                                                                                ),
                                                                                                (
                                                                                                    "else"@,
                                                                                                    BsonModel::Array(
                                                                                                        seq![
                                                                                                            BsonModel::Text(
                                                                                                                "$$v"@,
                                                                                                            ),
                                                                                                        ],
                                                                                                    ),
                                                                                                ),
                                                                                            ],
                                                                                        ),
                                                                                    ),
                                                                                ],
                                                                            ),
                                                                        ),
                                                                    ],
                                                                ),
                                                            ),
                                                        ],
                                                    ),
                                                ),
                                                ("else"@, BsonModel::Array(Seq::empty())),
                                            ],
                                        ),
                                    ),
                                ],
                            ),
                        ),
                        ("initialValue"@, acc),
                        (
                            "in"@,
                            BsonModel::Document(
                                seq![
                                    (
                                        "$concat"@,
                                        BsonModel::Array(
                                            seq![
                                                BsonModel::Text("$$value"@),
                                                BsonModel::Text(","@),
                                                BsonModel::Text(field + "::"@),
                                                BsonModel::Document(
                                                    seq![
                                                        (
                                                            "$toString"@,
                                                            BsonModel::Text("$$this"@),
                                                        ),
                                                    ],
                                                ),
                                            ],
                                        ),
                                    ),
                                ],
                            ),
                        ),
                    ],
                ),
            ),
        ],
    )
}

/// The `(collection, field)` pairs of the namespaces option, if any.
pub open spec fn namespaces_entries(o: Option<Vec<(String, String)>>) -> Seq<
    (Seq<char>, Seq<char>),
> {
    match o {
        Option::None => Seq::empty(),
        Option::Some(v) => v.deep_view(),
    }
}

/// The whole namespaces expression: the fold of [`ns_reduce_model`] over
/// the configured entries, in order, from the empty-string literal.
pub open spec fn ns_expr_model(entries: Seq<(Seq<char>, Seq<char>)>) -> BsonModel
    decreases entries,
{
    if entries.len() == 0 {
        ns_literal_model()
    } else {
        ns_reduce_model(entries.last().0, entries.last().1, ns_expr_model(entries.drop_last()))
    }
}

/// Builds one step of the namespaces fold.
fn ns_reduce(collection: &String, field: &String, acc: BsonValue) -> (r: BsonValue)
    ensures
        bson_model(r) == ns_reduce_model(collection@, field@, bson_model(acc)),
{
    let mut next_value = String::from_str("$fullDocument.");
    next_value.append(field.as_str());
    let mut prev_value = String::from_str("$fullDocumentBeforeChange.");
    prev_value.append(field.as_str());
    let mut namespace = field.clone();
    namespace.append("::");
    let if_doc = doc1("$eq", arr2(text("$ns.coll"), BsonValue::Text(collection.clone())));
    let vars_doc = doc1(
        "v",
        doc1(
            "$ifNull",
            arr2(BsonValue::Text(next_value), doc1("$ifNull", arr2(BsonValue::Text(prev_value), arr0()))),
        ),
    );
    let in_cond = doc1(
        "$cond",
        doc3("if", doc1("$isArray", text("$$v")), "then", text("$$v"), "else", arr1(text("$$v"))),
    );
    let let_doc = doc1("$let", doc2("vars", vars_doc, "in", in_cond));
    let cond = doc1("$cond", doc3("if", if_doc, "then", let_doc, "else", arr0()));
    let concat = doc1(
        "$concat",
        arr4(text("$$value"), text(","), BsonValue::Text(namespace), doc1("$toString", text("$$this"))),
    );
    doc1("$reduce", doc3("input", cond, "initialValue", acc, "in", concat))
}

/// Builds the namespaces expression for the `n` projection field.
fn ns_expr(namespaces: &Option<Vec<(String, String)>>) -> (r: BsonValue)
    ensures
        bson_model(r) == ns_expr_model(namespaces_entries(*namespaces)),
{
    let mut acc = doc1("$literal", text(""));
    match namespaces {
        None => {},
        Some(entries) => {
            let ghost dv = entries.deep_view();
            let mut i: usize = 0;
            while i < entries.len()
                invariant
                    dv == entries.deep_view(),
                    dv.len() == entries@.len(),
                    i <= entries@.len(),
                    bson_model(acc) == ns_expr_model(dv.take(i as int)),
                decreases entries@.len() - i,
            {
                proof {
                    assert(dv[i as int] == (entries@[i as int].0@, entries@[i as int].1@));
                }
                let entry = &entries[i];
                acc = ns_reduce(&entry.0, &entry.1, acc);
                proof {
                    assert(dv.take(i + 1).drop_last() =~= dv.take(i as int));
                    assert(dv.take(i + 1).last() == dv[i as int]);
                }
                i += 1;
            }
            proof {
                assert(dv.take(dv.len() as int) =~= dv);
            }
        },
    }
    acc
}

/// The `o.e` operation-kind switch: `"r"` for deletes, `"i"` for inserts,
/// `"u"` for everything else.
pub open spec fn switch_model() -> BsonModel {
    BsonModel::Document(
        seq![
            (
                "$switch"@,
                BsonModel::Document(
                    seq![
                        (
                            "branches"@,
                            BsonModel::Array(
                                seq![
                                    BsonModel::Document(
                                        seq![
                                            (
                                                "case"@,
                                                BsonModel::Document(
                                                    seq![
                                                        (
                                                            "$eq"@,
                                                            BsonModel::Array(
                                                                seq![
                                                                    BsonModel::Text(
                                                                        "$operationType"@,
                                                                    ),
                                                                    BsonModel::Text("delete"@),
                                                                ],
                                                            ),
                                                        ),
                                                    ],
                                                ),
                                            ),
                                            ("then"@, BsonModel::Text("r"@)),
                                        ],
                                    ),
                                    BsonModel::Document(
                                        seq![
                                            (
                                                "case"@,
                                                BsonModel::Document(
                                                    seq![
                                                        (
                                                            "$eq"@,
                                                            BsonModel::Array(
                                                                seq![
                                                                    BsonModel::Text(
                                                                        "$operationType"@,
                                                                    ),
                                                                    BsonModel::Text("insert"@),
                                                                ],
                                                            ),
                                                        ),
                                                    ],
                                                ),
                                            ),
                                            ("then"@, BsonModel::Text("i"@)),
                                        ],
                                    ),
                                ],
                            ),
                        ),
                        ("default"@, BsonModel::Text("u"@)),
                    ],
                ),
            ),
        ],
    )
}

/// The `_id`-only document payload.
pub open spec fn id_doc_model() -> BsonModel {
    BsonModel::Document(seq![("_id"@, BsonModel::Text("$documentKey._id"@))])
}

/// The `o.d` payload: on the primary stream, when any full-document option
/// is configured, the full document with pre-change and `_id` fallbacks;
/// otherwise only `_id`.
pub open spec fn doc_expr_model(config: Config, primary: bool) -> BsonModel {
    if primary && (config.full_document is Some || config.full_document_collections is Some) {
        BsonModel::Document(
            seq![
                (
                    "$ifNull"@,
                    BsonModel::Array(
                        seq![
                            BsonModel::Text("$fullDocument"@),
                            BsonModel::Document(
                                seq![
                                    (
                                        "$ifNull"@,
                                        BsonModel::Array(
                                            seq![
                                                BsonModel::Text("$fullDocumentBeforeChange"@),
                                                id_doc_model(),
                                            ],
                                        ),
                                    ),
                                ],
                            ),
                        ],
                    ),
                ),
            ],
        )
    } else {
        id_doc_model()
    }
}

/// The `$project` fields: the event wire shape `c`, `d`, `i`, `n`, `o`, `t`.
pub open spec fn project_fields_model(config: Config, primary: bool) -> Seq<
    (Seq<char>, BsonModel),
> {
    seq![
        ("c"@, BsonModel::Text("$ns.coll"@)),
        ("d"@, BsonModel::Text("$ns.db"@)),
        ("i"@, BsonModel::Document(seq![("$toString"@, BsonModel::Text("$documentKey._id"@))])),
        ("n"@, ns_expr_model(namespaces_entries(config.namespaces))),
        (
            "o"@,
            BsonModel::Document(
                seq![
                    ("e"@, switch_model()),
                    ("d"@, doc_expr_model(config, primary)),
                    ("f"@, BsonModel::Array(Seq::empty())),
                ],
            ),
        ),
        ("t"@, BsonModel::Text("$clusterTime"@)),
    ]
}

/// Builds the `$project` stage.
fn project_stage(config: &Config, primary: bool) -> (r: BsonValue)
    ensures
        bson_model(r) == BsonModel::Document(
            seq![("$project"@, BsonModel::Document(project_fields_model(*config, primary)))],
        ),
{
    let id_field = doc1("$toString", text("$documentKey._id"));
    let n_field = ns_expr(&config.namespaces);
    let case_delete = doc2(
        "case",
        doc1("$eq", arr2(text("$operationType"), text("delete"))),
        "then",
        text("r"),
    );
    let case_insert = doc2(
        "case",
        doc1("$eq", arr2(text("$operationType"), text("insert"))),
        "then",
        text("i"),
    );
    let switch = doc1(
        "$switch",
        doc2("branches", arr2(case_delete, case_insert), "default", text("u")),
    );
    let id_doc = doc1("_id", text("$documentKey._id"));
    let doc_expr = if primary && (config.full_document.is_some()
        || config.full_document_collections.is_some()) {
        doc1(
            "$ifNull",
            arr2(
                text("$fullDocument"),
                doc1("$ifNull", arr2(text("$fullDocumentBeforeChange"), id_doc)),
            ),
        )
    } else {
        id_doc
    };
    let o_field = doc3("e", switch, "d", doc_expr, "f", arr0());
    let ghost i_m = bson_model(id_field);
    let ghost n_m = bson_model(n_field);
    let ghost o_m = bson_model(o_field);
    let mut pairs: Vec<(String, BsonValue)> = Vec::new();
    pairs.push((String::from_str("c"), text("$ns.coll")));
    pairs.push((String::from_str("d"), text("$ns.db")));
    pairs.push((String::from_str("i"), id_field));
    pairs.push((String::from_str("n"), n_field));
    pairs.push((String::from_str("o"), o_field));
    pairs.push((String::from_str("t"), text("$clusterTime")));
    proof {
        lemma_bson_model_pairs(pairs@);
        assert(bson_model_pairs(pairs@) =~= project_fields_model(*config, primary));
    }
    doc1_owned(String::from_str("$project"), BsonValue::Document(pairs))
}

/// Builds the two-stage aggregation pipeline for one stream: the `$match`
/// selection followed by the `$project` that produces the event wire shape.
/// Deterministic in the configuration.
pub fn create_pipeline(config: &Config, primary: bool) -> (r: (BsonValue, BsonValue))
    ensures
        bson_model(r.0) == BsonModel::Document(
            seq![("$match"@, BsonModel::Document(match_query_model(*config, primary)))],
        ),
        bson_model(r.1) == BsonModel::Document(
            seq![("$project"@, BsonModel::Document(project_fields_model(*config, primary)))],
        ),
{
    (match_stage(config, primary), project_stage(config, primary))
}

/// Dual-stream routing: when `full_document_collections` is configured, the
/// primary stream's pipeline selects exactly those collections and projects
/// the full document (with pre-change and `_id` fallbacks), while the
/// secondary stream selects the complement and projects only `_id`.
pub proof fn lemma_dual_stream_routing(config: Config)
    requires
        config.full_document_collections is Some,
    ensures
        ({
            let names = BsonModel::Array(
                text_models((config.full_document_collections->0).deep_view()),
            );
            &&& match_query_model(config, true).len() == 3
            &&& match_query_model(config, true)[2] == (
                "ns.coll"@,
                BsonModel::Document(seq![("$in"@, names)]),
            )
            &&& match_query_model(config, false).len() == 3
            &&& match_query_model(config, false)[2] == (
                "ns.coll"@,
                BsonModel::Document(seq![("$nin"@, names)]),
            )
        }),
        doc_expr_model(config, true) != id_doc_model(),
        project_fields_model(config, true)[4].1 == BsonModel::Document(
            seq![
                ("e"@, switch_model()),
                ("d"@, doc_expr_model(config, true)),
                ("f"@, BsonModel::Array(Seq::empty())),
            ],
        ),
        doc_expr_model(config, false) == id_doc_model(),
        project_fields_model(config, false)[4].1 == BsonModel::Document(
            seq![
                ("e"@, switch_model()),
                ("d"@, id_doc_model()),
                ("f"@, BsonModel::Array(Seq::empty())),
            ],
        ),
{
    assert(doc_expr_model(config, true) != id_doc_model()) by {
        reveal_strlit("$ifNull");
        reveal_strlit("_id");
        assert("$ifNull"@.len() == 7);
        assert("_id"@.len() == 3);
        if doc_expr_model(config, true) == id_doc_model() {
            assert(doc_expr_model(config, true)->Document_0[0].0 == id_doc_model()
                ->Document_0[0].0);
        }
    }
}

} // verus!
