//! JSON values and the compact writer that turns them into wire text.
//!
//! The publisher sends each event's operation record to Redis as one JSON
//! string with no added whitespace. The exact text matters to subscribers,
//! so the writer is specified character by character: `json_text` gives the
//! serialization of a value, and `write_json` is proved to produce it.

use vstd::prelude::*;

verus! {

/// A JSON value as the bridge produces it.
pub enum JsonValue {
    Null,
    Bool(bool),
    /// An integer, printed in decimal.
    IntNum(i64),
    /// A number carried as already-rendered text (finite doubles), emitted
    /// verbatim.
    RawNum(String),
    Text(String),
    Arr(Vec<JsonValue>),
    /// An object: members in insertion order.
    Obj(Vec<(String, JsonValue)>),
}

/// Ghost mirror of [`JsonValue`].
pub enum JsonModel {
    Null,
    Bool(bool),
    IntNum(int),
    RawNum(Seq<char>),
    Text(Seq<char>),
    Arr(Seq<JsonModel>),
    Obj(Seq<(Seq<char>, JsonModel)>),
}

/// The mathematical value of a [`JsonValue`].
pub open spec fn json_model(v: JsonValue) -> JsonModel
    decreases v,
{
    match v {
        JsonValue::Null => JsonModel::Null,
        JsonValue::Bool(b) => JsonModel::Bool(b),
        JsonValue::IntNum(n) => JsonModel::IntNum(n as int),
        JsonValue::RawNum(s) => JsonModel::RawNum(s@),
        JsonValue::Text(s) => JsonModel::Text(s@),
        JsonValue::Arr(items) => JsonModel::Arr(json_model_seq(items@)),
        JsonValue::Obj(pairs) => JsonModel::Obj(json_model_pairs(pairs@)),
    }
}

/// The models of a sequence of values, element by element.
pub open spec fn json_model_seq(s: Seq<JsonValue>) -> Seq<JsonModel>
    decreases s,
{
    if s.len() == 0 {
        Seq::empty()
    } else {
        json_model_seq(s.drop_last()).push(json_model(s.last()))
    }
}

/// The models of a sequence of members, element by element.
pub open spec fn json_model_pairs(s: Seq<(String, JsonValue)>) -> Seq<(Seq<char>, JsonModel)>
    decreases s,
{
    if s.len() == 0 {
        Seq::empty()
    } else {
        json_model_pairs(s.drop_last()).push((s.last().0@, json_model(s.last().1)))
    }
}

/// `json_model_seq` maps the sequence pointwise.
pub proof fn lemma_json_model_seq(s: Seq<JsonValue>)
    ensures
        json_model_seq(s).len() == s.len(),
        forall|i: int| 0 <= i < s.len() ==> json_model_seq(s)[i] == json_model(s[i]),
    decreases s,
{
    if s.len() > 0 {
        lemma_json_model_seq(s.drop_last());
    }
}

/// `json_model_pairs` maps the sequence pointwise.
pub proof fn lemma_json_model_pairs(s: Seq<(String, JsonValue)>)
    ensures
        json_model_pairs(s).len() == s.len(),
        forall|i: int| 0 <= i < s.len() ==> json_model_pairs(s)[i] == (s[i].0@, json_model(
            s[i].1,
        )),
    decreases s,
{
    if s.len() > 0 {
        lemma_json_model_pairs(s.drop_last());
    }
}

/// Decimal digits, lowest ASCII first.
pub const DIGITS: [char; 10] = ['0', '1', '2', '3', '4', '5', '6', '7', '8', '9'];

/// Hexadecimal digits in lower case, as JSON control-character escapes use
/// them.
pub const HEX_LOWER: [char; 16] = [
    '0',
    '1',
    '2',
    '3',
    '4',
    '5',
    '6',
    '7',
    '8',
    '9',
    'a',
    'b',
    'c',
    'd',
    'e',
    'f',
];

/// The decimal rendering of a natural number, most significant digit first.
pub open spec fn dec_digits(n: nat) -> Seq<char>
    decreases n,
{
    if n < 10 {
        seq![DIGITS@[n as int]]
    } else {
        dec_digits(n / 10).push(DIGITS@[(n % 10) as int])
    }
}

/// The decimal rendering of an integer, with a leading minus sign when
/// negative.
pub open spec fn int_text(n: int) -> Seq<char> {
    if n < 0 {
        seq!['-'] + dec_digits((-n) as nat)
    } else {
        dec_digits(n as nat)
    }
}

/// How one character appears inside a JSON string literal: `"` and `\` get a
/// backslash, the five short control escapes use their letters, any other
/// control character becomes `\u00` plus two lowercase hex digits, and
/// everything else stands as itself.
pub open spec fn escape_char(c: char) -> Seq<char> {
    if c == '"' {
        seq!['\\', '"']
    } else if c == '\\' {
        seq!['\\', '\\']
    } else if c == '\u{8}' {
        seq!['\\', 'b']
    } else if c == '\u{9}' {
        seq!['\\', 't']
    } else if c == '\u{a}' {
        seq!['\\', 'n']
    } else if c == '\u{c}' {
        seq!['\\', 'f']
    } else if c == '\u{d}' {
        seq!['\\', 'r']
    } else if (c as u32) < 0x20 {
        seq!['\\', 'u', '0', '0', HEX_LOWER@[c as u32 as int / 16], HEX_LOWER@[c as u32 as int % 16]]
    } else {
        seq![c]
    }
}

/// A whole string, escaped character by character.
pub open spec fn escape_text(s: Seq<char>) -> Seq<char>
    decreases s,
{
    if s.len() == 0 {
        Seq::empty()
    } else {
        escape_text(s.drop_last()) + escape_char(s.last())
    }
}

/// The compact serialization of a JSON value: no whitespace, members and
/// elements in order, strings escaped as [`escape_char`] says.
pub open spec fn json_text(v: JsonModel) -> Seq<char>
    decreases v,
{
    match v {
        JsonModel::Null => "null"@,
        JsonModel::Bool(b) => if b {
            "true"@
        } else {
            "false"@
        },
        JsonModel::IntNum(n) => int_text(n),
        JsonModel::RawNum(s) => s,
        JsonModel::Text(s) => seq!['"'] + escape_text(s) + seq!['"'],
        JsonModel::Arr(items) => seq!['['] + json_text_items(items) + seq![']'],
        JsonModel::Obj(pairs) => seq!['{'] + json_text_members(pairs) + seq!['}'],
    }
}

/// Array elements joined by commas.
pub open spec fn json_text_items(items: Seq<JsonModel>) -> Seq<char>
    decreases items,
{
    if items.len() == 0 {
        Seq::empty()
    } else if items.len() == 1 {
        json_text(items[0])
    } else {
        json_text_items(items.drop_last()) + seq![','] + json_text(items.last())
    }
}

/// Object members joined by commas, each an escaped quoted key, a colon and
/// the member's value.
pub open spec fn json_text_members(pairs: Seq<(Seq<char>, JsonModel)>) -> Seq<char>
    decreases pairs,
{
    if pairs.len() == 0 {
        Seq::empty()
    } else if pairs.len() == 1 {
        json_text_member(pairs[0])
    } else {
        json_text_members(pairs.drop_last()) + seq![','] + json_text_member(pairs.last())
    }
}

/// One object member.
pub open spec fn json_text_member(pair: (Seq<char>, JsonModel)) -> Seq<char>
    decreases pair,
{
    seq!['"'] + escape_text(pair.0) + seq!['"', ':'] + json_text(pair.1)
}

/// Appends one character to a string.
///
/// Relies on `std::string::String::push`, which appends the given character
/// to the end of the string.
#[verifier::external_body]
pub(crate) fn push_char(out: &mut String, c: char)
    ensures
        final(out)@ == old(out)@.push(c),
{
    out.push(c);
}

/// Appends the decimal rendering of `n`.
pub fn write_u64(n: u64, out: &mut String)
    ensures
        final(out)@ == old(out)@ + dec_digits(n as nat),
    decreases n,
{
    if n < 10 {
        push_char(out, DIGITS[n as usize]);
        assert(final(out)@ =~= old(out)@ + dec_digits(n as nat));
    } else {
        write_u64(n / 10, out);
        push_char(out, DIGITS[(n % 10) as usize]);
        assert(final(out)@ =~= old(out)@ + dec_digits(n as nat));
    }
}

/// Appends the decimal rendering of `n`, sign included.
pub fn write_i64(n: i64, out: &mut String)
    ensures
        final(out)@ == old(out)@ + int_text(n as int),
{
    if n >= 0 {
        write_u64(n as u64, out);
    } else {
        push_char(out, '-');
        let magnitude: u64 = if n == i64::MIN {
            9223372036854775808u64
        } else {
            (-n) as u64
        };
        write_u64(magnitude, out);
        assert(final(out)@ =~= old(out)@ + int_text(n as int));
    }
}

/// Appends `s` with every character escaped as JSON requires.
pub fn write_escaped(s: &String, out: &mut String)
    ensures
        final(out)@ == old(out)@ + escape_text(s@),
{
    let text = s.as_str();
    let n = text.unicode_len();
    let ghost base = old(out)@;
    let mut i: usize = 0;
    while i < n
        invariant
            n == s@.len(),
            i <= n,
            text@ == s@,
            out@ == base + escape_text(s@.take(i as int)),
        decreases n - i,
    {
        let c = text.get_char(i);
        let ghost before = out@;
        if c == '"' {
            push_char(out, '\\');
            push_char(out, '"');
        } else if c == '\\' {
            push_char(out, '\\');
            push_char(out, '\\');
        } else if c == '\u{8}' {
            push_char(out, '\\');
            push_char(out, 'b');
        } else if c == '\u{9}' {
            push_char(out, '\\');
            push_char(out, 't');
        } else if c == '\u{a}' {
            push_char(out, '\\');
            push_char(out, 'n');
        } else if c == '\u{c}' {
            push_char(out, '\\');
            push_char(out, 'f');
        } else if c == '\u{d}' {
            push_char(out, '\\');
            push_char(out, 'r');
        } else {
            let code = c as u32;
            if code < 0x20 {
                push_char(out, '\\');
                push_char(out, 'u');
                push_char(out, '0');
                push_char(out, '0');
                push_char(out, HEX_LOWER[(code / 16) as usize]);
                push_char(out, HEX_LOWER[(code % 16) as usize]);
            } else {
                push_char(out, c);
            }
        }
        proof {
            assert(out@ =~= before + escape_char(c));
            assert(s@.take(i + 1).drop_last() =~= s@.take(i as int));
            assert(out@ =~= base + escape_text(s@.take(i + 1)));
        }
        i += 1;
    }
    proof {
        assert(s@.take(n as int) =~= s@);
    }
}

/// Appends the compact serialization of `v`.
#[verifier::loop_isolation(false)]
#[verifier::rlimit(30)]
pub fn write_json(v: &JsonValue, out: &mut String)
    ensures
        final(out)@ == old(out)@ + json_text(json_model(*v)),
    decreases *v,
{
    match v {
        JsonValue::Null => {
            out.append("null");
        },
        JsonValue::Bool(b) => {
            if *b {
                out.append("true");
            } else {
                out.append("false");
            }
        },
        JsonValue::IntNum(n) => {
            write_i64(*n, out);
        },
        JsonValue::RawNum(s) => {
            out.append(s.as_str());
        },
        JsonValue::Text(s) => {
            let ghost base = old(out)@;
            push_char(out, '"');
            write_escaped(s, out);
            push_char(out, '"');
            assert(final(out)@ =~= base + json_text(json_model(*v)));
        },
        JsonValue::Arr(items) => {
            let ghost base = old(out)@;
            let ghost m = json_model_seq(items@);
            proof {
                lemma_json_model_seq(items@);
            }
            push_char(out, '[');
            let mut i: usize = 0;
            while i < items.len()
                invariant
                    m == json_model_seq(items@),
                    m.len() == items@.len(),
                    forall|j: int| 0 <= j < items@.len() ==> m[j] == json_model(items@[j]),
                    i <= items.len(),
                    out@ == base + seq!['['] + json_text_items(m.take(i as int)),
                decreases items.len() - i,
            {
                let ghost before = out@;
                if i > 0 {
                    push_char(out, ',');
                }
                proof {
                    assert(v->Arr_0 == *items);
                    assert(decreases_to!(*v => v->Arr_0));
                    assert(decreases_to!(*items => items@));
                    assert(decreases_to!(items@ => items@[i as int]));
                    assert(decreases_to!(*v => items@[i as int]));
                }
                write_json(&items[i], out);
                proof {
                    assert(m.take(i + 1).drop_last() =~= m.take(i as int));
                    assert(m.take(i + 1).last() == m[i as int]);
                    if i > 0 {
                        assert(out@ =~= before + seq![','] + json_text(m[i as int]));
                    }
                    assert(out@ =~= base + seq!['['] + json_text_items(m.take(i + 1)));
                }
                i += 1;
            }
            proof {
                assert(m.take(items@.len() as int) =~= m);
            }
            push_char(out, ']');
            assert(final(out)@ =~= base + json_text(json_model(*v)));
        },
        JsonValue::Obj(pairs) => {
            let ghost base = old(out)@;
            let ghost m = json_model_pairs(pairs@);
            proof {
                lemma_json_model_pairs(pairs@);
            }
            push_char(out, '{');
            let mut i: usize = 0;
            while i < pairs.len()
                invariant
                    m == json_model_pairs(pairs@),
                    m.len() == pairs@.len(),
                    forall|j: int| 0 <= j < pairs@.len() ==> m[j] == (pairs@[j].0@, json_model(
                        pairs@[j].1,
                    )),
                    i <= pairs.len(),
                    out@ == base + seq!['{'] + json_text_members(m.take(i as int)),
                decreases pairs.len() - i,
            {
                let ghost before = out@;
                if i > 0 {
                    push_char(out, ',');
                }
                let pair = &pairs[i];
                push_char(out, '"');
                write_escaped(&pair.0, out);
                push_char(out, '"');
                push_char(out, ':');
                proof {
                    assert(v->Obj_0 == *pairs);
                    assert(decreases_to!(*v => v->Obj_0));
                    assert(decreases_to!(*pairs => pairs@));
                    assert(decreases_to!(pairs@ => pairs@[i as int]));
                    assert(decreases_to!(pairs@[i as int] => pairs@[i as int].1));
                    assert(decreases_to!(*v => pairs@[i as int].1));
                }
                write_json(&pair.1, out);
                proof {
                    assert(m.take(i + 1).drop_last() =~= m.take(i as int));
                    assert(m.take(i + 1).last() == m[i as int]);
                    let sep: Seq<char> = if i > 0 {
                        seq![',']
                    } else {
                        Seq::empty()
                    };
                    assert(out@ =~= before + sep + json_text_member(m[i as int]));
                    assert(out@ =~= base + seq!['{'] + json_text_members(m.take(i + 1)));
                }
                i += 1;
            }
            proof {
                assert(m.take(pairs@.len() as int) =~= m);
            }
            push_char(out, '}');
            assert(final(out)@ =~= base + json_text(json_model(*v)));
        },
    }
}

/// The compact serialization of `v` as a fresh string.
pub fn json_to_string(v: &JsonValue) -> (r: String)
    ensures
        r@ == json_text(json_model(*v)),
{
    let mut out = String::new();
    write_json(v, &mut out);
    proof {
        assert(out@ =~= json_text(json_model(*v)));
    }
    out
}

} // verus!
