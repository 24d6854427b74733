//! Comma-separated lists, as both the configuration and the namespace
//! fan-out use them.
//!
//! `csv_segments` is the plain split: every comma starts a new segment, and
//! the empty string is one empty segment. `nonempty_segments` drops the
//! empty pieces, which is how the publisher reads an event's `namespaces`
//! field.

use vstd::prelude::*;

verus! {

/// The segments of `s` split at every comma; always at least one segment,
/// and empty segments are kept.
pub open spec fn csv_segments(s: Seq<char>) -> Seq<Seq<char>>
    decreases s,
{
    if s.len() == 0 {
        seq![Seq::empty()]
    } else {
        let rest = csv_segments(s.drop_last());
        if s.last() == ',' {
            rest.push(Seq::empty())
        } else {
            rest.update(rest.len() - 1, rest.last().push(s.last()))
        }
    }
}

/// Splitting never yields an empty list of segments.
pub proof fn lemma_csv_segments_len(s: Seq<char>)
    ensures
        csv_segments(s).len() >= 1,
    decreases s,
{
    if s.len() > 0 {
        lemma_csv_segments_len(s.drop_last());
    }
}

/// The subsequence of non-empty segments, order kept.
pub open spec fn nonempty_of(segs: Seq<Seq<char>>) -> Seq<Seq<char>>
    decreases segs,
{
    if segs.len() == 0 {
        Seq::empty()
    } else {
        let rest = nonempty_of(segs.drop_last());
        if segs.last().len() > 0 {
            rest.push(segs.last())
        } else {
            rest
        }
    }
}

/// The non-empty comma-delimited segments of `s`.
pub open spec fn nonempty_segments(s: Seq<char>) -> Seq<Seq<char>> {
    nonempty_of(csv_segments(s))
}

/// Splits `s` at every comma, keeping empty segments, as the configuration
/// reads its list-valued variables.
pub fn split_csv(s: &String) -> (r: Vec<String>)
    ensures
        r.deep_view() == csv_segments(s@),
{
    let text = s.as_str();
    let n = text.unicode_len();
    let mut done: Vec<String> = Vec::new();
    let mut cur = String::new();
    let mut i: usize = 0;
    while i < n
        invariant
            n == s@.len(),
            i <= n,
            text@ == s@,
            csv_segments(s@.take(i as int)) =~= done.deep_view().push(cur@),
        decreases n - i,
    {
        let c = text.get_char(i);
        if c == ',' {
            done.push(cur);
            cur = String::new();
        } else {
            crate::json::push_char(&mut cur, c);
        }
        proof {
            assert(s@.take(i + 1).drop_last() =~= s@.take(i as int));
            lemma_csv_segments_len(s@.take(i as int));
            assert(csv_segments(s@.take(i + 1)) =~= done.deep_view().push(cur@));
        }
        i += 1;
    }
    done.push(cur);
    proof {
        assert(s@.take(n as int) =~= s@);
    }
    done
}

/// Splits `s` at every comma and keeps only the non-empty segments, as the
/// publisher reads an event's namespaces.
pub fn split_nonempty(s: &String) -> (r: Vec<String>)
    ensures
        r.deep_view() == nonempty_segments(s@),
{
    let parts = split_csv(s);
    let ghost segs = csv_segments(s@);
    let mut out: Vec<String> = Vec::new();
    let mut i: usize = 0;
    while i < parts.len()
        invariant
            parts.deep_view() == segs,
            parts.deep_view().len() == parts@.len(),
            i <= parts@.len(),
            out.deep_view() =~= nonempty_of(segs.take(i as int)),
        decreases parts@.len() - i,
    {
        proof {
            assert(parts.deep_view()[i as int] == parts@[i as int]@);
        }
        if parts[i].as_str().unicode_len() > 0 {
            let ghost prev = out.deep_view();
            out.push(parts[i].clone());
            proof {
                assert(out.deep_view().drop_last() =~= prev);
                assert(out.deep_view().last() == segs[i as int]);
            }
        }
        proof {
            assert(segs.take(i + 1).drop_last() =~= segs.take(i as int));
            assert(out.deep_view() =~= nonempty_of(segs.take(i + 1)));
        }
        i += 1;
    }
    proof {
        assert(segs.take(segs.len() as int) =~= segs);
    }
    out
}

} // verus!
