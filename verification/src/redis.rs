//! The publisher side: how a batch of events becomes Redis commands.
//!
//! Everything Redis-visible is specified here: the channel names, the
//! per-event fan-out (one publish on the collection channel, one on the
//! document channel, one per non-empty namespace), the argument layout of
//! the server-side script, what the script does — including deduplication —
//! and the retry policy around its invocation. The unverified edge only
//! ships the prepared arguments and reports each attempt's outcome.

use crate::config::Config;
use crate::csv::{nonempty_segments, split_nonempty};
use crate::ejson::binaries_fit;
use crate::event::{payload_text, Event};
use crate::json::dec_digits;
use crate::value::bson_model;
use vstd::prelude::*;

verus! {

/// The server-side script run when deduplication is on: per event, skip it
/// if its key is present, else set the key with the TTL and publish to the
/// collection channel, the document channel, and every namespace channel.
pub const SCRIPT_WITH_DEDUPLICATION: &'static str = r#"
    for index = 1, tonumber(ARGV[1]) do
        if redis.call("GET", KEYS[index]) == false then
            local offset = index * 6 - 5
            redis.call("SETEX", KEYS[index], ARGV[offset + 6], 1)
            redis.call("PUBLISH", ARGV[offset + 1] .. '.' .. ARGV[offset + 2], ARGV[offset + 5])
            redis.call("PUBLISH", ARGV[offset + 1] .. '.' .. ARGV[offset + 2] .. '::' .. ARGV[offset + 4], ARGV[offset + 5])
            for namespace in ARGV[offset + 3]:gmatch('[^,]+') do
                redis.call("PUBLISH", ARGV[offset + 1] .. '.' .. namespace .. '::' .. ARGV[offset + 4], ARGV[offset + 5])
            end
        end
    end
"#;

/// The server-side script run without deduplication: the same three publish
/// groups for every event.
pub const SCRIPT_WITHOUT_DEDUPLICATION: &'static str = r#"
    for index = 1, tonumber(ARGV[1]) do
        local offset = index * 5 - 4
        redis.call("PUBLISH", ARGV[offset + 1] .. '.' .. ARGV[offset + 2], ARGV[offset + 5])
        redis.call("PUBLISH", ARGV[offset + 1] .. '.' .. ARGV[offset + 2] .. '::' .. ARGV[offset + 4], ARGV[offset + 5])
        for namespace in ARGV[offset + 3]:gmatch('[^,]+') do
            redis.call("PUBLISH", ARGV[offset + 1] .. '.' .. namespace .. '::' .. ARGV[offset + 4], ARGV[offset + 5])
        end
    end
"#;

/// The publisher's decisions: which script runs, how publishes are retried,
/// and whether events are echoed to the log first. The connection itself
/// lives outside the library.
pub struct Redis {
    /// The deduplication TTL in seconds, when deduplication is on.
    pub deduplication: Option<u64>,
    /// How many times an I/O-failed publish may be retried.
    pub publish_retry_count: u64,
    /// Echo each event before publishing.
    pub debug: bool,
}

impl Redis {
    /// Takes the publisher's settings from the configuration.
    pub fn new(config: &Config) -> (r: Redis)
        ensures
            r.deduplication == config.deduplication,
            r.publish_retry_count == config.redis_publish_retry_count,
            r.debug == config.debug,
    {
        Redis {
            deduplication: match config.deduplication {
                Some(ttl) => Some(ttl),
                None => None,
            },
            publish_retry_count: config.redis_publish_retry_count,
            debug: config.debug,
        }
    }

    /// The script this publisher ships: the deduplicating one exactly when
    /// deduplication is configured.
    pub fn script_source(&self) -> (r: &'static str)
        ensures
            self.deduplication is Some ==> r@ == SCRIPT_WITH_DEDUPLICATION@,
            self.deduplication is None ==> r@ == SCRIPT_WITHOUT_DEDUPLICATION@,
    {
        match self.deduplication {
            Some(_) => SCRIPT_WITH_DEDUPLICATION,
            None => SCRIPT_WITHOUT_DEDUPLICATION,
        }
    }
}

/// The channel all of a collection's events go to: `db.collection`.
pub open spec fn collection_channel(e: Event) -> Seq<char> {
    e.db@ + "."@ + e.collection@
}

/// The per-document subchannel: `db.collection::document_id`.
pub open spec fn document_channel(e: Event) -> Seq<char> {
    e.db@ + "."@ + e.collection@ + "::"@ + e.document_id@
}

/// A namespace subchannel: `db.namespace::document_id` — keyed by the
/// namespace value, but still joined on the original document.
pub open spec fn namespace_channel(e: Event, ns: Seq<char>) -> Seq<char> {
    e.db@ + "."@ + ns + "::"@ + e.document_id@
}

/// One `PUBLISH` command: its channel and its payload.
pub struct PublishCmd {
    pub channel: String,
    pub payload: String,
}

/// The channel and payload texts of a command sequence.
pub open spec fn cmds_model(cmds: Seq<PublishCmd>) -> Seq<(Seq<char>, Seq<char>)> {
    Seq::new(cmds.len(), |i: int| (cmds[i].channel@, cmds[i].payload@))
}

/// The `PUBLISH` commands one event fans out to, in script order: the
/// collection channel, the document channel, then one per non-empty
/// namespace segment, all carrying the event's EJSON payload.
pub open spec fn event_cmds(e: Event) -> Seq<(Seq<char>, Seq<char>)> {
    let p = payload_text(e.operation);
    let segs = nonempty_segments(e.namespaces@);
    seq![(collection_channel(e), p), (document_channel(e), p)] + Seq::new(
        segs.len(),
        |j: int| (namespace_channel(e, segs[j]), p),
    )
}

/// The commands a whole batch emits: each event's commands, in batch order.
pub open spec fn batch_cmds(events: Seq<Event>) -> Seq<(Seq<char>, Seq<char>)>
    decreases events,
{
    if events.len() == 0 {
        Seq::empty()
    } else {
        batch_cmds(events.drop_last()) + event_cmds(events.last())
    }
}

/// Deterministic ordering: the batch's command sequence is exactly the
/// events' own command groups laid end to end in event order — everything
/// event `i` publishes comes after everything earlier events publish and
/// before everything later events publish.
pub proof fn lemma_publish_order(events: Seq<Event>, i: int)
    requires
        0 <= i < events.len(),
    ensures
        batch_cmds(events) =~= batch_cmds(events.take(i)) + event_cmds(events[i]) + batch_cmds(
            events.skip(i + 1),
        ),
    decreases events.len(),
{
    if i == events.len() - 1 {
        assert(events.take(i) =~= events.drop_last());
        assert(events.skip(i + 1) =~= Seq::<Event>::empty());
    } else {
        lemma_publish_order(events.drop_last(), i);
        assert(events.drop_last().take(i) =~= events.take(i));
        assert(events.drop_last()[i] == events[i]);
        assert(events.skip(i + 1).drop_last() =~= events.drop_last().skip(i + 1));
        assert(events.skip(i + 1).last() == events.last());
        assert(batch_cmds(events.skip(i + 1)) =~= batch_cmds(events.drop_last().skip(i + 1))
            + event_cmds(events.last()));
        assert(batch_cmds(events) =~= batch_cmds(events.take(i)) + event_cmds(events[i])
            + batch_cmds(events.skip(i + 1)));
    }
}

/// Builds one channel name: `db.middle` or `db.middle::tail`.
fn channel_name(db: &String, middle: &String, tail: Option<&String>) -> (r: String)
    ensures
        match tail {
            Some(t) => r@ == db@ + "."@ + middle@ + "::"@ + t@,
            None => r@ == db@ + "."@ + middle@,
        },
{
    let mut out = db.clone();
    out.append(".");
    out.append(middle.as_str());
    match tail {
        Some(t) => {
            out.append("::");
            out.append(t.as_str());
        },
        None => {},
    }
    out
}

/// The `PUBLISH` commands for one event, in script order — exactly
/// `2 + n` commands, where `n` is the number of non-empty comma-delimited
/// segments of the event's namespaces.
pub fn event_publishes(e: &Event) -> (r: Vec<PublishCmd>)
    requires
        binaries_fit(bson_model(e.operation)),
    ensures
        cmds_model(r@) == event_cmds(*e),
        r@.len() == 2 + nonempty_segments(e.namespaces@).len(),
{
    let payload = e.payload();
    let mut cmds: Vec<PublishCmd> = Vec::new();
    cmds.push(
        PublishCmd { channel: channel_name(&e.db, &e.collection, None), payload: payload.clone() },
    );
    cmds.push(
        PublishCmd {
            channel: channel_name(&e.db, &e.collection, Some(&e.document_id)),
            payload: payload.clone(),
        },
    );
    let ghost segs = nonempty_segments(e.namespaces@);
    let parts = split_nonempty(&e.namespaces);
    let mut i: usize = 0;
    while i < parts.len()
        invariant
            segs == nonempty_segments(e.namespaces@),
            parts.deep_view() == segs,
            parts.deep_view().len() == parts@.len(),
            i <= parts@.len(),
            payload@ == payload_text(e.operation),
            cmds@.len() == 2 + i,
            cmds@[0].channel@ == collection_channel(*e),
            cmds@[1].channel@ == document_channel(*e),
            forall|j: int|
                0 <= j < i ==> cmds@[2 + j].channel@ == namespace_channel(
                    *e,
                    #[trigger] segs[j],
                ),
            forall|j: int|
                0 <= j < cmds@.len() ==> (#[trigger] cmds@[j]).payload@ == payload_text(
                    e.operation,
                ),
        decreases parts@.len() - i,
    {
        proof {
            assert(parts.deep_view()[i as int] == parts@[i as int]@);
        }
        cmds.push(
            PublishCmd {
                channel: channel_name(&e.db, &parts[i], Some(&e.document_id)),
                payload: payload.clone(),
            },
        );
        i += 1;
    }
    proof {
        assert(cmds_model(cmds@) =~= event_cmds(*e));
    }
    cmds
}

/// A prepared script invocation: the Redis keys (the deduplication keys,
/// when deduplication is on) and the argument list.
pub struct Invocation {
    pub keys: Vec<String>,
    pub args: Vec<String>,
}

impl Redis {
    /// Lays out the script's arguments for a batch: the batch size first,
    /// then per event its database, collection, namespaces, document id and
    /// EJSON payload — plus, with deduplication, the TTL as a sixth slot
    /// and the event's key in the key list.
    pub fn build_invocation(&self, events: &Vec<Event>) -> (r: Invocation)
        requires
            batch_wf(events@),
        ensures
            ({
                let s: int = if self.deduplication is Some {
                    6
                } else {
                    5
                };
                &&& r.args@.len() == 1 + s * events@.len()
                &&& r.args@[0]@ == dec_digits(events@.len() as nat)
                &&& forall|i: int|
                    0 <= i < events@.len() ==> {
                        &&& (#[trigger] r.args@[1 + s * i])@ == events@[i].db@
                        &&& r.args@[2 + s * i]@ == events@[i].collection@
                        &&& r.args@[3 + s * i]@ == events@[i].namespaces@
                        &&& r.args@[4 + s * i]@ == events@[i].document_id@
                        &&& r.args@[5 + s * i]@ == payload_text(events@[i].operation)
                    }
                &&& match self.deduplication {
                    Option::Some(ttl) => {
                        &&& forall|i: int|
                            0 <= i < events@.len() ==> (#[trigger] r.args@[6 + s * i])@
                                == dec_digits(ttl as nat)
                        &&& r.keys@.len() == events@.len()
                        &&& forall|i: int|
                            0 <= i < events@.len() ==> (#[trigger] r.keys@[i])@
                                == events@[i].event_id@
                    },
                    Option::None => r.keys@.len() == 0,
                }
            }),
    {
        let stride: usize = match self.deduplication {
            Some(_) => 6,
            None => 5,
        };
        let ghost s: int = stride as int;
        let mut ttl_text = String::new();
        match self.deduplication {
            Some(ttl) => {
                crate::json::write_u64(ttl, &mut ttl_text);
                proof {
                    assert(ttl_text@ =~= dec_digits(ttl as nat));
                }
            },
            None => {},
        }
        let mut count_text = String::new();
        crate::json::write_u64(events.len() as u64, &mut count_text);
        proof {
            assert(count_text@ =~= dec_digits(events@.len() as nat));
        }
        let mut args: Vec<String> = Vec::new();
        let mut keys: Vec<String> = Vec::new();
        args.push(count_text);
        let mut i: usize = 0;
        while i < events.len()
            invariant
                batch_wf(events@),
                i <= events@.len(),
                s == (if self.deduplication is Some {
                    6int
                } else {
                    5int
                }),
                stride == s,
                self.deduplication is Some ==> ttl_text@ == dec_digits(
                    (self.deduplication->0) as nat,
                ),
                args@.len() == 1 + s * i,
                args@[0]@ == dec_digits(events@.len() as nat),
                forall|j: int|
                    0 <= j < i ==> {
                        &&& (#[trigger] args@[1 + s * j])@ == events@[j].db@
                        &&& args@[2 + s * j]@ == events@[j].collection@
                        &&& args@[3 + s * j]@ == events@[j].namespaces@
                        &&& args@[4 + s * j]@ == events@[j].document_id@
                        &&& args@[5 + s * j]@ == payload_text(events@[j].operation)
                    },
                self.deduplication is Some ==> forall|j: int|
                    0 <= j < i ==> (#[trigger] args@[6 + s * j])@ == dec_digits(
                        (self.deduplication->0) as nat,
                    ),
                keys@.len() == (if self.deduplication is Some {
                    i as int
                } else {
                    0int
                }),
                forall|j: int|
                    0 <= j < keys@.len() ==> (#[trigger] keys@[j])@ == events@[j].event_id@,
            decreases events@.len() - i,
        {
            let ghost base = args@;
            let e = &events[i];
            args.push(e.db.clone());
            args.push(e.collection.clone());
            args.push(e.namespaces.clone());
            args.push(e.document_id.clone());
            args.push(e.payload());
            match self.deduplication {
                Some(_) => {
                    args.push(ttl_text.clone());
                    keys.push(e.event_id.clone());
                },
                None => {},
            }
            proof {
                let ii = i as int;
                assert(args@[1 + s * ii]@ == events@[ii].db@);
                assert(args@[2 + s * ii]@ == events@[ii].collection@);
                assert(args@[3 + s * ii]@ == events@[ii].namespaces@);
                assert(args@[4 + s * ii]@ == events@[ii].document_id@);
                assert(args@[5 + s * ii]@ == payload_text(events@[ii].operation));
                if self.deduplication is Some {
                    assert(args@[6 + s * ii]@ == dec_digits((self.deduplication->0) as nat));
                }
                assert forall|j: int| 0 <= j < ii implies {
                    &&& (#[trigger] args@[1 + s * j]) == base[1 + s * j]
                    &&& args@[2 + s * j] == base[2 + s * j]
                    &&& args@[3 + s * j] == base[3 + s * j]
                    &&& args@[4 + s * j] == base[4 + s * j]
                    &&& args@[5 + s * j] == base[5 + s * j]
                    &&& (s == 6 ==> args@[6 + s * j] == base[6 + s * j])
                } by {
                    assert(5 + s * j <= s * ii) by (nonlinear_arith)
                        requires 5 <= s, 0 <= j, j < ii;
                    if s == 6 {
                        assert(6 + s * j <= s * ii) by (nonlinear_arith)
                            requires s == 6, 0 <= j, j < ii;
                    }
                }
            }
            i += 1;
        }
        Invocation { keys, args }
    }
}

/// Every event of the batch has encodable binaries.
pub open spec fn batch_wf(events: Seq<Event>) -> bool {
    forall|i: int| 0 <= i < events.len() ==> binaries_fit(
        bson_model((#[trigger] events[i]).operation),
    )
}

/// The `PUBLISH` commands a whole batch emits without deduplication, in
/// order: event by event, each fanned out as [`event_publishes`] says.
pub fn batch_publishes(events: &Vec<Event>) -> (r: Vec<PublishCmd>)
    requires
        batch_wf(events@),
    ensures
        cmds_model(r@) == batch_cmds(events@),
{
    let mut cmds: Vec<PublishCmd> = Vec::new();
    let mut i: usize = 0;
    while i < events.len()
        invariant
            batch_wf(events@),
            i <= events@.len(),
            cmds_model(cmds@) == batch_cmds(events@.take(i as int)),
        decreases events@.len() - i,
    {
        let ghost prev = cmds@;
        let mut group = event_publishes(&events[i]);
        let ghost group_snap = group@;
        cmds.append(&mut group);
        proof {
            assert(cmds@ == prev + group_snap);
            assert(events@.take(i + 1).drop_last() =~= events@.take(i as int));
            assert(events@.take(i + 1).last() == events@[i as int]);
            assert(cmds_model(cmds@) =~= cmds_model(prev) + cmds_model(group_snap));
            assert(cmds_model(cmds@) =~= batch_cmds(events@.take(i + 1)));
        }
        i += 1;
    }
    proof {
        assert(events@.take(events@.len() as int) =~= events@);
    }
    cmds
}

/// The deduplication keys Redis holds: each key with the moment it
/// expires.
pub struct DedupState {
    pub entries: Vec<(String, u64)>,
}

/// The entries as key texts and expiry times.
pub open spec fn state_model(s: DedupState) -> Seq<(Seq<char>, int)> {
    Seq::new(s.entries@.len(), |i: int| (s.entries@[i].0@, s.entries@[i].1 as int))
}

/// Is `key` present and unexpired at time `now`? (`SETEX` with TTL `t` at
/// time `s` keeps the key until `s + t`.)
pub open spec fn key_live(entries: Seq<(Seq<char>, int)>, key: Seq<char>, now: int) -> bool {
    exists|i: int| 0 <= i < entries.len() && (#[trigger] entries[i]).0 == key && now < entries[i].1
}

/// The keys Redis holds after the deduplicating script runs a batch at time
/// `now`: each event whose key was free adds its key with expiry
/// `now + ttl`.
pub open spec fn dedup_entries_after(
    entries: Seq<(Seq<char>, int)>,
    now: int,
    ttl: int,
    batch: Seq<Event>,
) -> Seq<(Seq<char>, int)>
    decreases batch,
{
    if batch.len() == 0 {
        entries
    } else {
        let prior = dedup_entries_after(entries, now, ttl, batch.drop_last());
        if key_live(prior, batch.last().event_id@, now) {
            prior
        } else {
            prior.push((batch.last().event_id@, now + ttl))
        }
    }
}

/// The `PUBLISH` commands the deduplicating script emits for a batch at
/// time `now`: each event's full fan-out if its key was free when its slot
/// ran, nothing otherwise.
pub open spec fn dedup_cmds(
    entries: Seq<(Seq<char>, int)>,
    now: int,
    ttl: int,
    batch: Seq<Event>,
) -> Seq<(Seq<char>, Seq<char>)>
    decreases batch,
{
    if batch.len() == 0 {
        Seq::empty()
    } else {
        let prior = dedup_entries_after(entries, now, ttl, batch.drop_last());
        dedup_cmds(entries, now, ttl, batch.drop_last()) + (
        if key_live(prior, batch.last().event_id@, now) {
            Seq::<(Seq<char>, Seq<char>)>::empty()
        } else {
            event_cmds(batch.last())
        })
    }
}

/// Is the key live now? — the script's `GET` check.
fn is_key_live(state: &DedupState, key: &String, now: u64) -> (r: bool)
    ensures
        r == key_live(state_model(*state), key@, now as int),
{
    let mut i: usize = 0;
    let mut found = false;
    while i < state.entries.len()
        invariant
            i <= state.entries@.len(),
            found == exists|j: int|
                0 <= j < i && (#[trigger] state_model(*state)[j]).0 == key@ && (now as int)
                    < state_model(*state)[j].1,
        decreases state.entries@.len() - i,
    {
        let entry = &state.entries[i];
        if entry.0 == *key && now < entry.1 {
            proof {
                assert(state_model(*state)[i as int].0 == key@ && (now as int) < state_model(
                    *state,
                )[i as int].1);
            }
            found = true;
        }
        proof {
            let entries_view = state.entries@;
            assert(state_model(*state)[i as int] == (
                entries_view[i as int].0@,
                entries_view[i as int].1 as int,
            ));
        }
        i += 1;
    }
    found
}

/// Runs one deduplicated batch against the modeled key store: emits exactly
/// what the script would publish at time `now` and records the keys the
/// script would set.
pub fn run_deduplicated(state: &mut DedupState, now: u64, ttl: u64, events: &Vec<Event>) -> (r:
    Vec<PublishCmd>)
    requires
        batch_wf(events@),
        now + ttl <= u64::MAX,
    ensures
        cmds_model(r@) == dedup_cmds(state_model(*old(state)), now as int, ttl as int, events@),
        state_model(*final(state)) == dedup_entries_after(
            state_model(*old(state)),
            now as int,
            ttl as int,
            events@,
        ),
{
    let ghost orig = state_model(*old(state));
    let mut cmds: Vec<PublishCmd> = Vec::new();
    let mut i: usize = 0;
    while i < events.len()
        invariant
            batch_wf(events@),
            now + ttl <= u64::MAX,
            i <= events@.len(),
            cmds_model(cmds@) == dedup_cmds(orig, now as int, ttl as int, events@.take(i as int)),
            state_model(*state) == dedup_entries_after(
                orig,
                now as int,
                ttl as int,
                events@.take(i as int),
            ),
        decreases events@.len() - i,
    {
        let e = &events[i];
        let ghost prior = state_model(*state);
        let live = is_key_live(state, &e.event_id, now);
        if !live {
            let ghost prev_entries = state.entries@;
            state.entries.push((e.event_id.clone(), now + ttl));
            let ghost prev_cmds = cmds@;
            let mut group = event_publishes(e);
            let ghost group_snap = group@;
            cmds.append(&mut group);
            proof {
                assert(state_model(*state) =~= prior.push((events@[i as int].event_id@, now
                    + ttl)));
                assert(cmds_model(cmds@) =~= cmds_model(prev_cmds) + cmds_model(group_snap));
            }
        }
        proof {
            assert(events@.take(i + 1).drop_last() =~= events@.take(i as int));
            assert(events@.take(i + 1).last() == events@[i as int]);
            assert(cmds_model(cmds@) =~= dedup_cmds(orig, now as int, ttl as int, events@.take(
                i + 1,
            )));
        }
        i += 1;
    }
    proof {
        assert(events@.take(events@.len() as int) =~= events@);
    }
    cmds
}

/// Deduplication idempotence: a fresh event publishes its full fan-out and
/// records its key; the same event within the TTL window publishes
/// nothing; after the TTL has passed, it publishes the full fan-out again.
pub proof fn lemma_dedup_idempotent(
    entries: Seq<(Seq<char>, int)>,
    now1: int,
    now2: int,
    now3: int,
    ttl: int,
    e: Event,
)
    requires
        ttl > 0,
        forall|i: int| 0 <= i < entries.len() ==> (#[trigger] entries[i]).0 != e.event_id@,
        now1 <= now2 < now1 + ttl,
        now1 + ttl <= now3,
    ensures
        dedup_cmds(entries, now1, ttl, seq![e]) == event_cmds(e),
        ({
            let after_first = dedup_entries_after(entries, now1, ttl, seq![e]);
            &&& dedup_cmds(after_first, now2, ttl, seq![e]) == Seq::<
                (Seq<char>, Seq<char>),
            >::empty()
            &&& dedup_cmds(
                dedup_entries_after(after_first, now2, ttl, seq![e]),
                now3,
                ttl,
                seq![e],
            ) == event_cmds(e)
        }),
{
    let single = seq![e];
    assert(single.drop_last() =~= Seq::<Event>::empty());
    assert(single.last() == e);
    let key = e.event_id@;
    let empty_batch = Seq::<Event>::empty();
    let no_cmds = Seq::<(Seq<char>, Seq<char>)>::empty();
    assert(!key_live(entries, key, now1)) by {
        if key_live(entries, key, now1) {
            let i = choose|i: int|
                0 <= i < entries.len() && (#[trigger] entries[i]).0 == key && now1 < entries[i].1;
            assert(entries[i].0 != key);
        }
    }
    assert(dedup_cmds(entries, now1, ttl, empty_batch) =~= no_cmds);
    assert(dedup_entries_after(entries, now1, ttl, empty_batch) == entries);
    assert(dedup_cmds(entries, now1, ttl, single) =~= event_cmds(e));
    let after_first = dedup_entries_after(entries, now1, ttl, single);
    assert(after_first =~= entries.push((key, now1 + ttl)));
    assert(key_live(after_first, key, now2)) by {
        assert(after_first[entries.len() as int].0 == key && now2 < after_first[entries.len()
            as int].1);
    }
    assert(dedup_cmds(after_first, now2, ttl, empty_batch) =~= no_cmds);
    assert(dedup_entries_after(after_first, now2, ttl, empty_batch) == after_first);
    assert(dedup_cmds(after_first, now2, ttl, single) =~= no_cmds);
    let after_second = dedup_entries_after(after_first, now2, ttl, single);
    assert(after_second == after_first);
    assert(!key_live(after_second, key, now3)) by {
        assert forall|i: int|
            0 <= i < after_second.len() implies !((#[trigger] after_second[i]).0 == key && now3
            < after_second[i].1) by {
            if i < entries.len() {
                assert(after_second[i] == entries[i]);
            } else {
                assert(after_second[i] == (key, now1 + ttl));
            }
        }
    }
    assert(dedup_cmds(after_second, now3, ttl, empty_batch) =~= no_cmds);
    assert(dedup_entries_after(after_second, now3, ttl, empty_batch) == after_second);
    assert(dedup_cmds(after_second, now3, ttl, single) =~= event_cmds(e));
}

/// How one publish attempt ended, as the connection edge classifies it:
/// I/O failures may be retried, anything else is final.
pub enum AttemptOutcome {
    Success,
    IoError,
    OtherError,
}

/// What the publisher does after an attempt.
pub enum RetryAction {
    /// Delivered; stop.
    Finish,
    /// Give up and surface the error.
    Fail,
    /// Try again.
    Retry,
}

/// The retry rule: success finishes; a non-I/O error fails at once; an I/O
/// error is retried until the budget (`retry_limit` retries after the
/// first attempt) is spent.
pub open spec fn retry_action_of(attempt: int, retry_limit: int, outcome: AttemptOutcome)
    -> RetryAction {
    match outcome {
        AttemptOutcome::Success => RetryAction::Finish,
        AttemptOutcome::OtherError => RetryAction::Fail,
        AttemptOutcome::IoError => if attempt >= retry_limit {
            RetryAction::Fail
        } else {
            RetryAction::Retry
        },
    }
}

/// Decides what to do after attempt number `attempt` (counted from zero)
/// ended with `outcome`.
pub fn retry_action(attempt: u64, retry_limit: u64, outcome: &AttemptOutcome) -> (r: RetryAction)
    ensures
        r == retry_action_of(attempt as int, retry_limit as int, *outcome),
{
    match outcome {
        AttemptOutcome::Success => RetryAction::Finish,
        AttemptOutcome::OtherError => RetryAction::Fail,
        AttemptOutcome::IoError => if attempt >= retry_limit {
            RetryAction::Fail
        } else {
            RetryAction::Retry
        },
    }
}

/// How many script invocations the publish loop makes, starting at attempt
/// number `attempt`, when successive attempts end as `outcomes` says; the
/// loop stops at the first outcome whose action is not `Retry`.
pub open spec fn attempts_used(outcomes: Seq<AttemptOutcome>, retry_limit: int, attempt: int)
    -> int
    decreases outcomes,
{
    if outcomes.len() == 0 {
        0
    } else if retry_action_of(attempt, retry_limit, outcomes.first()) is Retry {
        1 + attempts_used(outcomes.drop_first(), retry_limit, attempt + 1)
    } else {
        1
    }
}

/// Generalized retry bound, from any starting attempt number.
proof fn lemma_retry_bound_from(outcomes: Seq<AttemptOutcome>, retry_limit: int, attempt: int)
    requires
        0 <= attempt,
    ensures
        attempts_used(outcomes, retry_limit, attempt) <= if retry_limit + 1 - attempt >= 1 {
            retry_limit + 1 - attempt
        } else {
            1int
        },
        attempts_used(outcomes, retry_limit, attempt) <= outcomes.len(),
        forall|k: int|
            0 <= k < attempts_used(outcomes, retry_limit, attempt) - 1 ==> outcomes[k]
                is IoError,
    decreases outcomes,
{
    if outcomes.len() > 0 && retry_action_of(attempt, retry_limit, outcomes.first()) is Retry {
        lemma_retry_bound_from(outcomes.drop_first(), retry_limit, attempt + 1);
        assert forall|k: int|
            0 <= k < attempts_used(outcomes, retry_limit, attempt) - 1 implies outcomes[k]
            is IoError by {
            if k > 0 {
                assert(outcomes.drop_first()[k - 1] == outcomes[k]);
            }
        }
    }
}

/// Retry semantics: the publisher invokes the script at most
/// `retry_limit + 1` times, and only I/O errors ever lead to another
/// attempt — a success or any other error ends the loop at once.
pub proof fn lemma_retry_bound(outcomes: Seq<AttemptOutcome>, retry_limit: int)
    requires
        retry_limit >= 0,
    ensures
        attempts_used(outcomes, retry_limit, 0) <= retry_limit + 1,
        forall|k: int|
            0 <= k < attempts_used(outcomes, retry_limit, 0) - 1 ==> outcomes[k] is IoError,
{
    lemma_retry_bound_from(outcomes, retry_limit, 0);
}

} // verus!
