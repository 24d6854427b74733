//! Configuration: the environment variables the bridge understands, parsed
//! and validated.
//!
//! The unverified edge reads the process environment and hands the raw
//! texts to [`Config::build`], which applies the defaults, parses every
//! number, and rejects malformed `NAMESPACES` entries — each failure with a
//! named, descriptive error.

use crate::csv::{csv_segments, split_csv};
use crate::mongo::FullDocumentKind;
use vstd::prelude::*;

verus! {

/// Is `c` a decimal digit?
pub open spec fn is_dec_digit(c: char) -> bool {
    48 <= c as u32 <= 57
}

/// The numeric value of a digit.
pub open spec fn digit_val(c: char) -> int {
    c as u32 - 48
}

/// Every character of `s` is a decimal digit.
pub open spec fn all_digits(s: Seq<char>) -> bool {
    forall|i: int| 0 <= i < s.len() ==> is_dec_digit(#[trigger] s[i])
}

/// The number the digit string `s` denotes.
pub open spec fn dec_val(s: Seq<char>) -> int
    decreases s,
{
    if s.len() == 0 {
        0
    } else {
        dec_val(s.drop_last()) * 10 + digit_val(s.last())
    }
}

/// `s` is a well-formed decimal that fits in a `u64`.
pub open spec fn parses_as_u64(s: Seq<char>) -> bool {
    s.len() > 0 && all_digits(s) && dec_val(s) <= u64::MAX
}

/// A digit string's value is never negative.
pub proof fn lemma_dec_val_nonneg(s: Seq<char>)
    requires
        all_digits(s),
    ensures
        dec_val(s) >= 0,
    decreases s,
{
    if s.len() > 0 {
        assert(all_digits(s.drop_last())) by {
            assert(forall|i: int|
                0 <= i < s.len() - 1 ==> s.drop_last()[i] == #[trigger] s[i]);
        }
        lemma_dec_val_nonneg(s.drop_last());
    }
}

/// Extending a digit string never shrinks its value.
pub proof fn lemma_dec_val_monotone(s: Seq<char>, k: int)
    requires
        all_digits(s),
        0 <= k <= s.len(),
    ensures
        dec_val(s.take(k)) <= dec_val(s),
    decreases s.len() - k,
{
    if k < s.len() {
        lemma_dec_val_monotone(s, k + 1);
        assert(s.take(k + 1).drop_last() =~= s.take(k));
        assert(all_digits(s.take(k + 1))) by {
            assert(forall|i: int|
                0 <= i < k + 1 ==> s.take(k + 1)[i] == #[trigger] s[i]);
        }
        lemma_dec_val_nonneg(s.take(k + 1).drop_last());
        assert(dec_val(s.take(k)) <= dec_val(s.take(k + 1)));
    } else {
        assert(s.take(k) =~= s);
    }
}

/// Parses a decimal `u64`: `Some` exactly on non-empty all-digit strings
/// whose value fits.
pub fn parse_u64(s: &String) -> (r: Option<u64>)
    ensures
        match r {
            Some(v) => parses_as_u64(s@) && v == dec_val(s@),
            None => !parses_as_u64(s@),
        },
{
    let text = s.as_str();
    let n = text.unicode_len();
    if n == 0 {
        return None;
    }
    let mut acc: u64 = 0;
    let mut i: usize = 0;
    while i < n
        invariant
            n == s@.len(),
            text@ == s@,
            0 < n,
            i <= n,
            all_digits(s@.take(i as int)),
            acc == dec_val(s@.take(i as int)),
        decreases n - i,
    {
        let c = text.get_char(i);
        let code = c as u32;
        if code < 48 || code > 57 {
            assert(!is_dec_digit(s@[i as int]));
            return None;
        }
        let d: u64 = (code - 48) as u64;
        if acc > (u64::MAX - d) / 10 {
            proof {
                assert(s@.take(i + 1).drop_last() =~= s@.take(i as int));
                assert(all_digits(s@.take(i + 1))) by {
                    assert(forall|j: int|
                        0 <= j < i + 1 ==> s@.take(i + 1)[j] == #[trigger] s@[j]);
                }
                assert(dec_val(s@.take(i + 1)) == acc * 10 + d);
                assert(acc * 10 + d > u64::MAX) by {
                    assert(acc >= (u64::MAX - d) / 10 + 1);
                    assert(((u64::MAX - d) / 10 + 1) * 10 + d > u64::MAX) by (nonlinear_arith);
                    assert(acc * 10 >= ((u64::MAX - d) / 10 + 1) * 10) by (nonlinear_arith)
                        requires acc >= (u64::MAX - d) / 10 + 1;
                }
                if all_digits(s@) {
                    lemma_dec_val_monotone(s@, i + 1);
                }
            }
            return None;
        }
        proof {
            assert(acc * 10 + d <= u64::MAX) by {
                assert(acc <= (u64::MAX - d) / 10);
                assert(acc * 10 <= ((u64::MAX - d) / 10) * 10) by (nonlinear_arith)
                    requires acc <= (u64::MAX - d) / 10;
                assert(((u64::MAX - d) / 10) * 10 <= u64::MAX - d) by (nonlinear_arith);
            }
        }
        acc = acc * 10 + d;
        proof {
            assert(s@.take(i + 1).drop_last() =~= s@.take(i as int));
            assert(all_digits(s@.take(i + 1))) by {
                assert(forall|j: int|
                    0 <= j < i + 1 ==> s@.take(i + 1)[j] == #[trigger] s@[j]);
            }
        }
        i += 1;
    }
    proof {
        assert(s@.take(n as int) =~= s@);
    }
    Some(acc)
}

/// How many dots `s` holds.
pub open spec fn dot_count(s: Seq<char>) -> int
    decreases s,
{
    if s.len() == 0 {
        0
    } else {
        dot_count(s.drop_last()) + if s.last() == '.' {
            1int
        } else {
            0int
        }
    }
}

/// A string with no dots counted has no dot anywhere.
pub proof fn lemma_dot_count_zero(s: Seq<char>)
    requires
        dot_count(s) == 0,
    ensures
        forall|i: int| 0 <= i < s.len() ==> s[i] != '.',
    decreases s,
{
    if s.len() > 0 {
        lemma_dot_count_nonneg(s.drop_last());
        assert(dot_count(s.drop_last()) == 0);
        assert(s.last() != '.');
        lemma_dot_count_zero(s.drop_last());
        assert forall|i: int| 0 <= i < s.len() implies s[i] != '.' by {
            if i < s.len() - 1 {
                assert(s.drop_last()[i] == s[i]);
            } else {
                assert(s[i] == s.last());
            }
        }
    }
}

/// Dot counts are never negative.
pub proof fn lemma_dot_count_nonneg(s: Seq<char>)
    ensures
        dot_count(s) >= 0,
    decreases s,
{
    if s.len() > 0 {
        lemma_dot_count_nonneg(s.drop_last());
    }
}

/// With exactly one dot counted, any two dot positions coincide.
pub proof fn lemma_dot_unique(s: Seq<char>, i: int, j: int)
    requires
        dot_count(s) == 1,
        0 <= i < s.len(),
        0 <= j < s.len(),
        s[i] == '.',
        s[j] == '.',
    ensures
        i == j,
    decreases s,
{
    lemma_dot_count_nonneg(s.drop_last());
    if s.last() == '.' {
        assert(dot_count(s.drop_last()) == 0);
        lemma_dot_count_zero(s.drop_last());
        if i < s.len() - 1 {
            assert(s.drop_last()[i] == s[i]);
        }
        if j < s.len() - 1 {
            assert(s.drop_last()[j] == s[j]);
        }
        assert(i == s.len() - 1);
        assert(j == s.len() - 1);
    } else {
        assert(i < s.len() - 1);
        assert(j < s.len() - 1);
        assert(s.drop_last()[i] == s[i]);
        assert(s.drop_last()[j] == s[j]);
        lemma_dot_unique(s.drop_last(), i, j);
    }
}

/// A `NAMESPACES` entry is valid when it holds exactly one dot with text on
/// both sides.
pub open spec fn valid_namespace_entry(s: Seq<char>) -> bool {
    dot_count(s) == 1 && s.len() >= 3 && s.first() != '.' && s.last() != '.'
}

/// The position of the one dot of a valid entry.
pub open spec fn entry_dot(s: Seq<char>) -> int {
    choose|i: int| 0 <= i < s.len() && s[i] == '.'
}

/// The `(collection, field)` pair a valid entry denotes.
pub open spec fn entry_pair(s: Seq<char>) -> (Seq<char>, Seq<char>) {
    (s.take(entry_dot(s)), s.skip(entry_dot(s) + 1))
}

/// Splits one `NAMESPACES` entry at its dot; `None` exactly on entries that
/// are not `collection.field` with both sides non-empty.
pub fn parse_namespace_entry(s: &String) -> (r: Option<(String, String)>)
    ensures
        match r {
            Some(p) => valid_namespace_entry(s@) && p.0@ == entry_pair(s@).0 && p.1@ == entry_pair(
                s@,
            ).1,
            None => !valid_namespace_entry(s@),
        },
{
    let text = s.as_str();
    let n = text.unicode_len();
    let mut count: usize = 0;
    let mut first: usize = 0;
    let mut found = false;
    let mut i: usize = 0;
    while i < n
        invariant
            n == s@.len(),
            text@ == s@,
            i <= n,
            count <= i,
            count == dot_count(s@.take(i as int)),
            found <==> count > 0,
            found ==> first < i && s@[first as int] == '.',
        decreases n - i,
    {
        let c = text.get_char(i);
        if c == '.' {
            if !found {
                first = i;
                found = true;
            }
            count += 1;
        }
        proof {
            assert(s@.take(i + 1).drop_last() =~= s@.take(i as int));
            lemma_dot_count_nonneg(s@.take(i as int));
        }
        i += 1;
    }
    proof {
        assert(s@.take(n as int) =~= s@);
    }
    if count != 1 {
        return None;
    }
    if first == 0 {
        return None;
    }
    if first + 1 == n {
        proof {
            lemma_dot_unique(s@, first as int, s@.len() - 1);
        }
        return None;
    }
    proof {
        assert(s@[first as int] == '.');
        if s@.first() == '.' {
            lemma_dot_unique(s@, 0, first as int);
        }
        if s@.last() == '.' {
            lemma_dot_unique(s@, s@.len() - 1, first as int);
        }
        assert(valid_namespace_entry(s@));
        let ed = entry_dot(s@);
        assert(0 <= ed < s@.len() && s@[ed] == '.') by {
            assert(0 <= first < s@.len() && s@[first as int] == '.');
        }
        lemma_dot_unique(s@, ed, first as int);
    }
    let collection = String::from_str(text.substring_char(0, first));
    let field = String::from_str(text.substring_char(first + 1, n));
    Some((collection, field))
}

/// Every comma-delimited entry of `s` is a valid `collection.field` pair.
pub open spec fn namespaces_all_valid(s: Seq<char>) -> bool {
    forall|k: int|
        0 <= k < csv_segments(s).len() ==> valid_namespace_entry(#[trigger] csv_segments(s)[k])
}

/// Parses the `NAMESPACES` list into `(collection, field)` pairs; on
/// failure returns the first offending entry.
pub fn parse_namespaces(s: &String) -> (r: Result<Vec<(String, String)>, String>)
    ensures
        match r {
            Ok(v) => {
                &&& namespaces_all_valid(s@)
                &&& v.deep_view().len() == csv_segments(s@).len()
                &&& forall|k: int|
                    0 <= k < csv_segments(s@).len() ==> v.deep_view()[k] == entry_pair(
                        #[trigger] csv_segments(s@)[k],
                    )
            },
            Err(bad) => {
                &&& !namespaces_all_valid(s@)
                &&& exists|k: int|
                    0 <= k < csv_segments(s@).len() && !valid_namespace_entry(
                        #[trigger] csv_segments(s@)[k],
                    ) && bad@ == csv_segments(s@)[k]
            },
        },
{
    let parts = split_csv(s);
    let ghost segs = csv_segments(s@);
    let mut out: Vec<(String, String)> = Vec::new();
    let mut i: usize = 0;
    while i < parts.len()
        invariant
            segs == csv_segments(s@),
            parts.deep_view() == segs,
            parts.deep_view().len() == parts@.len(),
            i <= parts@.len(),
            out.deep_view().len() == i,
            forall|k: int| 0 <= k < i ==> valid_namespace_entry(#[trigger] segs[k]),
            forall|k: int|
                0 <= k < i ==> out.deep_view()[k] == entry_pair(#[trigger] segs[k]),
        decreases parts@.len() - i,
    {
        proof {
            assert(parts.deep_view()[i as int] == parts@[i as int]@);
        }
        match parse_namespace_entry(&parts[i]) {
            Some(p) => {
                let ghost prev = out.deep_view();
                out.push(p);
                proof {
                    assert(out.deep_view().drop_last() =~= prev);
                    assert(out.deep_view().last() == (p.0@, p.1@));
                }
            },
            None => {
                proof {
                    assert(!valid_namespace_entry(csv_segments(s@)[i as int]));
                }
                return Err(parts[i].clone());
            },
        }
        i += 1;
    }
    Ok(out)
}

/// The environment as read: each variable's text, where it was set.
pub struct RawConfig {
    pub debug: Option<String>,
    pub deduplication: Option<String>,
    pub excluded_collections: Option<String>,
    pub full_document: Option<String>,
    pub full_document_collections: Option<String>,
    pub metrics_address: Option<String>,
    pub mongo_url: Option<String>,
    pub mongo_batch_size: Option<String>,
    pub mongo_max_await_time_millis: Option<String>,
    pub namespaces: Option<String>,
    pub redis_batch_size: Option<String>,
    pub redis_connection_retry_count: Option<String>,
    pub redis_connection_timeout_secs: Option<String>,
    pub redis_max_delay_secs: Option<String>,
    pub redis_publish_retry_count: Option<String>,
    pub redis_queue_size: Option<String>,
    pub redis_response_timeout_secs: Option<String>,
    pub redis_url: Option<String>,
}

/// Why the configuration was rejected.
#[derive(Debug)]
pub enum ConfigError {
    /// `MONGO_URL` was not set.
    MissingMongoUrl,
    /// `REDIS_URL` was not set.
    MissingRedisUrl,
    /// The named variable was set but is not a decimal number that fits.
    InvalidNumber(String),
    /// A `NAMESPACES` entry (carried here) is not `collection.field` with
    /// both sides non-empty.
    InvalidNamespaces(String),
}

impl ConfigError {
    /// The human-readable description of this error.
    pub fn message(&self) -> (r: String)
        ensures
            match self {
                ConfigError::MissingMongoUrl => r@ == "MONGO_URL is required"@,
                ConfigError::MissingRedisUrl => r@ == "REDIS_URL is required"@,
                ConfigError::InvalidNumber(name) => r@ == name@ + " must be a decimal number"@,
                ConfigError::InvalidNamespaces(entry) => r@ == "invalid NAMESPACES entry: "@
                    + entry@,
            },
    {
        match self {
            ConfigError::MissingMongoUrl => String::from_str("MONGO_URL is required"),
            ConfigError::MissingRedisUrl => String::from_str("REDIS_URL is required"),
            ConfigError::InvalidNumber(name) => {
                let mut out = name.clone();
                out.append(" must be a decimal number");
                out
            },
            ConfigError::InvalidNamespaces(entry) => {
                let mut out = String::from_str("invalid NAMESPACES entry: ");
                out.append(entry.as_str());
                out
            },
        }
    }
}

/// The bridge's settings, parsed and validated.
#[derive(Debug)]
pub struct Config {
    /// Log every event before it is sent to Redis.
    pub debug: bool,
    /// When set, deduplicate events on Redis with this TTL in seconds, so
    /// several bridge instances can watch the same database.
    pub deduplication: Option<u64>,
    /// Collections whose events are dropped at the MongoDB pipeline stage.
    pub excluded_collections: Option<Vec<String>>,
    /// The change stream's full-document mode.
    pub full_document: Option<FullDocumentKind>,
    /// When set, run two change streams: these collections get full
    /// documents, the rest only `_id`.
    pub full_document_collections: Option<Vec<String>>,
    /// Where to expose metrics, if anywhere.
    pub metrics_address: Option<String>,
    pub mongo_url: String,
    /// Cursor tuning: the change stream's batch size.
    pub mongo_batch_size: Option<u32>,
    /// Cursor tuning: the cursor's max await time, in milliseconds.
    pub mongo_max_await_time_millis: Option<u64>,
    /// `(collection, field)` pairs whose field values fan events out to
    /// extra channels.
    pub namespaces: Option<Vec<(String, String)>>,
    pub redis_batch_size: usize,
    pub redis_connection_retry_count: usize,
    pub redis_connection_timeout_secs: u64,
    pub redis_max_delay_secs: Option<u64>,
    pub redis_publish_retry_count: u64,
    pub redis_queue_size: usize,
    pub redis_response_timeout_secs: u64,
    pub redis_url: String,
}

/// An optional variable either is absent or parses as a decimal `u64`.
pub open spec fn num_ok(o: Option<String>) -> bool {
    match o {
        Option::None => true,
        Option::Some(s) => parses_as_u64(s@),
    }
}

/// The value of an optional numeric variable, with its default.
pub open spec fn num_or(o: Option<String>, default: int) -> int {
    match o {
        Option::None => default,
        Option::Some(s) => dec_val(s@),
    }
}

/// Every numeric variable that was set parses and fits its field.
pub open spec fn raw_numbers_ok(raw: RawConfig) -> bool {
    &&& num_ok(raw.deduplication)
    &&& num_ok(raw.mongo_batch_size) && num_or(raw.mongo_batch_size, 0) <= u32::MAX
    &&& num_ok(raw.mongo_max_await_time_millis)
    &&& num_ok(raw.redis_batch_size) && num_or(raw.redis_batch_size, 1) <= usize::MAX
    &&& num_ok(raw.redis_queue_size) && num_or(raw.redis_queue_size, 1024) <= usize::MAX
    &&& num_ok(raw.redis_response_timeout_secs)
    &&& num_ok(raw.redis_connection_timeout_secs)
    &&& num_ok(raw.redis_max_delay_secs)
    &&& num_ok(raw.redis_connection_retry_count) && num_or(raw.redis_connection_retry_count, 6)
        <= usize::MAX
    &&& num_ok(raw.redis_publish_retry_count)
}

/// The `NAMESPACES` variable, if set, holds only valid entries.
pub open spec fn raw_namespaces_ok(raw: RawConfig) -> bool {
    match raw.namespaces {
        Option::None => true,
        Option::Some(s) => namespaces_all_valid(s@),
    }
}

/// `name` names a numeric variable of `raw` that was set and does not
/// parse or fit.
pub open spec fn names_bad_number(raw: RawConfig, name: Seq<char>) -> bool {
    ||| name == "DEDUPLICATION"@ && !num_ok(raw.deduplication)
    ||| name == "MONGO_BATCH_SIZE"@ && !(num_ok(raw.mongo_batch_size) && num_or(
        raw.mongo_batch_size,
        0,
    ) <= u32::MAX)
    ||| name == "MONGO_MAX_AWAIT_TIME_MILLIS"@ && !num_ok(raw.mongo_max_await_time_millis)
    ||| name == "REDIS_BATCH_SIZE"@ && !(num_ok(raw.redis_batch_size) && num_or(
        raw.redis_batch_size,
        1,
    ) <= usize::MAX)
    ||| name == "REDIS_QUEUE_SIZE"@ && !(num_ok(raw.redis_queue_size) && num_or(
        raw.redis_queue_size,
        1024,
    ) <= usize::MAX)
    ||| name == "REDIS_RESPONSE_TIMEOUT_SECS"@ && !num_ok(raw.redis_response_timeout_secs)
    ||| name == "REDIS_CONNECTION_TIMEOUT_SECS"@ && !num_ok(raw.redis_connection_timeout_secs)
    ||| name == "REDIS_MAX_DELAY_SECS"@ && !num_ok(raw.redis_max_delay_secs)
    ||| name == "REDIS_CONNECTION_RETRY_COUNT"@ && !(num_ok(raw.redis_connection_retry_count)
        && num_or(raw.redis_connection_retry_count, 6) <= usize::MAX)
    ||| name == "REDIS_PUBLISH_RETRY_COUNT"@ && !num_ok(raw.redis_publish_retry_count)
}

/// The parsed full-document mode `k` is the one the text `s` names.
pub open spec fn fd_kind_matches(k: FullDocumentKind, s: Seq<char>) -> bool {
    if s == "updateLookup"@ {
        k is UpdateLookup
    } else if s == "whenAvailable"@ {
        k is WhenAvailable
    } else if s == "required"@ {
        k is Required
    } else {
        k matches FullDocumentKind::Other(t) && t@ == s
    }
}

/// Parses the `FULL_DOCUMENT` text: the three driver modes by name, any
/// other text passed through.
pub fn parse_full_document(s: &String) -> (r: FullDocumentKind)
    ensures
        fd_kind_matches(r, s@),
{
    let update_lookup = String::from_str("updateLookup");
    let when_available = String::from_str("whenAvailable");
    let required = String::from_str("required");
    if *s == update_lookup {
        FullDocumentKind::UpdateLookup
    } else if *s == when_available {
        FullDocumentKind::WhenAvailable
    } else if *s == required {
        FullDocumentKind::Required
    } else {
        FullDocumentKind::Other(s.clone())
    }
}

impl Config {
    /// Builds the configuration from the raw environment texts: both URLs
    /// must be present, every number must parse and fit, every `NAMESPACES`
    /// entry must be `collection.field` — exactly then the result is `Ok`,
    /// with the documented defaults filled in.
    pub fn build(raw: RawConfig) -> (r: Result<Config, ConfigError>)
        ensures
            r is Ok <==> raw.mongo_url is Some && raw.redis_url is Some && raw_numbers_ok(raw)
                && raw_namespaces_ok(raw),
            match r {
                Result::Ok(c) => {
                    &&& c.debug == raw.debug is Some
                    &&& (match raw.deduplication {
                        Option::None => c.deduplication is None,
                        Option::Some(s) => c.deduplication matches Some(v) && v == dec_val(s@),
                    })
                    &&& (match raw.excluded_collections {
                        Option::None => c.excluded_collections is None,
                        Option::Some(s) => c.excluded_collections matches Some(v)
                            && v.deep_view() == csv_segments(s@),
                    })
                    &&& (match raw.full_document {
                        Option::None => c.full_document is None,
                        Option::Some(s) => c.full_document matches Some(k) && fd_kind_matches(
                            k,
                            s@,
                        ),
                    })
                    &&& (match raw.full_document_collections {
                        Option::None => c.full_document_collections is None,
                        Option::Some(s) => c.full_document_collections matches Some(v)
                            && v.deep_view() == csv_segments(s@),
                    })
                    &&& c.metrics_address == raw.metrics_address
                    &&& raw.mongo_url matches Some(u) && c.mongo_url == u
                    &&& (match raw.mongo_batch_size {
                        Option::None => c.mongo_batch_size is None,
                        Option::Some(s) => c.mongo_batch_size matches Some(v) && v == dec_val(s@),
                    })
                    &&& (match raw.mongo_max_await_time_millis {
                        Option::None => c.mongo_max_await_time_millis is None,
                        Option::Some(s) => c.mongo_max_await_time_millis matches Some(v) && v
                            == dec_val(s@),
                    })
                    &&& (match raw.namespaces {
                        Option::None => c.namespaces is None,
                        Option::Some(s) => c.namespaces matches Some(v) && v.deep_view().len()
                            == csv_segments(s@).len() && (forall|k: int|
                            0 <= k < csv_segments(s@).len() ==> v.deep_view()[k] == entry_pair(
                                #[trigger] csv_segments(s@)[k],
                            )),
                    })
                    &&& c.redis_batch_size == num_or(raw.redis_batch_size, 1)
                    &&& c.redis_connection_retry_count == num_or(
                        raw.redis_connection_retry_count,
                        6,
                    )
                    &&& c.redis_connection_timeout_secs == num_or(
                        raw.redis_connection_timeout_secs,
                        2,
                    )
                    &&& (match raw.redis_max_delay_secs {
                        Option::None => c.redis_max_delay_secs is None,
                        Option::Some(s) => c.redis_max_delay_secs matches Some(v) && v == dec_val(
                            s@,
                        ),
                    })
                    &&& c.redis_publish_retry_count == num_or(raw.redis_publish_retry_count, 0)
                    &&& c.redis_queue_size == num_or(raw.redis_queue_size, 1024)
                    &&& c.redis_response_timeout_secs == num_or(
                        raw.redis_response_timeout_secs,
                        5,
                    )
                    &&& raw.redis_url matches Some(u) && c.redis_url == u
                },
                Result::Err(e) => match e {
                    ConfigError::MissingMongoUrl => raw.mongo_url is None,
                    ConfigError::MissingRedisUrl => raw.mongo_url is Some && raw.redis_url
                        is None,
                    ConfigError::InvalidNumber(name) => names_bad_number(raw, name@),
                    ConfigError::InvalidNamespaces(entry) => !raw_namespaces_ok(raw) && (
                    match raw.namespaces {
                        Option::None => false,
                        Option::Some(s) => exists|k: int|
                            0 <= k < csv_segments(s@).len() && !valid_namespace_entry(
                                #[trigger] csv_segments(s@)[k],
                            ) && entry@ == csv_segments(s@)[k],
                    }),
                },
            },
    {
        let mongo_url = match raw.mongo_url {
            Some(u) => u,
            None => {
                return Err(ConfigError::MissingMongoUrl);
            },
        };
        let redis_url = match raw.redis_url {
            Some(u) => u,
            None => {
                return Err(ConfigError::MissingRedisUrl);
            },
        };
        let deduplication = match raw.deduplication {
            None => None,
            Some(s) => match parse_u64(&s) {
                Some(v) => Some(v),
                None => {
                    return Err(ConfigError::InvalidNumber(String::from_str("DEDUPLICATION")));
                },
            },
        };
        let mongo_batch_size = match raw.mongo_batch_size {
            None => None,
            Some(s) => match parse_u64(&s) {
                Some(v) => if v <= u32::MAX as u64 {
                    Some(v as u32)
                } else {
                    return Err(ConfigError::InvalidNumber(String::from_str("MONGO_BATCH_SIZE")));
                },
                None => {
                    return Err(ConfigError::InvalidNumber(String::from_str("MONGO_BATCH_SIZE")));
                },
            },
        };
        let mongo_max_await_time_millis = match raw.mongo_max_await_time_millis {
            None => None,
            Some(s) => match parse_u64(&s) {
                Some(v) => Some(v),
                None => {
                    return Err(
                        ConfigError::InvalidNumber(
                            String::from_str("MONGO_MAX_AWAIT_TIME_MILLIS"),
                        ),
                    );
                },
            },
        };
        let redis_batch_size: usize = match raw.redis_batch_size {
            None => 1,
            Some(s) => match parse_u64(&s) {
                Some(v) => if v <= usize::MAX as u64 {
                    v as usize
                } else {
                    return Err(ConfigError::InvalidNumber(String::from_str("REDIS_BATCH_SIZE")));
                },
                None => {
                    return Err(ConfigError::InvalidNumber(String::from_str("REDIS_BATCH_SIZE")));
                },
            },
        };
        let redis_queue_size: usize = match raw.redis_queue_size {
            None => 1024,
            Some(s) => match parse_u64(&s) {
                Some(v) => if v <= usize::MAX as u64 {
                    v as usize
                } else {
                    return Err(ConfigError::InvalidNumber(String::from_str("REDIS_QUEUE_SIZE")));
                },
                None => {
                    return Err(ConfigError::InvalidNumber(String::from_str("REDIS_QUEUE_SIZE")));
                },
            },
        };
        let redis_response_timeout_secs: u64 = match raw.redis_response_timeout_secs {
            None => 5,
            Some(s) => match parse_u64(&s) {
                Some(v) => v,
                None => {
                    return Err(
                        ConfigError::InvalidNumber(String::from_str("REDIS_RESPONSE_TIMEOUT_SECS")),
                    );
                },
            },
        };
        let redis_connection_timeout_secs: u64 = match raw.redis_connection_timeout_secs {
            None => 2,
            Some(s) => match parse_u64(&s) {
                Some(v) => v,
                None => {
                    return Err(
                        ConfigError::InvalidNumber(
                            String::from_str("REDIS_CONNECTION_TIMEOUT_SECS"),
                        ),
                    );
                },
            },
        };
        let redis_max_delay_secs = match raw.redis_max_delay_secs {
            None => None,
            Some(s) => match parse_u64(&s) {
                Some(v) => Some(v),
                None => {
                    return Err(
                        ConfigError::InvalidNumber(String::from_str("REDIS_MAX_DELAY_SECS")),
                    );
                },
            },
        };
        let redis_connection_retry_count: usize = match raw.redis_connection_retry_count {
            None => 6,
            Some(s) => match parse_u64(&s) {
                Some(v) => if v <= usize::MAX as u64 {
                    v as usize
                } else {
                    return Err(
                        ConfigError::InvalidNumber(
                            String::from_str("REDIS_CONNECTION_RETRY_COUNT"),
                        ),
                    );
                },
                None => {
                    return Err(
                        ConfigError::InvalidNumber(
                            String::from_str("REDIS_CONNECTION_RETRY_COUNT"),
                        ),
                    );
                },
            },
        };
        let redis_publish_retry_count: u64 = match raw.redis_publish_retry_count {
            None => 0,
            Some(s) => match parse_u64(&s) {
                Some(v) => v,
                None => {
                    return Err(
                        ConfigError::InvalidNumber(String::from_str("REDIS_PUBLISH_RETRY_COUNT")),
                    );
                },
            },
        };
        let namespaces = match raw.namespaces {
            None => None,
            Some(s) => match parse_namespaces(&s) {
                Ok(v) => Some(v),
                Err(entry) => {
                    return Err(ConfigError::InvalidNamespaces(entry));
                },
            },
        };
        let excluded_collections = match raw.excluded_collections {
            None => None,
            Some(s) => Some(split_csv(&s)),
        };
        let full_document = match raw.full_document {
            None => None,
            Some(s) => Some(parse_full_document(&s)),
        };
        let full_document_collections = match raw.full_document_collections {
            None => None,
            Some(s) => Some(split_csv(&s)),
        };
        Ok(
            Config {
                debug: raw.debug.is_some(),
                deduplication,
                excluded_collections,
                full_document,
                full_document_collections,
                metrics_address: raw.metrics_address,
                mongo_url,
                mongo_batch_size,
                mongo_max_await_time_millis,
                namespaces,
                redis_batch_size,
                redis_connection_retry_count,
                redis_connection_timeout_secs,
                redis_max_delay_secs,
                redis_publish_retry_count,
                redis_queue_size,
                redis_response_timeout_secs,
                redis_url,
            },
        )
    }
}

} // verus!
