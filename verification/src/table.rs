//! Read-side table helpers.
//!
//! The engine answers history, snapshot and maintenance calls with plain
//! records; what the library owns is the validation and shaping around them:
//! checking a load-at-time string before the engine sees it, parsing
//! `column=value` partition filters for compaction, and laying commit history
//! out in columns.

use vstd::prelude::*;
use vstd::string::StrSliceExecFns;

use crate::errors::TableError;

verus! {

broadcast use vstd::std_specs::vec::group_vec_axioms, vstd::seq::group_seq_axioms;

/// What the RFC 3339 parser returns on a string: the instant as non-leap
/// seconds since the epoch, UTC, or nothing when the string is not a valid
/// RFC 3339 date-and-time.
pub uninterp spec fn rfc3339_epoch_seconds(s: Seq<char>) -> Option<i64>;

/// Relies on `chrono::DateTime::parse_from_rfc3339`, which parses an RFC
/// 3339 date-and-time string or fails, and on `DateTime::timestamp` for the
/// instant in epoch seconds; the result is a function of the string alone.
#[verifier::external_body]
fn parse_rfc3339(s: &str) -> (r: Option<i64>)
    ensures
        r matches Some(t) ==> rfc3339_epoch_seconds(s@) == Some(t),
        r is None ==> rfc3339_epoch_seconds(s@) is None,
{
    match chrono::DateTime::parse_from_rfc3339(s) {
        Ok(dt) => Some(dt.timestamp()),
        Err(_) => None,
    }
}

/// Validates the timestamp string of a load-at-time call before any engine
/// work: a valid RFC 3339 date-and-time yields its instant in epoch
/// seconds, anything else is rejected with the offending string.
pub fn validate_load_timestamp(s: &str) -> (r: Result<i64, TableError>)
    ensures
        r matches Ok(t) ==> rfc3339_epoch_seconds(s@) == Some(t),
        r matches Err(e) ==> rfc3339_epoch_seconds(s@) is None && (e matches
            TableError::InvalidTimestamp { given } && given@ == s@),
{
    match parse_rfc3339(s) {
        Some(t) => Ok(t),
        None => Err(TableError::InvalidTimestamp { given: s.to_owned() }),
    }
}

/// An ASCII blank: space, tab, or a line break.
pub open spec fn is_blank(c: char) -> bool {
    c == ' ' || c == '\t' || c == '\n' || c == '\r'
}

/// How many blanks the string starts with.
pub open spec fn leading_blanks(s: Seq<char>) -> int
    decreases s,
{
    if s.len() == 0 || !is_blank(s[0]) {
        0
    } else {
        1 + leading_blanks(s.drop_first())
    }
}

/// How many blanks the string ends with.
pub open spec fn trailing_blanks(s: Seq<char>) -> int
    decreases s,
{
    if s.len() == 0 || !is_blank(s.last()) {
        0
    } else {
        1 + trailing_blanks(s.drop_last())
    }
}

/// The string with leading and trailing blanks removed.
pub open spec fn trimmed(s: Seq<char>) -> Seq<char> {
    let rest = s.skip(leading_blanks(s));
    rest.take(rest.len() - trailing_blanks(rest))
}

/// The count of leading blanks is the first non-blank position (or the
/// length), and everything before it is blank.
proof fn lemma_leading_blanks(s: Seq<char>)
    ensures
        0 <= leading_blanks(s) <= s.len(),
        forall|i: int| 0 <= i < leading_blanks(s) ==> is_blank(#[trigger] s[i]),
        leading_blanks(s) < s.len() ==> !is_blank(s[leading_blanks(s)]),
    decreases s,
{
    if s.len() == 0 || !is_blank(s[0]) {
        assert(leading_blanks(s) == 0);
    } else {
        lemma_leading_blanks(s.drop_first());
        assert(leading_blanks(s) == 1 + leading_blanks(s.drop_first()));
        assert forall|i: int| 0 <= i < leading_blanks(s) implies is_blank(#[trigger] s[i]) by {
            if i > 0 {
                assert(s.drop_first()[i - 1] == s[i]);
            }
        }
        if leading_blanks(s) < s.len() {
            assert(s.drop_first()[leading_blanks(s) - 1] == s[leading_blanks(s)]);
        }
    }
}

/// The count of trailing blanks is measured from the last non-blank
/// position (or the start), and everything after it is blank.
proof fn lemma_trailing_blanks(s: Seq<char>)
    ensures
        0 <= trailing_blanks(s) <= s.len(),
        forall|i: int| s.len() - trailing_blanks(s) <= i < s.len() ==> is_blank(#[trigger] s[i]),
        trailing_blanks(s) < s.len() ==> !is_blank(s[s.len() - trailing_blanks(s) - 1]),
    decreases s,
{
    if s.len() == 0 || !is_blank(s.last()) {
        assert(trailing_blanks(s) == 0);
    } else {
        lemma_trailing_blanks(s.drop_last());
        assert(trailing_blanks(s) == 1 + trailing_blanks(s.drop_last()));
        assert forall|i: int| s.len() - trailing_blanks(s) <= i < s.len() implies is_blank(
            #[trigger] s[i],
        ) by {
            if i < s.len() - 1 {
                assert(s.drop_last()[i] == s[i]);
            }
        }
        if trailing_blanks(s) < s.len() {
            assert(s.drop_last()[s.len() - trailing_blanks(s) - 1] == s[s.len() - trailing_blanks(
                s,
            ) - 1]);
        }
    }
}

/// Whether the character is an ASCII blank, as [`is_blank`] states.
fn blank_char(c: char) -> (r: bool)
    ensures
        r == is_blank(c),
{
    c == ' ' || c == '\t' || c == '\n' || c == '\r'
}

/// Removes leading and trailing blanks, exactly as [`trimmed`] states.
fn trim_blanks(s: &str) -> (r: &str)
    ensures
        r@ == trimmed(s@),
{
    let n = s.unicode_len();
    proof {
        lemma_leading_blanks(s@);
    }
    let mut start: usize = 0;
    while start < n && blank_char(s.get_char(start))
        invariant
            start <= n == s@.len(),
            forall|i: int| 0 <= i < start ==> is_blank(#[trigger] s@[i]),
        decreases n - start,
    {
        start = start + 1;
    }
    proof {
        if start < leading_blanks(s@) {
            assert(is_blank(s@[start as int]));
            assert(false);
        }
        if start > leading_blanks(s@) {
            assert(is_blank(s@[leading_blanks(s@)]));
            assert(false);
        }
        assert(start == leading_blanks(s@));
    }
    let ghost rest = s@.skip(start as int);
    proof {
        lemma_trailing_blanks(rest);
    }
    let mut end: usize = n;
    while end > start && blank_char(s.get_char(end - 1))
        invariant
            start <= end <= n == s@.len(),
            rest == s@.skip(start as int),
            forall|i: int| end <= i < n ==> is_blank(#[trigger] s@[i]),
        decreases end,
    {
        end = end - 1;
    }
    proof {
        assert forall|j: int|
            rest.len() - (n - end) <= j < rest.len() implies is_blank(#[trigger] rest[j]) by {
            assert(rest[j] == s@[start + j]);
        }
        let tb = trailing_blanks(rest);
        if (n - end) < tb {
            if end > start {
                assert(rest[end - start - 1] == s@[end - 1]);
                assert(is_blank(s@[end - 1]));
                assert(false);
            }
        }
        if (n - end) > tb {
            assert(rest[rest.len() - tb - 1] == s@[start + rest.len() - tb - 1]);
            assert(is_blank(rest[rest.len() - tb - 1]));
            assert(false);
        }
        assert(n - end == tb);
    }
    let r = s.substring_char(start, end);
    proof {
        assert(r@ =~= trimmed(s@));
    }
    r
}

/// The position of the first `=` in the string, looking from `k` on.
pub open spec fn first_eq_from(s: Seq<char>, k: int) -> Option<int>
    decreases s.len() - k,
{
    if k < 0 || k >= s.len() {
        None
    } else if s[k] == '=' {
        Some(k)
    } else {
        first_eq_from(s, k + 1)
    }
}

/// What a partition filter string denotes: split at the first `=`, both
/// sides trimmed of blanks; a string without `=` denotes nothing.
pub open spec fn partition_filter_spec(s: Seq<char>) -> Option<(Seq<char>, Seq<char>)> {
    match first_eq_from(s, 0) {
        Some(i) => Some((trimmed(s.take(i)), trimmed(s.skip(i + 1)))),
        None => None,
    }
}

/// The search is unchanged by skipping a prefix without `=`.
proof fn lemma_first_eq_skip(s: Seq<char>, k: int)
    requires
        0 <= k <= s.len(),
        forall|j: int| 0 <= j < k ==> s[j] != '=',
    ensures
        first_eq_from(s, 0) == first_eq_from(s, k),
    decreases k,
{
    if k > 0 {
        lemma_first_eq_skip(s, k - 1);
    }
}

/// Parses one `column=value` partition filter, exactly as
/// [`partition_filter_spec`] states: the first `=` splits it, both sides
/// are trimmed, and a string without `=` is not a filter.
pub fn parse_partition_filter(s: &str) -> (r: Option<(String, String)>)
    ensures
        r matches Some(p) ==> partition_filter_spec(s@) == Some((p.0@, p.1@)),
        r is None ==> partition_filter_spec(s@) is None,
{
    let n = s.unicode_len();
    let mut i: usize = 0;
    while i < n
        invariant
            i <= n == s@.len(),
            forall|j: int| 0 <= j < i ==> s@[j] != '=',
        decreases n - i,
    {
        if s.get_char(i) == '=' {
            proof {
                lemma_first_eq_skip(s@, i as int);
                assert(first_eq_from(s@, i as int) == Some(i as int));
            }
            let column = trim_blanks(s.substring_char(0, i));
            let value = trim_blanks(s.substring_char(i + 1, n));
            proof {
                assert(s@.subrange(0, i as int) =~= s@.take(i as int));
                assert(s@.subrange(i + 1, n as int) =~= s@.skip(i + 1));
            }
            return Some((column.to_owned(), value.to_owned()));
        }
        i = i + 1;
    }
    proof {
        lemma_first_eq_skip(s@, n as int);
        assert(first_eq_from(s@, n as int) is None);
    }
    None
}

/// The filters of a list that denote a `column=value` pair, in order.
pub open spec fn partition_filters_spec(filters: Seq<String>) -> Seq<(Seq<char>, Seq<char>)>
    decreases filters,
{
    if filters.len() == 0 {
        Seq::empty()
    } else {
        (match partition_filter_spec(filters[0]@) {
            Some(p) => seq![p],
            None => Seq::empty(),
        }) + partition_filters_spec(filters.drop_first())
    }
}

/// Parses the filters from position `i` on.
fn parse_partition_filters_from(filters: &Vec<String>, i: usize) -> (r: Vec<(String, String)>)
    requires
        i <= filters@.len(),
    ensures
        crate::clauses::pairs_view(r@) == partition_filters_spec(filters@.skip(i as int)),
    decreases filters@.len() - i,
{
    let ghost suffix = filters@.skip(i as int);
    if i == filters.len() {
        let out: Vec<(String, String)> = Vec::new();
        proof {
            crate::clauses::lemma_pairs_view(out@);
            assert(crate::clauses::pairs_view(out@) =~= Seq::<(Seq<char>, Seq<char>)>::empty());
        }
        out
    } else {
        proof {
            assert(suffix[0] == filters@[i as int]);
            assert(suffix.drop_first() =~= filters@.skip(i + 1));
        }
        let mut rest = parse_partition_filters_from(filters, i + 1);
        let ghost rest_prev = rest@;
        match parse_partition_filter(&filters[i]) {
            Some(pair) => {
                let ghost pv = (pair.0@, pair.1@);
                rest.insert(0, pair);
                proof {
                    crate::clauses::lemma_pairs_view(rest@);
                    crate::clauses::lemma_pairs_view(rest_prev);
                    assert(crate::clauses::pairs_view(rest@) =~= seq![pv]
                        + crate::clauses::pairs_view(rest_prev));
                }
                rest
            },
            None => rest,
        }
    }
}

/// Parses a list of `column=value` partition filters for a compaction call,
/// exactly as [`partition_filters_spec`] states: strings without `=` are
/// dropped, the rest split at their first `=` with both sides trimmed.
pub fn parse_partition_filters(filters: &Vec<String>) -> (r: Vec<(String, String)>)
    ensures
        crate::clauses::pairs_view(r@) == partition_filters_spec(filters@),
{
    proof {
        assert(filters@.skip(0) =~= filters@);
    }
    parse_partition_filters_from(filters, 0)
}

/// One commit of the table's history, as the engine reports it; every field
/// may be missing.
#[derive(Debug)]
pub struct CommitEntry {
    pub timestamp: Option<i64>,
    pub operation: Option<String>,
    pub user_id: Option<String>,
    pub user_name: Option<String>,
}

/// Commit history laid out in columns, one row per commit, most recent
/// first; missing values become zero or the empty string.
#[derive(Debug)]
pub struct HistoryTable {
    pub versions: Vec<i64>,
    pub timestamps: Vec<i64>,
    pub operations: Vec<String>,
    pub user_ids: Vec<String>,
    pub user_names: Vec<String>,
}

/// The string a missing value is reported as.
pub open spec fn opt_string_or_empty(o: Option<String>) -> Seq<char> {
    match o {
        Some(s) => s@,
        None => Seq::empty(),
    }
}

/// Lays the commit history out in columns: row `i` describes entry `i`,
/// its version is its position (the engine reports commits most recent
/// first), and missing fields default to zero or the empty string.
pub fn history_rows(entries: &Vec<CommitEntry>) -> (r: HistoryTable)
    requires
        entries@.len() <= i64::MAX,
    ensures
        r.versions@.len() == entries@.len(),
        r.timestamps@.len() == entries@.len(),
        r.operations@.len() == entries@.len(),
        r.user_ids@.len() == entries@.len(),
        r.user_names@.len() == entries@.len(),
        forall|i: int| 0 <= i < entries@.len() ==> #[trigger] r.versions@[i] == i,
        forall|i: int|
            0 <= i < entries@.len() ==> #[trigger] r.timestamps@[i] == (match entries@[i].timestamp {
                Some(t) => t,
                None => 0,
            }),
        forall|i: int|
            0 <= i < entries@.len() ==> (#[trigger] r.operations@[i])@ == opt_string_or_empty(
                entries@[i].operation,
            ),
        forall|i: int|
            0 <= i < entries@.len() ==> (#[trigger] r.user_ids@[i])@ == opt_string_or_empty(
                entries@[i].user_id,
            ),
        forall|i: int|
            0 <= i < entries@.len() ==> (#[trigger] r.user_names@[i])@ == opt_string_or_empty(
                entries@[i].user_name,
            ),
{
    let mut versions: Vec<i64> = Vec::new();
    let mut timestamps: Vec<i64> = Vec::new();
    let mut operations: Vec<String> = Vec::new();
    let mut user_ids: Vec<String> = Vec::new();
    let mut user_names: Vec<String> = Vec::new();
    let mut i: usize = 0;
    while i < entries.len()
        invariant
            i <= entries@.len() <= i64::MAX,
            versions@.len() == i,
            timestamps@.len() == i,
            operations@.len() == i,
            user_ids@.len() == i,
            user_names@.len() == i,
            forall|j: int| 0 <= j < i ==> #[trigger] versions@[j] == j,
            forall|j: int|
                0 <= j < i ==> #[trigger] timestamps@[j] == (match entries@[j].timestamp {
                    Some(t) => t,
                    None => 0,
                }),
            forall|j: int|
                0 <= j < i ==> (#[trigger] operations@[j])@ == opt_string_or_empty(
                    entries@[j].operation,
                ),
            forall|j: int|
                0 <= j < i ==> (#[trigger] user_ids@[j])@ == opt_string_or_empty(
                    entries@[j].user_id,
                ),
            forall|j: int|
                0 <= j < i ==> (#[trigger] user_names@[j])@ == opt_string_or_empty(
                    entries@[j].user_name,
                ),
        decreases entries@.len() - i,
    {
        versions.push(i as i64);
        timestamps.push(
            match &entries[i].timestamp {
                Some(t) => *t,
                None => 0,
            },
        );
        operations.push(
            match &entries[i].operation {
                Some(s) => s.clone(),
                None => String::new(),
            },
        );
        user_ids.push(
            match &entries[i].user_id {
                Some(s) => s.clone(),
                None => String::new(),
            },
        );
        user_names.push(
            match &entries[i].user_name {
                Some(s) => s.clone(),
                None => String::new(),
            },
        );
        i = i + 1;
    }
    HistoryTable { versions, timestamps, operations, user_ids, user_names }
}

/// Splits a configuration listing into its two columns — keys and values,
/// in order — for callers that report table metadata column-wise.
pub fn configuration_columns(config: &Vec<(String, String)>) -> (r: (Vec<String>, Vec<String>))
    ensures
        r.0@.len() == config@.len(),
        r.1@.len() == config@.len(),
        forall|i: int| 0 <= i < config@.len() ==> (#[trigger] r.0@[i])@ == config@[i].0@,
        forall|i: int| 0 <= i < config@.len() ==> (#[trigger] r.1@[i])@ == config@[i].1@,
{
    let mut keys: Vec<String> = Vec::new();
    let mut values: Vec<String> = Vec::new();
    let mut i: usize = 0;
    while i < config.len()
        invariant
            i <= config@.len(),
            keys@.len() == i,
            values@.len() == i,
            forall|j: int| 0 <= j < i ==> (#[trigger] keys@[j])@ == config@[j].0@,
            forall|j: int| 0 <= j < i ==> (#[trigger] values@[j])@ == config@[j].1@,
        decreases config@.len() - i,
    {
        keys.push(config[i].0.clone());
        values.push(config[i].1.clone());
        i = i + 1;
    }
    (keys, values)
}

} // verus!
