//! Journal entries: parsing of `journalctl` output and the assembly of the
//! per-severity store from the results of one aggregation run.
use vstd::prelude::*;
use std::collections::HashMap;
use crate::adapter::{body_lines, somes, QueryOutput};
use crate::error::RounalError;
use crate::text::{
    join, join_words, split_lines, split_words, strip_colons, trim_colons, views, words,
};

verus! {

/// One journal entry.
#[derive(Debug)]
pub struct JournalLog {
    pub priority: u8,
    pub timestamp: String,
    pub log_message: String,
    pub hostname: String,
    pub service: String,
}

/// A journal entry as plain values.
pub struct LogRecord {
    pub priority: u8,
    pub timestamp: Seq<char>,
    pub log_message: Seq<char>,
    pub hostname: Seq<char>,
    pub service: Seq<char>,
}

impl View for JournalLog {
    type V = LogRecord;

    open spec fn view(&self) -> LogRecord {
        LogRecord {
            priority: self.priority,
            timestamp: self.timestamp@,
            log_message: self.log_message@,
            hostname: self.hostname@,
            service: self.service@,
        }
    }
}

impl Clone for JournalLog {
    fn clone(&self) -> (r: Self)
        ensures
            r == *self,
    {
        JournalLog {
            priority: self.priority,
            timestamp: self.timestamp.clone(),
            log_message: self.log_message.clone(),
            hostname: self.hostname.clone(),
            service: self.service.clone(),
        }
    }
}

/// The entries of one aggregation run, keyed by severity.
pub type JournalLogMap = HashMap<u8, Vec<JournalLog>>;

/// A severity level: 1 (most urgent) to 7 (most verbose).
pub open spec fn is_severity(p: int) -> bool {
    1 <= p <= 7
}

/// The seven severity levels.
pub open spec fn severities() -> Set<u8> {
    Set::new(|p: u8| is_severity(p as int))
}

/// The entry that a journal line gives at severity `p`, if any: the first
/// three words are the timestamp, then host, then service (trailing `:`
/// removed), then the message.
pub open spec fn log_of(line: Seq<char>, p: u8) -> Option<LogRecord> {
    let ws = words(line);
    if !is_severity(p as int) || ws.len() < 6 {
        None
    } else {
        Some(
            LogRecord {
                priority: p,
                timestamp: join(ws.take(3)),
                hostname: ws[3],
                service: strip_colons(ws[4]),
                log_message: join(ws.subrange(5, ws.len() as int)),
            },
        )
    }
}

pub open spec fn log_records(v: Seq<JournalLog>) -> Seq<LogRecord> {
    v.map_values(|e: JournalLog| e@)
}

/// The entries of a journal listing at severity `p`, header skipped.
pub open spec fn logs_of_listing(out: Seq<char>, p: u8) -> Seq<LogRecord> {
    somes(body_lines(out).map_values(|l: Seq<char>| log_of(l, p)))
}

/// Parses one journal line at severity `p`. Lines with fewer than six
/// words, and severities outside 1..=7, give `None`.
pub fn parse_log(log_line: &str, p: &u8) -> (r: Option<JournalLog>)
    ensures
        match r {
            Some(e) => log_of(log_line@, *p) == Some(e@),
            None => log_of(log_line@, *p) is None,
        },
{
    if *p < 1 || *p > 7 {
        return None;
    }
    let parts = split_words(log_line);
    proof {
        assert(parts@.len() == words(log_line@).len());
    }
    if parts.len() < 6 {
        return None;
    }
    let timestamp = join_words(&parts, 0, 3);
    let hostname = parts[3].clone();
    let service = trim_colons(parts[4].as_str());
    let log_message = join_words(&parts, 5, parts.len());
    proof {
        assert(views(parts@).subrange(0, 3) =~= words(log_line@).take(3));
        assert(views(parts@).subrange(5, parts@.len() as int) =~= words(log_line@).subrange(
            5,
            words(log_line@).len() as int,
        ));
    }
    Some(JournalLog { priority: *p, timestamp, log_message, hostname, service })
}

/// The entries of a `journalctl` listing at severity `p`, its header line
/// skipped and the lines that do not parse dropped.
pub fn logs_from_listing(listing: &str, p: u8) -> (r: Vec<JournalLog>)
    ensures
        log_records(r@) == logs_of_listing(listing@, p),
{
    let lines = split_lines(listing);
    let ghost body = body_lines(listing@).map_values(|l: Seq<char>| log_of(l, p));
    let mut out: Vec<JournalLog> = Vec::new();
    let mut i: usize = 1;
    proof {
        assert(body.take(0) =~= Seq::<Option<LogRecord>>::empty());
        assert(log_records(out@) =~= somes(body.take(0)));
    }
    while i < lines.len()
        invariant
            views(lines@) == crate::text::lines_of(listing@),
            body == body_lines(listing@).map_values(|l: Seq<char>| log_of(l, p)),
            1 <= i,
            i <= lines.len() || lines.len() == 0,
            lines.len() > 0 ==> body.len() == lines.len() - 1,
            lines.len() > 0 ==> log_records(out@) == somes(body.take(i - 1)),
            lines.len() == 0 ==> out@.len() == 0,
        decreases lines.len() - i,
    {
        let parsed = parse_log(lines[i].as_str(), &p);
        let ghost prev = out@;
        assert(body[i - 1] == log_of(lines@[i as int]@, p));
        assert(body.take(i as int).drop_last() =~= body.take(i - 1));
        match parsed {
            Some(e) => {
                out.push(e);
                assert(log_records(out@) =~= log_records(prev).push(out@.last()@));
            },
            None => {},
        }
        i = i + 1;
    }
    proof {
        if lines.len() > 0 {
            assert(body.take(body.len() as int) =~= body);
        } else {
            assert(body =~= Seq::<Option<LogRecord>>::empty());
            assert(log_records(out@) =~= Seq::<LogRecord>::empty());
        }
    }
    out
}

/// The entries of a finished log query at severity `p`: its parsed lines
/// when it reported success, else the failure of that severity with the
/// query's error text.
pub fn logs_from_output(out: &QueryOutput, p: u8) -> (r: Result<Vec<JournalLog>, RounalError>)
    ensures
        match r {
            Ok(v) => out.success && log_records(v@) == logs_of_listing(out.stdout@, p),
            Err(e) => !out.success && e == RounalError::JournalCtlError(p, out.stderr),
        },
{
    if !out.success {
        return Err(RounalError::JournalCtlError(p, out.stderr.clone()));
    }
    Ok(logs_from_listing(out.stdout.as_str(), p))
}

/// What one per-severity task of an aggregation run reports back: its
/// severity, and its entries or its failure.
pub type FetchResult = (u8, Result<Vec<JournalLog>, RounalError>);

/// The first failure among the reports, in the order they arrived.
pub open spec fn first_failure(rs: Seq<FetchResult>) -> Option<RounalError>
    decreases rs.len(),
{
    if rs.len() == 0 {
        None
    } else {
        match rs[0].1 {
            Err(e) => Some(e),
            Ok(_) => first_failure(rs.drop_first()),
        }
    }
}

/// Some report is for severity `p`.
pub open spec fn delivered(rs: Seq<FetchResult>, p: int) -> bool {
    exists|i: int| 0 <= i < rs.len() && #[trigger] rs[i].0 == p
}

/// Every severity has reported.
pub open spec fn covers_all(rs: Seq<FetchResult>) -> bool {
    forall|p: int| is_severity(p) ==> delivered(rs, p)
}

/// The least severity from `p` on that has not reported (8 if none).
pub open spec fn first_missing(rs: Seq<FetchResult>, p: int) -> int
    decreases 8 - p,
{
    if !is_severity(p) {
        8
    } else if delivered(rs, p) {
        first_missing(rs, p + 1)
    } else {
        p
    }
}

/// The store that the successful reports fill, a later report for a
/// severity replacing an earlier one.
pub open spec fn store_of(rs: Seq<FetchResult>) -> Map<u8, Vec<JournalLog>>
    decreases rs.len(),
{
    if rs.len() == 0 {
        Map::empty()
    } else {
        let prev = store_of(rs.drop_last());
        match rs.last().1 {
            Ok(v) => prev.insert(rs.last().0, v),
            Err(_) => prev,
        }
    }
}

proof fn lemma_first_failure_prefix(rs: Seq<FetchResult>, i: int)
    requires
        0 <= i < rs.len(),
        first_failure(rs.take(i)) is None,
    ensures
        first_failure(rs.take(i + 1)) == (match rs[i].1 {
            Err(e) => Some(e),
            Ok(_) => None::<RounalError>,
        }),
        rs[i].1 is Err ==> first_failure(rs) == Some(rs[i].1->Err_0),
    decreases i,
{
    if i == 0 {
        assert(rs.take(1).drop_first() =~= Seq::<FetchResult>::empty());
        assert(rs.take(1)[0] == rs[0]);
        assert(first_failure(Seq::<FetchResult>::empty()) is None);
    } else {
        let t = rs.drop_first();
        assert(rs.take(i)[0] == rs[0]);
        assert(t[i - 1] == rs[i]);
        assert(rs.take(i).drop_first() =~= t.take(i - 1));
        assert(rs.take(i + 1).drop_first() =~= t.take(i));
        lemma_first_failure_prefix(t, i - 1);
    }
}

proof fn lemma_first_failure_none(rs: Seq<FetchResult>)
    requires
        forall|i: int| 0 <= i < rs.len() ==> (#[trigger] rs[i].1) is Ok,
    ensures
        first_failure(rs) is None,
    decreases rs.len(),
{
    if rs.len() > 0 {
        let t = rs.drop_first();
        assert forall|i: int| 0 <= i < t.len() implies (#[trigger] t[i].1) is Ok by {
            assert(t[i] == rs[i + 1]);
        }
        lemma_first_failure_none(t);
    }
}

proof fn lemma_first_missing(rs: Seq<FetchResult>, p: int)
    requires
        1 <= p <= 8,
        forall|q: int| 1 <= q < p ==> delivered(rs, q),
    ensures
        covers_all(rs) <==> first_missing(rs, p) == 8,
        !covers_all(rs) ==> is_severity(first_missing(rs, p)) && !delivered(
            rs,
            first_missing(rs, p),
        ),
        first_missing(rs, p) >= p,
    decreases 8 - p,
{
    if p <= 7 {
        if delivered(rs, p) {
            lemma_first_missing(rs, p + 1);
        }
    }
}

/// The seven severities form a set of seven.
pub proof fn lemma_severities_len()
    ensures
        severities().len() == 7,
        severities().finite(),
{
    let s = set![1u8, 2u8, 3u8, 4u8, 5u8, 6u8, 7u8];
    assert(severities() =~= s);
    assert(s.len() == 7);
}

/// Assembles the store of one aggregation run from the reports of its
/// per-severity tasks, in the order they arrived. The run fails with the
/// first reported failure; with none, it fails when some severity never
/// reported, naming the least such one; otherwise the store holds exactly
/// the seven severities, each with the entries it reported.
pub fn gather_logs(results: Vec<FetchResult>) -> (r: Result<JournalLogMap, RounalError>)
    requires
        forall|i: int| 0 <= i < results.len() ==> is_severity((#[trigger] results@[i]).0 as int),
    ensures
        match r {
            Ok(m) => first_failure(results@) is None && covers_all(results@) && m@ == store_of(
                results@,
            ) && m@.dom() == severities() && m@.len() == 7,
            Err(e) => match first_failure(results@) {
                Some(f) => e == f,
                None => !covers_all(results@) && (e matches RounalError::AggregationIncomplete(q)
                    && q as int == first_missing(results@, 1)),
            },
        },
{
    broadcast use vstd::std_specs::hash::group_hash_axioms;

    let ghost rs = results@;
    let mut store: JournalLogMap = HashMap::new();
    let mut seen: Vec<bool> = vec![false, false, false, false, false, false, false, false];
    proof {
        assert(rs.take(0) =~= Seq::<FetchResult>::empty());
    }
    for item in it: results
        invariant
            it.seq() == rs,
            rs == results@,
            forall|i: int| 0 <= i < rs.len() ==> is_severity((#[trigger] rs[i]).0 as int),
            first_failure(rs.take(it.index() as int)) is None,
            forall|j: int| 0 <= j < it.index() ==> (#[trigger] rs[j].1) is Ok,
            store@ == store_of(rs.take(it.index() as int)),
            seen@.len() == 8,
            forall|p: int|
                #![trigger seen@[p]]
                1 <= p <= 7 ==> (seen@[p] <==> delivered(rs.take(it.index() as int), p)),
    {
        let ghost i = it.index() as int;
        proof {
            lemma_first_failure_prefix(rs, i);
            assert(rs.take(i + 1).drop_last() =~= rs.take(i));
            assert(rs.take(i + 1).last() == rs[i]);
        }
        let (p, res) = item;
        match res {
            Err(e) => {
                return Err(e);
            },
            Ok(entries) => {
                store.insert(p, entries);
                seen.set(p as usize, true);
            },
        }
        proof {
            assert forall|q: int| 1 <= q <= 7 implies (seen@[q] <==> delivered(rs.take(i + 1), q)) by {
                if delivered(rs.take(i), q) {
                    let k = choose|k: int| 0 <= k < rs.take(i).len() && #[trigger] rs.take(i)[k].0 == q;
                    assert(rs.take(i + 1)[k] == rs.take(i)[k]);
                }
                if delivered(rs.take(i + 1), q) {
                    let k = choose|k: int| 0 <= k < rs.take(i + 1).len() && #[trigger] rs.take(i + 1)[k].0 == q;
                    if k < i {
                        assert(rs.take(i)[k] == rs.take(i + 1)[k]);
                    }
                }
                if q == p {
                    assert(rs.take(i + 1)[i] == rs[i]);
                }
            }
        }
    }
    proof {
        assert(rs.take(rs.len() as int) =~= rs);
        lemma_first_failure_none(rs);
        assert(store@ == store_of(rs));
    }
    let mut q: u8 = 1;
    while q <= 7
        invariant
            1 <= q <= 8,
            seen@.len() == 8,
            forall|p: int|
                #![trigger seen@[p]]
                1 <= p <= 7 ==> (seen@[p] <==> delivered(rs, p)),
            forall|p: int| 1 <= p < q ==> delivered(rs, p),
            first_failure(rs) is None,
            store@ == store_of(rs),
            rs == results@,
        decreases 8 - q,
    {
        if !seen[q as usize] {
            proof {
                lemma_first_missing(rs, q as int);
                lemma_first_missing_at(rs, 1, q as int);
                assert(!delivered(rs, q as int));
                assert(!covers_all(rs));

            }
            return Err(RounalError::AggregationIncomplete(q));
        }
        q = q + 1;
    }
    proof {
        lemma_severities_len();
        assert(covers_all(rs)) by {
            assert forall|p: int| is_severity(p) implies delivered(rs, p) by {
                assert(seen@[p]);
            }
        }
        lemma_store_dom(rs);
        assert forall|k: u8| store@.dom().contains(k) <==> severities().contains(k) by {
            if delivered(rs, k as int) {
                let j = choose|j: int| 0 <= j < rs.len() && #[trigger] rs[j].0 == k as int;
                assert(is_severity(rs[j].0 as int));
            }
            if is_severity(k as int) {
                assert(seen@[k as int]);
            }
        }
        assert(store@.dom() =~= severities());
    }
    Ok(store)
}

proof fn lemma_first_missing_at(rs: Seq<FetchResult>, p: int, q: int)
    requires
        1 <= p <= q <= 7,
        forall|x: int| p <= x < q ==> delivered(rs, x),
        !delivered(rs, q),
    ensures
        first_missing(rs, p) == q,
    decreases q - p,
{
    if p < q {
        lemma_first_missing_at(rs, p + 1, q);
    }
}

proof fn lemma_store_dom(rs: Seq<FetchResult>)
    requires
        forall|j: int| 0 <= j < rs.len() ==> (#[trigger] rs[j].1) is Ok,
    ensures
        forall|k: u8| store_of(rs).dom().contains(k) <==> delivered(rs, k as int),
    decreases rs.len(),
{
    if rs.len() > 0 {
        let t = rs.drop_last();
        assert forall|j: int| 0 <= j < t.len() implies (#[trigger] t[j].1) is Ok by {
            assert(t[j] == rs[j]);
        }
        lemma_store_dom(t);
        assert forall|k: u8| store_of(rs).dom().contains(k) <==> delivered(rs, k as int) by {
            if delivered(t, k as int) {
                let j = choose|j: int| 0 <= j < t.len() && #[trigger] t[j].0 == k as int;
                assert(rs[j] == t[j]);
            }
            if delivered(rs, k as int) {
                let j = choose|j: int| 0 <= j < rs.len() && #[trigger] rs[j].0 == k as int;
                if j < t.len() {
                    assert(rs[j] == t[j]);
                }
            }
            assert(rs[rs.len() - 1].1 is Ok);
        }
    }
}

/// Log parsing is total on lines of six words or more: at any severity it
/// gives an entry of that severity.
pub proof fn lemma_log_parse_total(line: Seq<char>, p: u8)
    requires
        is_severity(p as int),
        words(line).len() >= 6,
    ensures
        log_of(line, p) is Some,
        log_of(line, p)->Some_0.priority == p,
{
}

/// Log parsing is deterministic: two entries parsed from one line at one
/// severity are equal.
pub proof fn lemma_log_parse_deterministic(line: Seq<char>, p: u8, a: JournalLog, b: JournalLog)
    requires
        log_of(line, p) == Some(a@),
        log_of(line, p) == Some(b@),
    ensures
        a@ == b@,
{
}

/// A line of fewer than six words gives no entry.
pub proof fn lemma_short_log_line_rejected(line: Seq<char>, p: u8)
    requires
        words(line).len() < 6,
    ensures
        log_of(line, p) is None,
{
}

/// When the only failing reports are those of severity `p`, each the
/// failure that `logs_from_output` gives at `p` with error text `t`, and
/// one of them arrived, the run fails with an error that names `p`.
pub proof fn lemma_failure_names_severity(rs: Seq<FetchResult>, p: u8, t: String)
    requires
        forall|i: int|
            0 <= i < rs.len() && (#[trigger] rs[i]).1 is Err ==> rs[i].0 == p && rs[i].1->Err_0
                == RounalError::JournalCtlError(p, t),
        exists|i: int| 0 <= i < rs.len() && (#[trigger] rs[i]).1 is Err,
    ensures
        first_failure(rs) == Some(RounalError::JournalCtlError(p, t)),
    decreases rs.len(),
{
    let i = choose|i: int| 0 <= i < rs.len() && (#[trigger] rs[i]).1 is Err;
    if !(rs[0].1 is Err) {
        let tail = rs.drop_first();
        assert(tail[i - 1] == rs[i]);
        assert forall|j: int| 0 <= j < tail.len() && (#[trigger] tail[j]).1 is Err implies tail[j].0
            == p && tail[j].1->Err_0 == RounalError::JournalCtlError(p, t) by {
            assert(tail[j] == rs[j + 1]);
        }
        lemma_failure_names_severity(tail, p, t);
    }
}

} // verus!
