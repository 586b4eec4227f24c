//! Sequences: declarative test cases bundling the commands to execute, the
//! logs those commands produce, and the accepted baseline to check them
//! against. A workflow runs in strict phases: cleanup, then command
//! execution, then verification (`run`) or mutual cross-check and baseline
//! capture (`record`). The outside work of the first two phases (deleting
//! files, spawning processes) is handed to the caller as an ordered action
//! plan; the comparison phases live here, with their aggregation over the
//! configured logs verified on the record lists read from them.
use crate::crosscheck::{
    compare_records, compare_records_with_txs, lemma_matched_log_parses,
    lemma_unparsed_log_mismatches, overlap_len, overlap_parses, parse_prefix, prefix_parses,
    record_matches_tx, records_match, records_match_vec,
};
use crate::store::{db_read_records, open_log};
use crate::tx::{rec_parses, rec_view, Transaction, TransactionView};
use crate::HarnessError;
use vstd::prelude::*;

verus! {

/// One outside step of a workflow's preparation phases, to be performed by
/// the caller in plan order: delete a stale log if it exists (absence is a
/// no-op, not an error), or execute one configured command, blocking until
/// the child process exits.
#[derive(Debug)]
pub enum SequenceAction {
    RemoveLog(String),
    Execute(Vec<String>),
}

/// A test-case descriptor: the external commands to execute strictly in
/// order, the logs those commands are expected to produce, and the
/// accepted baseline of expected transactions (written by `record`,
/// consumed by `run`).
pub struct Sequence {
    commands: Vec<Vec<String>>,
    tx_stores: Vec<String>,
    expected_txs: Vec<Transaction>,
}

/// Whether the log at position `j` matches the baseline over their
/// overlap.
pub open spec fn log_matches_baseline(
    all: Seq<Seq<Seq<char>>>,
    expected: Seq<TransactionView>,
    j: int,
) -> bool {
    records_match_vec(all[j], expected)
}

/// Whether every configured log matches the baseline over its overlap.
pub open spec fn all_logs_match(all: Seq<Seq<Seq<char>>>, expected: Seq<TransactionView>) -> bool {
    forall|j: int| 0 <= j < all.len() ==> #[trigger] log_matches_baseline(all, expected, j)
}

/// Whether the log at position `j` holds only well-formed records in its
/// overlap with the baseline.
pub open spec fn log_overlap_parses(
    all: Seq<Seq<Seq<char>>>,
    expected: Seq<TransactionView>,
    j: int,
) -> bool {
    prefix_parses(all[j], overlap_len(all[j], expected))
}

/// Whether every configured log holds only well-formed records in its
/// overlap with the baseline.
pub open spec fn all_logs_parse(all: Seq<Seq<Seq<char>>>, expected: Seq<TransactionView>) -> bool {
    forall|j: int| 0 <= j < all.len() ==> #[trigger] log_overlap_parses(all, expected, j)
}

/// Whether the adjacent pair of logs ending at position `j` is well-formed
/// over its overlap.
pub open spec fn adjacent_pair_parses(all: Seq<Seq<Seq<char>>>, j: int) -> bool {
    overlap_parses(all[j - 1], all[j])
}

/// Whether the adjacent pair of logs ending at position `j` matches.
pub open spec fn adjacent_pair_matches(all: Seq<Seq<Seq<char>>>, j: int) -> bool {
    records_match(all[j - 1], all[j])
}

/// Whether every adjacent pair of logs is well-formed over its overlap.
pub open spec fn pairs_parse(all: Seq<Seq<Seq<char>>>) -> bool {
    forall|j: int| 1 <= j < all.len() ==> #[trigger] adjacent_pair_parses(all, j)
}

/// Whether every adjacent pair of logs matches over its overlap.
pub open spec fn pairs_match(all: Seq<Seq<Seq<char>>>) -> bool {
    forall|j: int| 1 <= j < all.len() ==> #[trigger] adjacent_pair_matches(all, j)
}

/// Whether the first log's records are all well-formed, so that a baseline
/// can be captured from it in full.
pub open spec fn first_log_parses(all: Seq<Seq<Seq<char>>>) -> bool {
    all.len() > 0 ==> prefix_parses(all[0], all[0].len() as int)
}

/// The baseline captured from a set of logs: every transaction of the
/// first log, in order; empty with no logs.
pub open spec fn captured_baseline(all: Seq<Seq<Seq<char>>>) -> Seq<TransactionView> {
    if all.len() == 0 {
        Seq::empty()
    } else {
        Seq::new(all[0].len(), |i: int| rec_view(all[0][i]))
    }
}

/// Prefix a failure detail with the log it concerns.
fn prefixed(name: &str, detail: String) -> (r: String)
    ensures
        r@ == name@ + ": "@ + detail@,
{
    let mut r = name.to_owned();
    r.append(": ");
    r.append(detail.as_str());
    r
}

/// Attach the identifier of the log a failure concerns to its detail,
/// keeping the failure's kind.
fn with_log_context(name: &str, e: HarnessError) -> (r: HarnessError)
    ensures
        r is Store <==> e is Store,
        r is Parse <==> e is Parse,
        r is Mismatch <==> e is Mismatch,
{
    match e {
        HarnessError::Store(d) => HarnessError::Store(prefixed(name, d)),
        HarnessError::Parse(d) => HarnessError::Parse(prefixed(name, d)),
        HarnessError::Mismatch => HarnessError::Mismatch,
    }
}

/// Clone an ordered list of strings, keeping its contents.
fn clone_string_vec(v: &Vec<String>) -> (r: Vec<String>)
    ensures
        r.deep_view() == v.deep_view(),
{
    let mut r: Vec<String> = Vec::new();
    let mut i: usize = 0;
    while i < v.len()
        invariant
            0 <= i <= v@.len(),
            r@.len() == i,
            forall|j: int| 0 <= j < i ==> r.deep_view()[j] == v.deep_view()[j],
        decreases v@.len() - i,
    {
        r.push(v[i].clone());
        i += 1;
    }
    proof {
        assert(r.deep_view() =~= v.deep_view());
    }
    r
}

/// The Verify aggregation of the `run` workflow, over the record lists
/// read from the configured logs (`names` holds the matching log
/// identifiers, used to say which log a failure concerns). Every log is
/// compared against the baseline, and logs after a mismatching one are
/// still checked and reported; a malformed record in some log's overlap
/// aborts with a parse failure. Succeeds exactly when every log matches
/// the baseline over its overlap.
pub fn verify_records(
    all: &Vec<Vec<String>>,
    names: &Vec<String>,
    expected: &Vec<Transaction>,
    quiet: bool,
) -> (r: Result<(), HarnessError>)
    requires
        names@.len() == all@.len(),
    ensures
        r is Ok <==> all_logs_match(all.deep_view(), expected.deep_view()),
        (r matches Err(e) && e is Parse) <==> !all_logs_parse(
            all.deep_view(),
            expected.deep_view(),
        ),
        (r matches Err(e) && e is Mismatch) <==> (all_logs_parse(
            all.deep_view(),
            expected.deep_view(),
        ) && !all_logs_match(all.deep_view(), expected.deep_view())),
{
    let ghost alldv = all.deep_view();
    let ghost ev = expected.deep_view();
    let mut failed = false;
    let mut j: usize = 0;
    let n = all.len();
    while j < n
        invariant
            n == all@.len(),
            names@.len() == all@.len(),
            alldv == all.deep_view(),
            ev == expected.deep_view(),
            0 <= j <= n,
            forall|k: int| 0 <= k < j ==> #[trigger] log_overlap_parses(alldv, ev, k),
            failed <==> (exists|k: int|
                0 <= k < j && !(#[trigger] log_matches_baseline(alldv, ev, k))),
        decreases n - j,
    {
        proof {
            assert(alldv[j as int] == all@[j as int].deep_view());
        }
        match compare_records_with_txs(&all[j], expected, quiet) {
            Ok(()) => {
                proof {
                    assert(log_matches_baseline(alldv, ev, j as int));
                    lemma_matched_log_parses(alldv[j as int], ev);
                    assert(log_overlap_parses(alldv, ev, j as int));
                }
            },
            Err(HarnessError::Mismatch) => {
                failed = true;
                proof {
                    assert(log_overlap_parses(alldv, ev, j as int));
                    assert(!log_matches_baseline(alldv, ev, j as int));
                }
            },
            Err(e) => {
                proof {
                    if !(e is Parse) {
                        assert(prefix_parses(
                            alldv[j as int],
                            overlap_len(alldv[j as int], ev),
                        ));
                        assert(records_match_vec(alldv[j as int], ev));
                        assert(false);
                    }
                    assert(!log_overlap_parses(alldv, ev, j as int));
                    assert(!all_logs_parse(alldv, ev));
                    lemma_unparsed_log_mismatches(alldv[j as int], ev);
                    assert(!log_matches_baseline(alldv, ev, j as int));
                    assert(!all_logs_match(alldv, ev));
                }
                return Err(with_log_context(names[j].as_str(), e));
            },
        }
        j += 1;
    }
    if failed {
        proof {
            assert(all_logs_parse(alldv, ev));
            let k = choose|k: int|
                0 <= k < n && !(#[trigger] log_matches_baseline(alldv, ev, k));
            assert(!all_logs_match(alldv, ev));
        }
        Err(HarnessError::Mismatch)
    } else {
        proof {
            assert forall|k: int| 0 <= k < n implies #[trigger] log_matches_baseline(
                alldv,
                ev,
                k,
            ) by {
                if !log_matches_baseline(alldv, ev, k) {
                    assert(exists|m: int|
                        0 <= m < n && !(#[trigger] log_matches_baseline(alldv, ev, m)));
                }
            }
            assert(all_logs_match(alldv, ev));
        }
        Ok(())
    }
}

/// The MutualCrossCheck and CaptureBaseline aggregation of the `record`
/// workflow, over the record lists read from the configured logs (`names`
/// holds the matching log identifiers for failure details). Every
/// adjacent pair of logs is cross-checked, and pairs after a mismatching
/// one are still checked and reported; any pairwise mismatch fails before
/// a baseline is captured, since a baseline must never come from
/// disagreeing backends. Only when every pair matches is the baseline
/// captured: the full parsed contents of the first log, in order, or an
/// empty baseline with no logs.
pub fn crosscheck_and_capture_records(
    all: &Vec<Vec<String>>,
    names: &Vec<String>,
    quiet: bool,
) -> (r: Result<Vec<Transaction>, HarnessError>)
    requires
        names@.len() == all@.len(),
    ensures
        r is Ok <==> (pairs_match(all.deep_view()) && first_log_parses(all.deep_view())),
        r is Ok ==> r->Ok_0.deep_view() == captured_baseline(all.deep_view()),
        (r matches Err(e) && e is Mismatch) <==> (pairs_parse(all.deep_view()) && !pairs_match(
            all.deep_view(),
        )),
        (r matches Err(e) && e is Parse) <==> (!pairs_parse(all.deep_view()) || (pairs_match(
            all.deep_view(),
        ) && !first_log_parses(all.deep_view()))),
{
    let ghost alldv = all.deep_view();
    let mut failed = false;
    let mut j: usize = 1;
    let n = all.len();
    while j < n
        invariant
            n == all@.len(),
            names@.len() == all@.len(),
            alldv == all.deep_view(),
            1 <= j,
            j <= n || j == 1,
            forall|k: int| 1 <= k < j ==> #[trigger] adjacent_pair_parses(alldv, k),
            failed <==> (exists|k: int| 1 <= k < j && !(#[trigger] adjacent_pair_matches(alldv, k))),
        decreases n - j,
    {
        proof {
            assert(alldv[j - 1] == all@[j - 1].deep_view());
            assert(alldv[j as int] == all@[j as int].deep_view());
        }
        match compare_records(&all[j - 1], &all[j], quiet) {
            Ok(()) => {
                proof {
                    assert(adjacent_pair_matches(alldv, j as int));
                    assert(adjacent_pair_parses(alldv, j as int));
                }
            },
            Err(HarnessError::Mismatch) => {
                failed = true;
                proof {
                    assert(adjacent_pair_parses(alldv, j as int));
                    assert(!adjacent_pair_matches(alldv, j as int));
                }
            },
            Err(e) => {
                proof {
                    if !(e is Parse) {
                        assert(overlap_parses(alldv[j - 1], alldv[j as int]));
                        assert(records_match(alldv[j - 1], alldv[j as int]));
                        assert(false);
                    }
                    assert(!adjacent_pair_parses(alldv, j as int));
                    assert(!pairs_parse(alldv));
                    assert(!adjacent_pair_matches(alldv, j as int));
                    assert(!pairs_match(alldv));
                }
                let mut label = names[j - 1].clone();
                label.append(" and ");
                label.append(names[j].as_str());
                return Err(with_log_context(label.as_str(), e));
            },
        }
        j += 1;
    }
    if failed {
        proof {
            let k = choose|k: int| 1 <= k < j && !(#[trigger] adjacent_pair_matches(alldv, k));
            assert(!pairs_match(alldv));
        }
        return Err(HarnessError::Mismatch);
    }
    proof {
        assert forall|k: int| 1 <= k < n implies #[trigger] adjacent_pair_matches(alldv, k) by {
            if !adjacent_pair_matches(alldv, k) {
                assert(exists|m: int| 1 <= m < j && !(#[trigger] adjacent_pair_matches(alldv, m)));
            }
        }
        assert(pairs_match(alldv));
    }
    if all.len() == 0 {
        let empty: Vec<Transaction> = Vec::new();
        proof {
            assert(empty.deep_view() =~= captured_baseline(alldv));
        }
        return Ok(empty);
    }
    proof {
        assert(alldv[0] == all@[0].deep_view());
    }
    let first_len = all[0].len();
    match parse_prefix(&all[0], first_len) {
        Ok(txs) => {
            proof {
                assert(first_log_parses(alldv));
                assert(txs.deep_view() =~= captured_baseline(alldv));
            }
            Ok(txs)
        },
        Err(e) => {
            proof {
                assert(!first_log_parses(alldv));
            }
            Err(with_log_context(names[0].as_str(), e))
        },
    }
}

impl Sequence {
    /// The configured commands, as ordered argument vectors.
    pub closed spec fn commands_view(&self) -> Seq<Seq<Seq<char>>> {
        self.commands.deep_view()
    }

    /// The configured log identifiers, in declaration order.
    pub closed spec fn stores_view(&self) -> Seq<Seq<char>> {
        self.tx_stores.deep_view()
    }

    /// The accepted baseline, in order.
    pub closed spec fn baseline_view(&self) -> Seq<TransactionView> {
        self.expected_txs.deep_view()
    }

    /// Build a test case from its three ordered parts.
    pub fn new(commands: Vec<Vec<String>>, tx_stores: Vec<String>, expected_txs: Vec<Transaction>)
        -> (s: Sequence)
        ensures
            s.commands_view() == commands.deep_view(),
            s.stores_view() == tx_stores.deep_view(),
            s.baseline_view() == expected_txs.deep_view(),
    {
        Sequence { commands, tx_stores, expected_txs }
    }

    /// An empty test case: no commands, no logs, an empty baseline.
    pub fn new_empty() -> (s: Sequence)
        ensures
            s.commands_view().len() == 0,
            s.stores_view().len() == 0,
            s.baseline_view().len() == 0,
    {
        Sequence { commands: Vec::new(), tx_stores: Vec::new(), expected_txs: Vec::new() }
    }

    /// The configured commands.
    pub fn commands(&self) -> (r: &Vec<Vec<String>>)
        ensures
            r.deep_view() == self.commands_view(),
    {
        &self.commands
    }

    /// The configured log identifiers.
    pub fn tx_stores(&self) -> (r: &Vec<String>)
        ensures
            r.deep_view() == self.stores_view(),
    {
        &self.tx_stores
    }

    /// The accepted baseline.
    pub fn expected_txs(&self) -> (r: &Vec<Transaction>)
        ensures
            r.deep_view() == self.baseline_view(),
    {
        &self.expected_txs
    }

    /// The preparation phases of both workflows, as the ordered plan of
    /// outside actions the caller must perform before verification or
    /// recording: first delete every configured log (a clean start for
    /// each run; deleting an absent log is a no-op), then execute every
    /// configured command, strictly in declared order, each blocking until
    /// its process exits.
    pub fn setup_actions(&self) -> (r: Vec<SequenceAction>)
        ensures
            r@.len() == self.stores_view().len() + self.commands_view().len(),
            forall|i: int|
                0 <= i < self.stores_view().len() ==> ((#[trigger] r@[i]) matches
                    SequenceAction::RemoveLog(p) && p@ == self.stores_view()[i]),
            forall|i: int|
                self.stores_view().len() <= i < r@.len() ==> ((#[trigger] r@[i]) matches
                    SequenceAction::Execute(c) && c.deep_view() == self.commands_view()[i
                    - self.stores_view().len()]),
    {
        let mut r: Vec<SequenceAction> = Vec::new();
        let mut i: usize = 0;
        while i < self.tx_stores.len()
            invariant
                0 <= i <= self.tx_stores@.len(),
                r@.len() == i,
                forall|j: int|
                    0 <= j < i ==> ((#[trigger] r@[j]) matches SequenceAction::RemoveLog(p) && p@
                        == self.stores_view()[j]),
            decreases self.tx_stores@.len() - i,
        {
            r.push(SequenceAction::RemoveLog(self.tx_stores[i].clone()));
            i += 1;
        }
        let mut k: usize = 0;
        while k < self.commands.len()
            invariant
                0 <= k <= self.commands@.len(),
                r@.len() == self.tx_stores@.len() + k,
                forall|j: int|
                    0 <= j < self.tx_stores@.len() ==> ((#[trigger] r@[j]) matches
                        SequenceAction::RemoveLog(p) && p@ == self.stores_view()[j]),
                forall|j: int|
                    self.tx_stores@.len() <= j < r@.len() ==> ((#[trigger] r@[j]) matches
                        SequenceAction::Execute(c) && c.deep_view() == self.commands_view()[j
                        - self.stores_view().len()]),
            decreases self.commands@.len() - k,
        {
            let c = clone_string_vec(&self.commands[k]);
            proof {
                assert(c.deep_view() == self.commands_view()[k as int]);
            }
            r.push(SequenceAction::Execute(c));
            k += 1;
        }
        r
    }

    /// The Verify phase of the `run` workflow: open each configured log,
    /// read its records, and compare them all against the stored baseline
    /// through `verify_records`, which carries the exact verdict over the
    /// record lists. A log that cannot be opened or read aborts at once
    /// with its identifier attached; with no configured logs there is
    /// nothing to check and the run succeeds.
    pub fn verify(&self) -> (r: Result<(), HarnessError>)
        ensures
            self.stores_view().len() == 0 ==> r is Ok,
    {
        let mut all: Vec<Vec<String>> = Vec::new();
        let mut i: usize = 0;
        while i < self.tx_stores.len()
            invariant
                0 <= i <= self.tx_stores@.len(),
                all@.len() == i,
            decreases self.tx_stores@.len() - i,
        {
            let db = match open_log(self.tx_stores[i].as_str()) {
                Ok(db) => db,
                Err(e) => {
                    return Err(with_log_context(self.tx_stores[i].as_str(), e));
                },
            };
            let recs = match db_read_records(&db) {
                Ok(v) => v,
                Err(e) => {
                    return Err(with_log_context(self.tx_stores[i].as_str(), e));
                },
            };
            all.push(recs);
            i += 1;
        }
        verify_records(&all, &self.tx_stores, &self.expected_txs, false)
    }

    /// The MutualCrossCheck and CaptureBaseline phases of the `record`
    /// workflow: open each configured log, read its records, and hand the
    /// record lists to `crosscheck_and_capture_records`, which carries the
    /// exact verdict and the captured baseline. On success the baseline
    /// becomes the first log's full parsed contents (empty with no logs);
    /// on any failure the baseline is left untouched, so a baseline never
    /// comes from disagreeing backends.
    pub fn crosscheck_and_capture(&mut self) -> (r: Result<(), HarnessError>)
        ensures
            final(self).commands_view() == old(self).commands_view(),
            final(self).stores_view() == old(self).stores_view(),
            old(self).stores_view().len() == 0 ==> (r is Ok && final(self).baseline_view().len()
                == 0),
            r is Err ==> final(self).baseline_view() == old(self).baseline_view(),
    {
        let mut all: Vec<Vec<String>> = Vec::new();
        let mut i: usize = 0;
        while i < self.tx_stores.len()
            invariant
                *self == *old(self),
                0 <= i <= self.tx_stores@.len(),
                all@.len() == i,
            decreases self.tx_stores@.len() - i,
        {
            let db = match open_log(self.tx_stores[i].as_str()) {
                Ok(db) => db,
                Err(e) => {
                    return Err(with_log_context(self.tx_stores[i].as_str(), e));
                },
            };
            let recs = match db_read_records(&db) {
                Ok(v) => v,
                Err(e) => {
                    return Err(with_log_context(self.tx_stores[i].as_str(), e));
                },
            };
            all.push(recs);
            i += 1;
        }
        match crosscheck_and_capture_records(&all, &self.tx_stores, false) {
            Ok(txs) => {
                self.expected_txs = txs;
                Ok(())
            },
            Err(e) => Err(e),
        }
    }
}

/// Record/run round trip: a baseline captured from a log's records matches
/// those same records on verification, so recording and then running over
/// unchanged backend output always succeeds for the captured log.
pub proof fn lemma_capture_then_verify(rs: Seq<Seq<char>>)
    requires
        forall|i: int| 0 <= i < rs.len() ==> #[trigger] rec_parses(rs[i]),
    ensures
        records_match_vec(rs, Seq::new(rs.len(), |i: int| rec_view(rs[i]))),
{
    let tv = Seq::new(rs.len(), |i: int| rec_view(rs[i]));
    assert forall|i: int| 0 <= i < overlap_len(rs, tv) implies #[trigger] record_matches_tx(
        rs,
        tv,
        i,
    ) by {
        assert(rec_parses(rs[i]));
        assert(tv[i] == rec_view(rs[i]));
    }
}

/// Record/run round trip over a whole sequence: when recording succeeds
/// over logs of equal length (the convention the descriptor is meant to
/// keep), running against the captured baseline succeeds for every log.
/// With unequal lengths the mutual cross-check only covers each pair's
/// overlap, so a later log may still diverge from the baseline beyond it.
pub proof fn lemma_record_then_run(all: Seq<Seq<Seq<char>>>)
    requires
        pairs_match(all),
        first_log_parses(all),
        forall|j: int| 0 <= j < all.len() ==> #[trigger] all[j].len() == all[0].len(),
    ensures
        all_logs_match(all, captured_baseline(all)),
{
    let base = captured_baseline(all);
    assert forall|j: int| 0 <= j < all.len() implies #[trigger] log_matches_baseline(
        all,
        base,
        j,
    ) by {
        lemma_log_agrees_with_first(all, j);
        assert(all[j].len() == all[0].len());
        assert forall|i: int|
            0 <= i < overlap_len(all[j], base) implies #[trigger] record_matches_tx(
            all[j],
            base,
            i,
        ) by {
            assert(rec_parses(all[j][i]) && rec_view(all[j][i]) == rec_view(all[0][i]));
            assert(base[i] == rec_view(all[0][i]));
        }
    }
}

/// Along a chain of matching equal-length logs, every log agrees with the
/// first at every position, with well-formed records throughout.
proof fn lemma_log_agrees_with_first(all: Seq<Seq<Seq<char>>>, j: int)
    requires
        pairs_match(all),
        first_log_parses(all),
        forall|k: int| 0 <= k < all.len() ==> #[trigger] all[k].len() == all[0].len(),
        0 <= j < all.len(),
    ensures
        forall|i: int|
            0 <= i < all[0].len() ==> (#[trigger] rec_parses(all[j][i]) && rec_view(all[j][i])
                == rec_view(all[0][i])),
    decreases j,
{
    if j == 0 {
        assert(all[0].len() > 0 ==> prefix_parses(all[0], all[0].len() as int));
        assert forall|i: int|
            0 <= i < all[0].len() implies (#[trigger] rec_parses(all[0][i]) && rec_view(all[0][i])
            == rec_view(all[0][i])) by {
            assert(prefix_parses(all[0], all[0].len() as int));
            assert(rec_parses(all[0][i]));
        }
    } else {
        lemma_log_agrees_with_first(all, j - 1);
        assert(adjacent_pair_matches(all, j));
        assert(records_match(all[j - 1], all[j]));
        assert(all[j - 1].len() == all[0].len() && all[j].len() == all[0].len());
        assert forall|i: int|
            0 <= i < all[0].len() implies (#[trigger] rec_parses(all[j][i]) && rec_view(all[j][i])
            == rec_view(all[0][i])) by {
            assert(0 <= i < overlap_len(all[j - 1], all[j]));
            assert(crate::crosscheck::pair_parses(all[j - 1], all[j], i));
            assert(crate::crosscheck::pair_equal(all[j - 1], all[j], i));
            assert(rec_view(all[j - 1][i]) == rec_view(all[0][i]));
        }
    }
}

} // verus!
