//! The cross-check engine: positional, structural comparison of two
//! ordered transaction sequences. Elements are paired up in iteration
//! order; pairing stops at the shorter sequence; every differing pair in
//! the overlap is reported in one pass, and the verdict fails if and only
//! if some pair differed.
use crate::store::{db_read_records, db_records};
use crate::tx::{rec_parses, rec_view, Transaction, TransactionView};
use crate::HarnessError;
use std::io::Write;
use vstd::prelude::*;

verus! {

/// The number of positions two sequences are compared at: the length of
/// the shorter one.
pub open spec fn overlap_len<T, U>(a: Seq<T>, b: Seq<U>) -> int {
    if a.len() <= b.len() {
        a.len() as int
    } else {
        b.len() as int
    }
}

/// The positions below `k`, in increasing order, at which the two
/// sequences hold structurally different transactions.
pub open spec fn mismatch_positions_upto(
    a: Seq<TransactionView>,
    b: Seq<TransactionView>,
    k: int,
) -> Seq<int>
    decreases k,
{
    if k <= 0 {
        Seq::empty()
    } else if a[k - 1] != b[k - 1] {
        mismatch_positions_upto(a, b, k - 1).push(k - 1)
    } else {
        mismatch_positions_upto(a, b, k - 1)
    }
}

/// The positions of the overlap, in increasing order, at which the two
/// sequences disagree.
pub open spec fn mismatch_positions(a: Seq<TransactionView>, b: Seq<TransactionView>) -> Seq<
    int,
> {
    mismatch_positions_upto(a, b, overlap_len(a, b))
}

/// The collected positions are exactly the differing positions below `k`.
pub proof fn lemma_mismatch_positions_upto_contains(
    a: Seq<TransactionView>,
    b: Seq<TransactionView>,
    k: int,
    i: int,
)
    ensures
        mismatch_positions_upto(a, b, k).contains(i) <==> (0 <= i < k && a[i] != b[i]),
    decreases k,
{
    if k <= 0 {
        assert(mismatch_positions_upto(a, b, k).len() == 0);
    } else {
        lemma_mismatch_positions_upto_contains(a, b, k - 1, i);
        let prev = mismatch_positions_upto(a, b, k - 1);
        if a[k - 1] != b[k - 1] {
            let cur = prev.push(k - 1);
            if prev.contains(i) {
                let j = choose|j: int| 0 <= j < prev.len() && prev[j] == i;
                assert(cur[j] == i);
            }
            if i == k - 1 {
                assert(cur[prev.len() as int] == i);
            }
            if cur.contains(i) && i != k - 1 {
                let j = choose|j: int| 0 <= j < cur.len() && cur[j] == i;
                assert(j < prev.len());
                assert(prev[j] == i);
            }
        }
    }
}

/// Reflexivity: identical ordered contents compare the same at every pair,
/// so a log cross-checked against a copy of itself passes.
pub proof fn lemma_crosscheck_reflexive(a: Seq<TransactionView>, b: Seq<TransactionView>)
    requires
        a == b,
    ensures
        mismatch_positions(a, b).len() == 0,
{
    lemma_crosscheck_truncation(a, b);
}

/// Full-scan reporting: every position of the overlap at which the two
/// sequences differ is in the report of one invocation.
pub proof fn lemma_crosscheck_reports_every_difference(
    a: Seq<TransactionView>,
    b: Seq<TransactionView>,
    i: int,
)
    requires
        0 <= i < overlap_len(a, b),
        a[i] != b[i],
    ensures
        mismatch_positions(a, b).contains(i),
{
    lemma_mismatch_positions_upto_contains(a, b, overlap_len(a, b), i);
}

/// Shorter-sequence truncation: when every overlapping position matches,
/// the cross-check passes, even when one sequence has further entries that
/// are never compared.
pub proof fn lemma_crosscheck_truncation(a: Seq<TransactionView>, b: Seq<TransactionView>)
    requires
        forall|i: int| 0 <= i < overlap_len(a, b) ==> a[i] == b[i],
    ensures
        mismatch_positions(a, b).len() == 0,
{
    lemma_no_difference_upto(a, b, overlap_len(a, b));
}

proof fn lemma_no_difference_upto(a: Seq<TransactionView>, b: Seq<TransactionView>, k: int)
    requires
        k <= overlap_len(a, b),
        forall|i: int| 0 <= i < overlap_len(a, b) ==> a[i] == b[i],
    ensures
        mismatch_positions_upto(a, b, k).len() == 0,
    decreases k,
{
    if k > 0 {
        lemma_no_difference_upto(a, b, k - 1);
    }
}

/// The outcome of one cross-check: how many positions were paired up, and
/// which of them held differing transactions, in increasing order.
#[derive(Debug)]
pub struct CrossCheckReport {
    pub checked: usize,
    pub mismatches: Vec<usize>,
}

impl CrossCheckReport {
    /// Whether every paired position compared equal.
    pub fn passed(&self) -> (r: bool)
        ensures
            r == (self.mismatches@.len() == 0),
    {
        self.mismatches.len() == 0
    }
}

/// Relies on `writeln!` to standard error: prints one line of the
/// comparison report. Output only; nothing is promised of it.
#[verifier::external_body]
fn emit(label: &str, index: usize, detail: &str) {
    let _ = writeln!(std::io::stderr(), "{label}: entry {index}: {detail}");
}

/// Render an ordered parameter list for a report line.
fn render_params(ps: &Vec<String>) -> String {
    let mut r = String::new();
    r.append("[");
    let mut i: usize = 0;
    while i < ps.len()
        decreases ps.len() - i,
    {
        if i > 0 {
            r.append(", ");
        }
        r.append(ps[i].as_str());
        i += 1;
    }
    r.append("]");
    r
}

/// Render one transaction for a report line.
fn describe(t: &Transaction) -> String {
    let mut r = String::new();
    r.append(t.kind.as_str());
    r.append(" ");
    let ps = render_params(&t.params);
    r.append(ps.as_str());
    r
}

/// Render the field-by-field difference of one differing pair.
fn diff_detail(x: &Transaction, y: &Transaction) -> String {
    let d = x.field_diff(y);
    let mut r = String::new();
    if d.kind_differs {
        r.append("kind: ");
        r.append(x.kind.as_str());
        r.append(" != ");
        r.append(y.kind.as_str());
    }
    if d.params_differ {
        if d.kind_differs {
            r.append("; ");
        }
        r.append("params: ");
        let px = render_params(&x.params);
        r.append(px.as_str());
        r.append(" != ");
        let py = render_params(&y.params);
        r.append(py.as_str());
    }
    r
}

/// Pair the two transaction lists positionally and compare each pair
/// structurally. Pairing stops at the shorter list; the report holds every
/// differing position of the overlap, found in one pass. Unless `quiet`,
/// one line per pair is printed: the transaction when the pair is the
/// same, its field-by-field difference otherwise.
pub fn crosscheck_txs(a: &Vec<Transaction>, b: &Vec<Transaction>, quiet: bool) -> (rep:
    CrossCheckReport)
    ensures
        rep.checked == overlap_len(a.deep_view(), b.deep_view()),
        rep.mismatches@.map_values(|u: usize| u as int) == mismatch_positions(
            a.deep_view(),
            b.deep_view(),
        ),
{
    let n = if a.len() <= b.len() {
        a.len()
    } else {
        b.len()
    };
    let mut mismatches: Vec<usize> = Vec::new();
    let mut i: usize = 0;
    while i < n
        invariant
            n == overlap_len(a.deep_view(), b.deep_view()),
            n <= a.len() && n <= b.len(),
            0 <= i <= n,
            mismatches@.map_values(|u: usize| u as int) == mismatch_positions_upto(
                a.deep_view(),
                b.deep_view(),
                i as int,
            ),
        decreases n - i,
    {
        proof {
            assert(a.deep_view()[i as int] == a@[i as int]@);
            assert(b.deep_view()[i as int] == b@[i as int]@);
        }
        if a[i] == b[i] {
            if !quiet {
                let d = describe(&a[i]);
                emit("Same", i, d.as_str());
            }
        } else {
            if !quiet {
                let d = diff_detail(&a[i], &b[i]);
                emit("Diff", i, d.as_str());
            }
            mismatches.push(i);
            proof {
                assert(mismatches@.map_values(|u: usize| u as int) =~= mismatch_positions_upto(
                    a.deep_view(),
                    b.deep_view(),
                    i as int,
                ).push(i as int));
            }
        }
        i += 1;
    }
    CrossCheckReport { checked: n, mismatches }
}


/// Whether the first `n` stored records are all well-formed.
pub open spec fn prefix_parses(rs: Seq<Seq<char>>, n: int) -> bool {
    forall|i: int| 0 <= i < n ==> #[trigger] rec_parses(rs[i])
}

/// Whether the records paired at position `i` are both well-formed.
pub open spec fn pair_parses(a: Seq<Seq<char>>, b: Seq<Seq<char>>, i: int) -> bool {
    rec_parses(a[i]) && rec_parses(b[i])
}

/// Whether the transactions stored at position `i` are structurally equal.
pub open spec fn pair_equal(a: Seq<Seq<char>>, b: Seq<Seq<char>>, i: int) -> bool {
    rec_view(a[i]) == rec_view(b[i])
}

/// Whether every paired record of two stored logs is well-formed.
pub open spec fn overlap_parses(a: Seq<Seq<char>>, b: Seq<Seq<char>>) -> bool {
    forall|i: int| 0 <= i < overlap_len(a, b) ==> #[trigger] pair_parses(a, b, i)
}

/// Whether two stored logs match: every paired record is well-formed and
/// the paired transactions are structurally equal. Records past the end of
/// the shorter log are not compared.
pub open spec fn records_match(a: Seq<Seq<char>>, b: Seq<Seq<char>>) -> bool {
    overlap_parses(a, b) && (forall|i: int|
        0 <= i < overlap_len(a, b) ==> #[trigger] pair_equal(a, b, i))
}

/// Whether the record at position `i` is well-formed and stands for the
/// transaction `txs[i]`.
pub open spec fn record_matches_tx(rs: Seq<Seq<char>>, txs: Seq<TransactionView>, i: int) -> bool {
    rec_parses(rs[i]) && rec_view(rs[i]) == txs[i]
}

/// Whether a stored log matches an in-memory baseline: every record paired
/// with a baseline entry is well-formed and stands for it. Entries past the
/// end of the shorter side are not compared.
pub open spec fn records_match_vec(rs: Seq<Seq<char>>, txs: Seq<TransactionView>) -> bool {
    forall|i: int| 0 <= i < overlap_len(rs, txs) ==> #[trigger] record_matches_tx(rs, txs, i)
}

/// Reflexivity over stored logs: a log whose records are all well-formed
/// matches a copy of itself, so comparing it against one succeeds with
/// every pair the same.
pub proof fn lemma_records_match_reflexive(rs: Seq<Seq<char>>)
    requires
        forall|i: int| 0 <= i < rs.len() ==> #[trigger] rec_parses(rs[i]),
    ensures
        records_match(rs, rs),
{
    assert forall|i: int| 0 <= i < overlap_len(rs, rs) implies #[trigger] pair_parses(
        rs,
        rs,
        i,
    ) by {
        assert(rec_parses(rs[i]));
    }
    assert forall|i: int| 0 <= i < overlap_len(rs, rs) implies #[trigger] pair_equal(rs, rs, i) by {
        assert(rec_view(rs[i]) == rec_view(rs[i]));
    }
}

/// A log whose overlap with a baseline has a malformed record cannot match
/// that baseline.
pub proof fn lemma_unparsed_log_mismatches(rs: Seq<Seq<char>>, tv: Seq<TransactionView>)
    requires
        !prefix_parses(rs, overlap_len(rs, tv)),
    ensures
        !records_match_vec(rs, tv),
{
    assert(exists|i: int| 0 <= i < overlap_len(rs, tv) && !(#[trigger] rec_parses(rs[i])));
    let i = choose|i: int| 0 <= i < overlap_len(rs, tv) && !(#[trigger] rec_parses(rs[i]));
    if records_match_vec(rs, tv) {
        assert(record_matches_tx(rs, tv, i));
    }
}

/// A log that matches a baseline has only well-formed records in their
/// overlap.
pub proof fn lemma_matched_log_parses(rs: Seq<Seq<char>>, tv: Seq<TransactionView>)
    requires
        records_match_vec(rs, tv),
    ensures
        prefix_parses(rs, overlap_len(rs, tv)),
{
    assert forall|i: int| 0 <= i < overlap_len(rs, tv) implies #[trigger] rec_parses(rs[i]) by {
        assert(record_matches_tx(rs, tv, i));
    }
}

/// Parse the first `n` stored records into transactions, in order, failing
/// if any of them is malformed.
pub fn parse_prefix(recs: &Vec<String>, n: usize) -> (r: Result<Vec<Transaction>, HarnessError>)
    requires
        n <= recs@.len(),
    ensures
        r is Ok <==> prefix_parses(recs.deep_view(), n as int),
        r is Ok ==> r->Ok_0.deep_view() == Seq::new(
            n as nat,
            |i: int| rec_view(recs.deep_view()[i]),
        ),
        r is Err ==> r->Err_0 is Parse,
{
    let mut out: Vec<Transaction> = Vec::new();
    let mut i: usize = 0;
    while i < n
        invariant
            n <= recs@.len(),
            0 <= i <= n,
            out@.len() == i,
            prefix_parses(recs.deep_view(), i as int),
            out.deep_view() =~= Seq::new(i as nat, |j: int| rec_view(recs.deep_view()[j])),
        decreases n - i,
    {
        proof {
            assert(recs.deep_view()[i as int] == recs@[i as int]@);
        }
        match Transaction::from_record(recs[i].as_str()) {
            Ok(t) => {
                proof {
                    assert(t@ == rec_view(recs.deep_view()[i as int]));
                }
                let ghost prev = out@;
                out.push(t);
                proof {
                    assert(out@ == prev.push(t));
                    assert forall|j: int| 0 <= j < i + 1 implies out.deep_view()[j] == rec_view(
                        recs.deep_view()[j],
                    ) by {
                        assert(out.deep_view()[j] == out@[j].deep_view());
                        if j < i {
                            assert(out@[j] == prev[j]);
                            assert(prev[j].deep_view() == Seq::new(
                                i as nat,
                                |k: int| rec_view(recs.deep_view()[k]),
                            )[j]);
                        } else {
                            assert(out@[j] == t);
                        }
                    }
                    assert(out.deep_view() =~= Seq::new(
                        (i + 1) as nat,
                        |j: int| rec_view(recs.deep_view()[j]),
                    ));
                }
            },
            Err(e) => {
                proof {
                    assert(!rec_parses(recs.deep_view()[i as int]));
                }
                return Err(e);
            },
        }
        i += 1;
    }
    Ok(out)
}

proof fn lemma_empty_report_means_equal(a: Seq<TransactionView>, b: Seq<TransactionView>)
    requires
        mismatch_positions(a, b).len() == 0,
    ensures
        forall|i: int| 0 <= i < overlap_len(a, b) ==> a[i] == b[i],
{
    assert forall|i: int| 0 <= i < overlap_len(a, b) implies a[i] == b[i] by {
        if a[i] != b[i] {
            lemma_crosscheck_reports_every_difference(a, b, i);
        }
    }
}

proof fn lemma_nonempty_report_means_difference(a: Seq<TransactionView>, b: Seq<TransactionView>)
    requires
        mismatch_positions(a, b).len() > 0,
    ensures
        exists|i: int| 0 <= i < overlap_len(a, b) && a[i] != b[i],
{
    let s = mismatch_positions(a, b);
    let x = s[0];
    assert(s.contains(x));
    lemma_mismatch_positions_upto_contains(a, b, overlap_len(a, b), x);
}

/// Compare two stored logs positionally. Returns `Ok` exactly when every
/// paired record is well-formed and equal; a malformed paired record is a
/// parse failure; well-formed but differing contents are a mismatch,
/// raised only after every pair has been checked and reported.
pub fn compare_records(recs1: &Vec<String>, recs2: &Vec<String>, quiet: bool) -> (r: Result<
    (),
    HarnessError,
>)
    ensures
        r is Ok <==> records_match(recs1.deep_view(), recs2.deep_view()),
        (r matches Err(e) && e is Parse) <==> !overlap_parses(
            recs1.deep_view(),
            recs2.deep_view(),
        ),
        (r matches Err(e) && e is Mismatch) <==> (overlap_parses(
            recs1.deep_view(),
            recs2.deep_view(),
        ) && !records_match(recs1.deep_view(), recs2.deep_view())),
{
    let ghost r1 = recs1.deep_view();
    let ghost r2 = recs2.deep_view();
    let n = if recs1.len() <= recs2.len() {
        recs1.len()
    } else {
        recs2.len()
    };
    proof {
        assert(overlap_len(r1, r2) == n as int);
    }
    let a = match parse_prefix(recs1, n) {
        Ok(v) => v,
        Err(e) => {
            proof {
                assert(exists|i: int| 0 <= i < n && !(#[trigger] rec_parses(r1[i])));
                let i = choose|i: int| 0 <= i < n && !(#[trigger] rec_parses(r1[i]));
                assert(!pair_parses(r1, r2, i));
                assert(!overlap_parses(r1, r2));
            }
            return Err(e);
        },
    };
    let b = match parse_prefix(recs2, n) {
        Ok(v) => v,
        Err(e) => {
            proof {
                assert(exists|i: int| 0 <= i < n && !(#[trigger] rec_parses(r2[i])));
                let i = choose|i: int| 0 <= i < n && !(#[trigger] rec_parses(r2[i]));
                assert(!pair_parses(r1, r2, i));
                assert(!overlap_parses(r1, r2));
            }
            return Err(e);
        },
    };
    let rep = crosscheck_txs(&a, &b, quiet);
    let ghost av = a.deep_view();
    let ghost bv = b.deep_view();
    proof {
        assert(av.len() == n && bv.len() == n);
        assert(forall|i: int|
            0 <= i < n ==> av[i] == rec_view(#[trigger] r1[i]) && bv[i] == rec_view(r2[i]));
        assert forall|i: int| 0 <= i < overlap_len(r1, r2) implies #[trigger] pair_parses(
            r1,
            r2,
            i,
        ) by {
            assert(rec_parses(r1[i]) && rec_parses(r2[i]));
        }
        assert(overlap_parses(r1, r2));
        if mismatch_positions(av, bv).len() == 0 {
            lemma_empty_report_means_equal(av, bv);
            assert forall|i: int| 0 <= i < overlap_len(r1, r2) implies #[trigger] pair_equal(
                r1,
                r2,
                i,
            ) by {
                assert(av[i] == rec_view(r1[i]));
                assert(bv[i] == rec_view(r2[i]));
                assert(av[i] == bv[i]);
            }
            assert(records_match(r1, r2));
        } else {
            lemma_nonempty_report_means_difference(av, bv);
            let j = choose|j: int| 0 <= j < overlap_len(av, bv) && av[j] != bv[j];
            assert(av[j] == rec_view(r1[j]));
            assert(bv[j] == rec_view(r2[j]));
            assert(!pair_equal(r1, r2, j));
            assert(!records_match(r1, r2));
        }
    }
    if rep.passed() {
        Ok(())
    } else {
        Err(HarnessError::Mismatch)
    }
}

/// Compare a stored log against an in-memory baseline positionally, under
/// the same contract as `compare_records` with the baseline as the right
/// side.
pub fn compare_records_with_txs(recs: &Vec<String>, txs: &Vec<Transaction>, quiet: bool) -> (r:
    Result<(), HarnessError>)
    ensures
        r is Ok <==> records_match_vec(recs.deep_view(), txs.deep_view()),
        (r matches Err(e) && e is Parse) <==> !prefix_parses(
            recs.deep_view(),
            overlap_len(recs.deep_view(), txs.deep_view()),
        ),
        (r matches Err(e) && e is Mismatch) <==> (prefix_parses(
            recs.deep_view(),
            overlap_len(recs.deep_view(), txs.deep_view()),
        ) && !records_match_vec(recs.deep_view(), txs.deep_view())),
{
    let ghost rs = recs.deep_view();
    let ghost tv = txs.deep_view();
    let n = if recs.len() <= txs.len() {
        recs.len()
    } else {
        txs.len()
    };
    proof {
        assert(overlap_len(rs, tv) == n as int);
    }
    let a = match parse_prefix(recs, n) {
        Ok(v) => v,
        Err(e) => {
            proof {
                assert(exists|i: int| 0 <= i < n && !(#[trigger] rec_parses(rs[i])));
                let i = choose|i: int| 0 <= i < n && !(#[trigger] rec_parses(rs[i]));
                assert(!record_matches_tx(rs, tv, i));
                assert(!records_match_vec(rs, tv));
            }
            return Err(e);
        },
    };
    let rep = crosscheck_txs(&a, txs, quiet);
    let ghost av = a.deep_view();
    proof {
        assert(av.len() == n);
        assert(overlap_len(av, tv) == n as int);
        assert(forall|i: int| 0 <= i < n ==> av[i] == rec_view(#[trigger] rs[i]));
        if mismatch_positions(av, tv).len() == 0 {
            lemma_empty_report_means_equal(av, tv);
            assert forall|i: int| 0 <= i < overlap_len(rs, tv) implies #[trigger] record_matches_tx(
                rs,
                tv,
                i,
            ) by {
                assert(av[i] == rec_view(rs[i]));
                assert(av[i] == tv[i]);
            }
            assert(records_match_vec(rs, tv));
        } else {
            lemma_nonempty_report_means_difference(av, tv);
            let j = choose|j: int| 0 <= j < overlap_len(av, tv) && av[j] != tv[j];
            assert(av[j] == rec_view(rs[j]));
            assert(!record_matches_tx(rs, tv, j));
            assert(!records_match_vec(rs, tv));
        }
    }
    if rep.passed() {
        Ok(())
    } else {
        Err(HarnessError::Mismatch)
    }
}

/// Compare two transaction logs element by element in iteration order.
/// Success means every paired record of the two logs is well-formed and
/// structurally equal; trailing records of the longer log are not checked.
pub fn compare(db1: redb::Database, db2: redb::Database, quiet: bool) -> (r: Result<
    (),
    HarnessError,
>)
    ensures
        r is Ok ==> records_match(db_records(db1), db_records(db2)),
        (r matches Err(e) && e is Mismatch) ==> !records_match(db_records(db1), db_records(db2)),
        (r matches Err(e) && e is Parse) ==> !overlap_parses(db_records(db1), db_records(db2)),
{
    let recs1 = match db_read_records(&db1) {
        Ok(v) => v,
        Err(e) => {
            return Err(e);
        },
    };
    let recs2 = match db_read_records(&db2) {
        Ok(v) => v,
        Err(e) => {
            return Err(e);
        },
    };
    compare_records(&recs1, &recs2, quiet)
}

/// Compare a transaction log against an in-memory baseline in iteration
/// order. Success means every paired record is well-formed and equal to
/// its baseline entry; trailing entries of the longer side are not
/// checked.
pub fn compare_with_vec(db1: redb::Database, v: &Vec<Transaction>, quiet: bool) -> (r: Result<
    (),
    HarnessError,
>)
    ensures
        r is Ok ==> records_match_vec(db_records(db1), v.deep_view()),
        (r matches Err(e) && e is Mismatch) ==> !records_match_vec(db_records(db1), v.deep_view()),
        (r matches Err(e) && e is Parse) ==> !prefix_parses(
            db_records(db1),
            overlap_len(db_records(db1), v.deep_view()),
        ),
{
    let recs = match db_read_records(&db1) {
        Ok(r) => r,
        Err(e) => {
            return Err(e);
        },
    };
    compare_records_with_txs(&recs, v, quiet)
}

} // verus!
