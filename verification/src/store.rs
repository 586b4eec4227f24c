//! The transaction log: an append-only, durable, ordered table from a
//! monotonically increasing timestamp key to a serialized transaction,
//! backed by an embedded `redb` database. One log is owned for writing by
//! one backend process during one run; afterwards the harness opens it
//! read-only.
use crate::crosscheck::{parse_prefix, prefix_parses};
use crate::tx::{rec_parses, rec_view, record_of, Transaction};
use crate::HarnessError;
use redb::ReadableDatabase;
use redb::ReadableTable;
use vstd::prelude::*;

verus! {

/// `redb::Database`: the embedded ordered table that holds a transaction
/// log. Opaque to verification; its contents are modelled by `db_entries`.
#[verifier::external_type_specification]
#[verifier::external_body]
pub struct ExDatabase(redb::Database);

/// The contents of the transaction table of a database: its (key, record)
/// pairs in ascending key order, which is also the table's iteration
/// order. Empty while the table has not been created.
pub uninterp spec fn db_entries(db: redb::Database) -> Seq<(u128, Seq<char>)>;

/// The stored records of a database, in key order.
pub open spec fn db_records(db: redb::Database) -> Seq<Seq<char>> {
    db_entries(db).map_values(|e: (u128, Seq<char>)| e.1)
}

/// Whether `key` lies strictly above every key of `entries`.
pub open spec fn above_all_keys(entries: Seq<(u128, Seq<char>)>, key: u128) -> bool {
    forall|i: int| 0 <= i < entries.len() ==> entries[i].0 < key
}

/// Relies on `redb::Database::create` (open the file, creating it if
/// absent) followed by `WriteTransaction::delete_table` and `commit`: on
/// success the log at `path` exists and holds no transaction entries.
#[verifier::external_body]
fn db_create_fresh(path: &str) -> (r: Result<redb::Database, HarnessError>)
    ensures
        r is Ok ==> db_entries(r->Ok_0) == Seq::<(u128, Seq<char>)>::empty(),
        r is Err ==> r->Err_0 is Store,
{
    let db = redb::Database::create(path).map_err(|e| HarnessError::Store(format!("{e}")))?;
    let wt = db.begin_write().map_err(|e| HarnessError::Store(format!("{e}")))?;
    wt.delete_table(redb::TableDefinition::<u128, String>::new("transactions"))
        .map_err(|e| HarnessError::Store(format!("{e}")))?;
    wt.commit().map_err(|e| HarnessError::Store(format!("{e}")))?;
    Ok(db)
}

/// Relies on `redb::Database::open`: opens an existing database file with
/// whatever contents it holds; fails if the file is absent or corrupt.
#[verifier::external_body]
fn db_open(path: &str) -> (r: Result<redb::Database, HarnessError>)
    ensures
        r is Err ==> r->Err_0 is Store,
{
    redb::Database::open(path).map_err(|e| HarnessError::Store(format!("{e}")))
}

/// Open an existing log for read-only inspection, as the harness does once
/// the producing backend has exited; fails if the log is absent or
/// corrupt.
pub fn open_log(path: &str) -> (r: Result<redb::Database, HarnessError>)
    ensures
        r is Err ==> r->Err_0 is Store,
{
    db_open(path)
}

/// Relies on `Table::insert` inside one `begin_write`/`commit` write
/// transaction: an atomic single-record append. Inserting under a key
/// above every stored key extends the iteration order at the end. A failed
/// commit is still all-or-nothing, but its changes may have become durable,
/// so on failure the log holds either the old or the appended contents.
#[verifier::external_body]
fn db_insert(db: &mut redb::Database, key: u128, value: &String) -> (r: Result<
    (),
    HarnessError,
>)
    ensures
        (r is Ok && above_all_keys(db_entries(*old(db)), key)) ==> db_entries(*final(db))
            == db_entries(*old(db)).push((key, value@)),
        (r is Err && above_all_keys(db_entries(*old(db)), key)) ==> (db_entries(*final(db))
            == db_entries(*old(db)) || db_entries(*final(db)) == db_entries(*old(db)).push(
            (key, value@),
        )),
        r is Err ==> r->Err_0 is Store,
{
    let wt = db.begin_write().map_err(|e| HarnessError::Store(format!("{e}")))?;
    {
        let mut table = wt
            .open_table(redb::TableDefinition::<u128, String>::new("transactions"))
            .map_err(|e| HarnessError::Store(format!("{e}")))?;
        table.insert(key, value).map_err(|e| HarnessError::Store(format!("{e}")))?;
    }
    wt.commit().map_err(|e| HarnessError::Store(format!("{e}")))?;
    Ok(())
}

/// Relies on `ReadableTable::iter` inside one read transaction: hands back
/// every stored record, in ascending key order. A log whose transaction
/// table was never written is reported as a storage failure, as opening
/// its table fails.
#[verifier::external_body]
pub(crate) fn db_read_records(db: &redb::Database) -> (r: Result<Vec<String>, HarnessError>)
    ensures
        r is Ok ==> r->Ok_0.deep_view() == db_records(*db),
        r is Err ==> r->Err_0 is Store,
{
    let rt = db.begin_read().map_err(|e| HarnessError::Store(format!("{e}")))?;
    let table = rt
        .open_table(redb::TableDefinition::<u128, String>::new("transactions"))
        .map_err(|e| HarnessError::Store(format!("{e}")))?;
    let mut out = Vec::new();
    for entry in table.iter().map_err(|e| HarnessError::Store(format!("{e}")))? {
        let (_k, v) = entry.map_err(|e| HarnessError::Store(format!("{e}")))?;
        out.push(v.value());
    }
    Ok(out)
}

/// Read the full, ordered contents of a log as transactions: a fresh
/// iteration always starts from the first entry and runs in key order.
/// Succeeds exactly when the log can be read and every stored record is
/// well-formed.
pub fn read_transactions(db: &redb::Database) -> (r: Result<Vec<Transaction>, HarnessError>)
    ensures
        r is Ok ==> prefix_parses(db_records(*db), db_records(*db).len() as int),
        r is Ok ==> r->Ok_0.deep_view() == Seq::new(
            db_records(*db).len(),
            |i: int| rec_view(db_records(*db)[i]),
        ),
{
    let recs = match db_read_records(db) {
        Ok(v) => v,
        Err(e) => {
            return Err(e);
        },
    };
    let n = recs.len();
    parse_prefix(&recs, n)
}

/// Relies on `std::time::SystemTime::now`: nanoseconds since the epoch, or
/// zero for a clock before it. The value is only a hint for the next
/// append key; no caller relies on it.
#[verifier::external_body]
fn now_nanos() -> u128 {
    match std::time::SystemTime::now().duration_since(std::time::SystemTime::UNIX_EPOCH) {
        Ok(d) => d.as_nanos(),
        Err(_) => 0,
    }
}

/// A transaction log owned for writing by one backend run: the database
/// together with the key floor that keeps appends in insertion order even
/// when the wall clock stalls or steps backwards.
pub struct TxStore {
    db: redb::Database,
    next_key: u128,
}

impl TxStore {
    /// Every stored key lies below the floor, so the next append extends
    /// the iteration order at its end.
    pub closed spec fn wf(&self) -> bool {
        above_all_keys(db_entries(self.db), self.next_key)
    }

    /// The stored records, in insertion order.
    pub closed spec fn records(&self) -> Seq<Seq<char>> {
        db_records(self.db)
    }

    /// Open the log at `path` for one backend run, clearing any contents
    /// left from an earlier run: each run starts from an empty log.
    pub fn create_fresh(path: &str) -> (r: Result<TxStore, HarnessError>)
        ensures
            r is Ok ==> r->Ok_0.wf() && r->Ok_0.records() == Seq::<Seq<char>>::empty(),
    {
        let db = db_create_fresh(path)?;
        proof {
            assert(db_records(db) =~= Seq::<Seq<char>>::empty());
        }
        Ok(TxStore { db, next_key: 0 })
    }

    /// Hand the log over for read-only inspection, as the harness takes
    /// ownership after the backend process has exited.
    pub fn into_db(self) -> (r: redb::Database)
        ensures
            db_records(r) == self.records(),
    {
        self.db
    }
}

impl Transaction {
    /// Atomically persist this transaction at the end of the log, under a
    /// fresh key above every stored key. On success the log holds exactly
    /// the old records followed by this transaction's record; on failure
    /// it holds either the old records alone or that same appended form
    /// (the commit is all-or-nothing, but a failed commit may still have
    /// applied).
    pub fn write(&self, store: &mut TxStore) -> (r: Result<(), HarnessError>)
        requires
            old(store).wf(),
        ensures
            final(store).wf(),
            r is Ok ==> final(store).records() == old(store).records().push(record_of(self@)),
            r is Ok ==> rec_parses(record_of(self@)) && rec_view(record_of(self@)) == self@,
            r is Err ==> (final(store).records() == old(store).records() || final(store).records()
                == old(store).records().push(record_of(self@))),
    {
        if store.next_key == u128::MAX {
            return Err(HarnessError::Store("transaction key space exhausted".to_owned()));
        }
        let now = now_nanos();
        let key = if now >= store.next_key && now < u128::MAX {
            now
        } else {
            store.next_key
        };
        let record = self.to_record();
        proof {
            assert(rec_view(record_of(self@)) =~= self@);
        }
        let ghost entries_before = db_entries(store.db);
        store.next_key = key + 1;
        let r = db_insert(&mut store.db, key, &record);
        proof {
            if db_entries(store.db) == entries_before.push((key, record@)) {
                assert(db_records(store.db) =~= entries_before.map_values(
                    |e: (u128, Seq<char>)| e.1,
                ).push(record@));
            }
        }
        r
    }
}

} // verus!
