//! Transactions: immutable records of one protocol-significant event, and
//! the text encoding under which they are stored in a transaction log.
use crate::HarnessError;
use vstd::prelude::*;

verus! {

/// One recorded protocol-significant event: an operation kind and the
/// ordered string parameters of that operation. Immutable once built;
/// equality is structural and parameter order matters.
#[derive(Debug)]
pub struct Transaction {
    pub kind: String,
    pub params: Vec<String>,
}

/// The mathematical value of a `Transaction`.
#[verifier::ext_equal]
pub ghost struct TransactionView {
    pub kind: Seq<char>,
    pub params: Seq<Seq<char>>,
}

impl View for Transaction {
    type V = TransactionView;

    open spec fn view(&self) -> TransactionView {
        TransactionView { kind: self.kind@, params: self.params.deep_view() }
    }
}

impl DeepView for Transaction {
    type V = TransactionView;

    open spec fn deep_view(&self) -> TransactionView {
        self.view()
    }
}

/// Structural equality of two ordered parameter lists.
fn params_eq(a: &Vec<String>, b: &Vec<String>) -> (r: bool)
    ensures
        r == (a.deep_view() == b.deep_view()),
{
    if a.len() != b.len() {
        proof {
            assert(a.deep_view().len() != b.deep_view().len());
        }
        return false;
    }
    let n = a.len();
    let mut i: usize = 0;
    while i < n
        invariant
            n == a.len(),
            a.len() == b.len(),
            0 <= i <= n,
            forall|j: int| 0 <= j < i ==> a.deep_view()[j] == b.deep_view()[j],
        decreases n - i,
    {
        if !(a[i] == b[i]) {
            assert(a.deep_view()[i as int] != b.deep_view()[i as int]);
            return false;
        }
        i += 1;
    }
    proof {
        assert(a.deep_view() =~= b.deep_view());
    }
    true
}

impl PartialEq for Transaction {
    /// Structural equality: the kinds match and the parameters match
    /// pairwise, in order.
    fn eq(&self, other: &Transaction) -> (r: bool) {
        self.kind == other.kind && params_eq(&self.params, &other.params)
    }
}

impl Eq for Transaction {}

impl vstd::std_specs::cmp::PartialEqSpecImpl for Transaction {
    open spec fn obeys_eq_spec() -> bool {
        true
    }

    open spec fn eq_spec(&self, other: &Transaction) -> bool {
        self@ == other@
    }
}

/// Which named fields of a pair of transactions disagree.
#[derive(Debug)]
pub struct TxFieldDiff {
    pub kind_differs: bool,
    pub params_differ: bool,
}

impl Transaction {
    /// Build the record of one protocol event.
    pub fn new(kind: String, params: Vec<String>) -> (t: Transaction)
        ensures
            t@ == (TransactionView { kind: kind@, params: params.deep_view() }),
    {
        Transaction { kind, params }
    }

    /// Field-by-field comparison: reports, by name, every field on which
    /// `self` and `other` differ.
    pub fn field_diff(&self, other: &Transaction) -> (d: TxFieldDiff)
        ensures
            d.kind_differs == (self@.kind != other@.kind),
            d.params_differ == (self@.params != other@.params),
            (!d.kind_differs && !d.params_differ) <==> self@ == other@,
    {
        let d = TxFieldDiff {
            kind_differs: !(self.kind == other.kind),
            params_differ: !params_eq(&self.params, &other.params),
        };
        proof {
            if !d.kind_differs && !d.params_differ {
                assert(self@ =~= other@);
            }
        }
        d
    }
}

/// The text under which `serde_json` stores a transaction with the given
/// kind and parameters: a JSON object with a string field `kind` and a
/// string-array field `params`.
pub uninterp spec fn record_json_of(kind: Seq<char>, params: Seq<Seq<char>>) -> Seq<char>;

/// What `serde_json` recovers from a stored record: the kind and the
/// parameters when the text is a well-formed record, `None` otherwise.
/// Parsing is a function of the text alone.
pub uninterp spec fn record_parse(s: Seq<char>) -> Option<(Seq<char>, Seq<Seq<char>>)>;

/// The stored text form of a transaction value.
pub open spec fn record_of(t: TransactionView) -> Seq<char> {
    record_json_of(t.kind, t.params)
}

/// Whether a stored record is a well-formed serialized transaction.
pub open spec fn rec_parses(s: Seq<char>) -> bool {
    record_parse(s) is Some
}

/// The transaction a well-formed stored record stands for.
pub open spec fn rec_view(s: Seq<char>) -> TransactionView {
    TransactionView { kind: record_parse(s).unwrap().0, params: record_parse(s).unwrap().1 }
}

/// Relies on `serde_json::to_string` over a `serde_json::Value` built from
/// the two fields: the output depends on the inputs alone (object keys are
/// kept sorted), and `serde_json::from_str` on that output recovers the
/// same fields.
#[verifier::external_body]
fn encode_record(kind: &String, params: &Vec<String>) -> (r: String)
    ensures
        r@ == record_json_of(kind@, params.deep_view()),
        record_parse(r@) == Some((kind@, params.deep_view())),
{
    let mut map = serde_json::Map::new();
    map.insert("kind".to_string(), serde_json::Value::String(kind.clone()));
    map.insert(
        "params".to_string(),
        serde_json::Value::Array(params.iter().map(|p| serde_json::Value::String(p.clone())).collect()),
    );
    serde_json::Value::Object(map).to_string()
}

/// Relies on `serde_json::from_str`: the result is a function of the text
/// alone. The body accepts exactly the JSON objects whose `kind` field is a
/// string and whose `params` field is an array of strings, and hands the
/// two fields back.
#[verifier::external_body]
fn decode_record(s: &str) -> (r: Option<(String, Vec<String>)>)
    ensures
        r is Some <==> record_parse(s@) is Some,
        r is Some ==> r.unwrap().0@ == record_parse(s@).unwrap().0,
        r is Some ==> r.unwrap().1.deep_view() == record_parse(s@).unwrap().1,
{
    let v: serde_json::Value = match serde_json::from_str(s) {
        Ok(v) => v,
        Err(_) => return None,
    };
    let obj = v.as_object()?;
    let kind = obj.get("kind")?.as_str()?.to_string();
    let mut params = Vec::new();
    for p in obj.get("params")?.as_array()? {
        params.push(p.as_str()?.to_string());
    }
    Some((kind, params))
}

impl Transaction {
    /// The stored text form of this transaction.
    pub fn to_record(&self) -> (r: String)
        ensures
            r@ == record_json_of(self@.kind, self@.params),
            record_parse(r@) == Some((self@.kind, self@.params)),
    {
        encode_record(&self.kind, &self.params)
    }

    /// Recover a transaction from its stored text form. Returns `Ok`
    /// exactly on well-formed records, and then the transaction the record
    /// stands for.
    pub fn from_record(s: &str) -> (r: Result<Transaction, HarnessError>)
        ensures
            r is Ok <==> rec_parses(s@),
            r is Ok ==> r->Ok_0@ == rec_view(s@),
            r is Err ==> r->Err_0 is Parse,
    {
        match decode_record(s) {
            Some((kind, params)) => Ok(Transaction { kind, params }),
            None => Err(HarnessError::Parse(s.to_owned())),
        }
    }

    /// Round trip: decoding the encoded form of a transaction yields a
    /// transaction structurally equal to the original, for every
    /// transaction.
    pub fn reencoded(&self) -> (r: Transaction)
        ensures
            r@ == self@,
    {
        let s = self.to_record();
        match Transaction::from_record(s.as_str()) {
            Ok(t) => t,
            Err(_) => {
                proof {
                    assert(false);
                }
                unreached()
            },
        }
    }
}

} // verus!
