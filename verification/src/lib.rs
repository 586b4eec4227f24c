//! Equivalence-testing harness for backend implementations of a stateful
//! request/response protocol. Each backend records the ordered sequence of
//! protocol-significant operations it performs into an append-only
//! transaction log; the harness compares those logs element by element,
//! against each other or against a stored baseline, and drives the
//! `record` / `run` workflows around that comparison.
use vstd::prelude::*;

pub mod cmd;
pub mod crosscheck;
pub mod scoreboard;
pub mod sequence;
pub mod store;
pub mod tx;

verus! {

/// A failure of the harness. `Mismatch` is the expected failure mode of a
/// cross-check (a real behavioural difference between backends); the other
/// variants are infrastructure errors.
#[derive(Debug)]
pub enum HarnessError {
    /// The transaction store could not be created, opened, read or written.
    Store(String),
    /// A stored record is not a well-formed serialized transaction.
    Parse(String),
    /// Two compared transaction sequences differ at some position.
    Mismatch,
}

impl HarnessError {
    /// A human-readable description of the failure.
    pub fn message(&self) -> (r: String)
        ensures
            self matches HarnessError::Store(d) ==> r@ == "transaction store failure: "@ + d@,
            self matches HarnessError::Parse(d) ==> r@ == "malformed transaction record: "@ + d@,
            self is Mismatch ==> r@ == "Mismatch detected!"@,
    {
        match self {
            HarnessError::Store(detail) => {
                let mut r = "transaction store failure: ".to_owned();
                r.append(detail.as_str());
                r
            },
            HarnessError::Parse(detail) => {
                let mut r = "malformed transaction record: ".to_owned();
                r.append(detail.as_str());
                r
            },
            HarnessError::Mismatch => "Mismatch detected!".to_owned(),
        }
    }
}

} // verus!
