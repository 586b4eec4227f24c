//! Model of the reference scoreboard backend's protocol decisions: its
//! address namespace, its resource state, its operations, and the pure
//! decisions behind its protocol handlers. The backend's transport glue
//! and its live handles (database, random state) are outside collaborators
//! of the harness; only what it decides is modelled and verified here.
use vstd::prelude::*;

verus! {

/// The task kinds the scoreboard backend exposes.
#[derive(Debug, Clone)]
pub enum ScoreboardTaskType {
    CountDown,
}

/// An address in the scoreboard backend's namespace: its one resource, its
/// one bundle, or one of its tasks.
#[derive(Debug, Clone)]
pub enum ScoreboardAddress {
    Resource,
    Bundle,
    Task(ScoreboardTaskType),
}

/// The path under which each scoreboard address is materialized.
pub open spec fn address_path(addr: ScoreboardAddress) -> Seq<char> {
    match addr {
        ScoreboardAddress::Resource => "scoreboard/resource.ron"@,
        ScoreboardAddress::Bundle => "scoreboard/bundle.ron"@,
        ScoreboardAddress::Task(ScoreboardTaskType::CountDown) => "scoreboard/task/count_down.ron"@,
    }
}

impl ScoreboardAddress {
    /// The path this address maps to.
    pub fn to_path_string(&self) -> (r: String)
        ensures
            r@ == address_path(*self),
    {
        match self {
            ScoreboardAddress::Resource => "scoreboard/resource.ron".to_owned(),
            ScoreboardAddress::Bundle => "scoreboard/bundle.ron".to_owned(),
            ScoreboardAddress::Task(ScoreboardTaskType::CountDown) => {
                "scoreboard/task/count_down.ron".to_owned()
            },
        }
    }

    /// Parse an address back from a path. Exactly the three known paths
    /// are addresses; any other path is not part of this backend's
    /// namespace.
    pub fn from_path_string(path: &str) -> (r: Option<ScoreboardAddress>)
        ensures
            r is Some <==> (path@ == address_path(ScoreboardAddress::Resource) || path@
                == address_path(ScoreboardAddress::Bundle) || path@ == address_path(
                ScoreboardAddress::Task(ScoreboardTaskType::CountDown),
            )),
            r matches Some(a) ==> address_path(a) == path@,
    {
        let p = path.to_owned();
        if p == "scoreboard/resource.ron".to_owned() {
            Some(ScoreboardAddress::Resource)
        } else if p == "scoreboard/bundle.ron".to_owned() {
            Some(ScoreboardAddress::Bundle)
        } else if p == "scoreboard/task/count_down.ron".to_owned() {
            Some(ScoreboardAddress::Task(ScoreboardTaskType::CountDown))
        } else {
            None
        }
    }
}

/// The filter classification of a path: which kind of protocol object the
/// scoreboard backend exposes there, if any.
#[derive(Debug, PartialEq, Eq, Structural)]
pub enum FilterKind {
    Resource,
    Bundle,
    Task,
    NoMatch,
}

/// The classification the backend's filter handler gives each path.
pub open spec fn filter_of(path: Seq<char>) -> FilterKind {
    if path == address_path(ScoreboardAddress::Resource) {
        FilterKind::Resource
    } else if path == address_path(ScoreboardAddress::Bundle) {
        FilterKind::Bundle
    } else if path == address_path(ScoreboardAddress::Task(ScoreboardTaskType::CountDown)) {
        FilterKind::Task
    } else {
        FilterKind::NoMatch
    }
}

/// Classify a path as the backend's filter handler does.
pub fn filter_decision(path: &str) -> (r: FilterKind)
    ensures
        r == filter_of(path@),
{
    let p = path.to_owned();
    if p == "scoreboard/resource.ron".to_owned() {
        FilterKind::Resource
    } else if p == "scoreboard/bundle.ron".to_owned() {
        FilterKind::Bundle
    } else if p == "scoreboard/task/count_down.ron".to_owned() {
        FilterKind::Task
    } else {
        FilterKind::NoMatch
    }
}

/// The list decision: the backend exposes exactly its resource address.
pub fn list_paths() -> (r: Vec<String>)
    ensures
        r@.len() == 1,
        r@[0]@ == address_path(ScoreboardAddress::Resource),
{
    let mut r: Vec<String> = Vec::new();
    r.push(ScoreboardAddress::Resource.to_path_string());
    r
}

/// The scoreboard backend's one resource: its random integer state.
#[derive(Debug, Clone, Copy, PartialEq, Eq, Structural)]
pub struct ScoreboardState {
    pub random_int: i32,
}

/// One operation the scoreboard backend can plan and execute.
#[derive(Debug)]
pub enum ScoreboardConnectorOp {
    SetState(ScoreboardState),
}

/// The plan decision: with both a current and a desired state in hand, one
/// operation sets the desired state; with either side absent, nothing is
/// planned.
pub fn plan_ops(current: Option<ScoreboardState>, desired: Option<ScoreboardState>) -> (r: Vec<
    ScoreboardConnectorOp,
>)
    ensures
        (current is Some && desired is Some) ==> (r@.len() == 1 && (r@[0] matches
            ScoreboardConnectorOp::SetState(s) && s == desired.unwrap())),
        !(current is Some && desired is Some) ==> r@.len() == 0,
{
    let mut r: Vec<ScoreboardConnectorOp> = Vec::new();
    match (current, desired) {
        (Some(_), Some(d)) => {
            r.push(ScoreboardConnectorOp::SetState(d));
        },
        _ => {},
    }
    r
}

/// The outcome of executing one operation: any produced outputs and a
/// message describing what was done.
#[derive(Debug)]
pub struct OpExecOutcome {
    pub outputs: Option<Vec<String>>,
    pub friendly_message: Option<String>,
}

/// The operation-execution decision: setting the state produces no outputs
/// and reports what it set.
pub fn op_exec_outcome(op: &ScoreboardConnectorOp) -> (r: OpExecOutcome)
    ensures
        r.outputs is None,
        op is SetState ==> (r.friendly_message matches Some(m) && m@
            == "Set the state to the desired setting."@),
{
    match op {
        ScoreboardConnectorOp::SetState(_) => OpExecOutcome {
            outputs: None,
            friendly_message: Some("Set the state to the desired setting.".to_owned()),
        },
    }
}

/// One unbundled output: the address it materializes at and its contents.
#[derive(Debug)]
pub struct UnbundleElement {
    pub addr: String,
    pub contents: String,
}

/// The unbundle decision: the bundle address unpacks into its two fixed
/// outputs; every other address unpacks into nothing.
pub fn unbundle_elements(addr: &ScoreboardAddress) -> (r: Vec<UnbundleElement>)
    ensures
        addr is Bundle ==> (r@.len() == 2 && r@[0].addr@ == "scoreboard/bundle.1.out"@
            && r@[0].contents@ == "testbench generic output"@ && r@[1].addr@
            == "scoreboard/bundle.2.out"@ && r@[1].contents@ == "testbench generic output"@),
        !(addr is Bundle) ==> r@.len() == 0,
{
    let mut r: Vec<UnbundleElement> = Vec::new();
    match addr {
        ScoreboardAddress::Bundle => {
            r.push(
                UnbundleElement {
                    addr: "scoreboard/bundle.1.out".to_owned(),
                    contents: "testbench generic output".to_owned(),
                },
            );
            r.push(
                UnbundleElement {
                    addr: "scoreboard/bundle.2.out".to_owned(),
                    contents: "testbench generic output".to_owned(),
                },
            );
        },
        _ => {},
    }
    r
}

/// One step of the count-down task: a positive count steps down by one, a
/// zero count finishes the task, and with no count yet the initial
/// argument (if any) starts it.
pub fn count_down_step(arg: Option<usize>, state: Option<usize>) -> (r: Option<usize>)
    ensures
        (state matches Some(s) && s > 0) ==> r == Some((state.unwrap() - 1) as usize),
        state == Some(0usize) ==> r is None,
        state is None ==> r == arg,
{
    match state {
        Some(s) => {
            if s > 0 {
                Some(s - 1)
            } else {
                None
            }
        },
        None => arg,
    }
}

} // verus!
