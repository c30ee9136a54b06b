//! The container daemon's resources as the core sees them, and the decisions
//! taken on its replies: which containers a listing shows, the options of a
//! log session, and the outcome of an image pull.
use vstd::prelude::*;
use crate::error::CoreError;

verus! {

broadcast use vstd::seq_lib::group_seq_properties;

/// The lifecycle state of a container.
#[derive(PartialEq, Eq, Structural, Clone, Copy, Debug)]
pub enum ContainerState {
    Created,
    Running,
    Paused,
    Restarting,
    Exited,
    Dead,
}

/// A published port of a container.
#[derive(Debug)]
pub struct PortBinding {
    pub private_port: u16,
    pub public_port: Option<u16>,
    pub protocol: String,
}

/// One container of a listing.
#[derive(Debug)]
pub struct ContainerSummary {
    pub id: String,
    pub names: Vec<String>,
    pub image: String,
    pub state: ContainerState,
    pub ports: Vec<PortBinding>,
    pub created: i64,
}

/// The query of a container listing.
#[derive(Debug)]
pub struct ListOptions {
    pub all: Option<bool>,
}

/// The options of a log session.
#[derive(PartialEq, Eq, Structural, Clone, Copy, Debug)]
pub struct LogOptions {
    /// How many lines from the end of the log come first.
    pub tail_count: u64,
    /// Whether the session goes on with new lines once the log's end is reached.
    pub follow: bool,
}

/// One item of an image pull's progress stream.
#[derive(Debug)]
pub enum PullItem {
    /// A progress report.
    Progress,
    /// An error reported by the daemon, with its HTTP status when there was one.
    Failed { status: Option<u16>, message: String },
}

/// What an image pull does after one item, or after the end of its stream.
#[derive(Debug)]
pub enum PullStep {
    /// Keep draining the stream.
    Continue,
    /// The pull is over with this result.
    Done(Result<(), CoreError>),
}

/// Whether a container in `state` counts as running, as the daemon's own
/// listing filter counts it: paused and restarting containers do.
pub open spec fn counts_as_running(state: ContainerState) -> bool {
    state == ContainerState::Running || state == ContainerState::Paused || state == ContainerState::Restarting
}

/// Whether a container in `state` is shown by a listing that includes
/// stopped containers or not.
pub open spec fn shown(include_stopped: bool, state: ContainerState) -> bool {
    include_stopped || counts_as_running(state)
}

/// The containers of `listing` that a listing shows, in the daemon's order.
pub open spec fn selected(listing: Seq<ContainerSummary>, include_stopped: bool) -> Seq<ContainerSummary> {
    listing.filter(|x: ContainerSummary| shown(include_stopped, x.state))
}

/// What the pull does with one item of its stream (`None`: the end).
pub open spec fn pull_next(item: Option<PullItem>) -> PullStep {
    match item {
        None => PullStep::Done(Ok(())),
        Some(PullItem::Progress) => PullStep::Continue,
        Some(PullItem::Failed { status, message }) => PullStep::Done(
            Err(CoreError::DaemonError { status, message }),
        ),
    }
}

/// The result of a pull whose progress stream yields `items` and then ends.
pub open spec fn pull_outcome(items: Seq<PullItem>) -> Result<(), CoreError>
    decreases items.len(),
{
    if items.len() == 0 {
        pull_next(None)->Done_0
    } else {
        match pull_next(Some(items[0])) {
            PullStep::Done(r) => r,
            PullStep::Continue => pull_outcome(items.drop_first()),
        }
    }
}

impl ContainerState {
    /// The state that the daemon names `s`, if any.
    pub open spec fn spec_parse(s: Seq<char>) -> Option<ContainerState> {
        if s == "created"@ {
            Some(ContainerState::Created)
        } else if s == "running"@ {
            Some(ContainerState::Running)
        } else if s == "paused"@ {
            Some(ContainerState::Paused)
        } else if s == "restarting"@ {
            Some(ContainerState::Restarting)
        } else if s == "exited"@ {
            Some(ContainerState::Exited)
        } else if s == "dead"@ {
            Some(ContainerState::Dead)
        } else {
            None
        }
    }

    /// The state that a reported state name stands for, exited where the
    /// name is missing or unknown.
    pub open spec fn spec_reported(s: Option<String>) -> ContainerState {
        match s {
            Some(t) => match ContainerState::spec_parse(t@) {
                Some(st) => st,
                None => ContainerState::Exited,
            },
            None => ContainerState::Exited,
        }
    }

    /// Whether a container in this state counts as running.
    pub fn counts_as_running(&self) -> (r: bool)
        ensures
            r == counts_as_running(*self),
    {
        match self {
            ContainerState::Running | ContainerState::Paused | ContainerState::Restarting => true,
            _ => false,
        }
    }

    /// The state of a container as the daemon reports it; a missing or
    /// unknown state name is taken as exited, a container not running.
    pub fn reported(s: &Option<String>) -> (r: ContainerState)
        ensures
            r == ContainerState::spec_reported(*s),
    {
        match s {
            Some(t) => match ContainerState::parse(t) {
                Some(st) => st,
                None => ContainerState::Exited,
            },
            None => ContainerState::Exited,
        }
    }

    /// Reads a state as the daemon names it.
    pub fn parse(s: &String) -> (r: Option<ContainerState>)
        ensures
            r == ContainerState::spec_parse(s@),
    {
        if *s == crate::text::lit("created") {
            Some(ContainerState::Created)
        } else if *s == crate::text::lit("running") {
            Some(ContainerState::Running)
        } else if *s == crate::text::lit("paused") {
            Some(ContainerState::Paused)
        } else if *s == crate::text::lit("restarting") {
            Some(ContainerState::Restarting)
        } else if *s == crate::text::lit("exited") {
            Some(ContainerState::Exited)
        } else if *s == crate::text::lit("dead") {
            Some(ContainerState::Dead)
        } else {
            None
        }
    }
}

impl ListOptions {
    /// Whether stopped containers are listed; they are not unless asked for.
    pub fn include_stopped(&self) -> (r: bool)
        ensures
            r == (self.all == Some(true)),
    {
        match self.all {
            Some(a) => a,
            None => false,
        }
    }
}

impl LogOptions {
    /// The options of a client's log session: the last hundred lines, then
    /// new lines as they come.
    pub fn session_default() -> (r: LogOptions)
        ensures
            r.tail_count == 100,
            r.follow,
    {
        LogOptions { tail_count: 100, follow: true }
    }
}

/// The containers of a daemon listing that are shown: all of them when
/// stopped ones are included, else those that count as running, in the
/// same order. On a listing that the daemon already filtered the same way,
/// this keeps every container.
pub fn select_containers(listing: Vec<ContainerSummary>, include_stopped: bool) -> (r: Vec<ContainerSummary>)
    ensures
        r@ == selected(listing@, include_stopped),
{
    let ghost whole = listing@;
    let ghost pred: spec_fn(ContainerSummary) -> bool = |x: ContainerSummary| shown(include_stopped, x.state);
    let mut rest = listing;
    let mut r: Vec<ContainerSummary> = Vec::new();
    let mut i: usize = 0;
    let n = rest.len();
    while i < n
        invariant
            n == whole.len(),
            i <= n,
            pred == (|x: ContainerSummary| shown(include_stopped, x.state)),
            rest@ == whole.subrange(i as int, n as int),
            r@ == whole.subrange(0, i as int).filter(pred),
        decreases n - i,
    {
        let c = rest.remove(0);
        proof {
            assert(whole.subrange(0, i + 1) == whole.subrange(0, i as int).push(c));
            whole.subrange(0, i as int).lemma_filter_push(c, pred);
        }
        if include_stopped || c.state.counts_as_running() {
            r.push(c);
        }
        i = i + 1;
    }
    assert(whole.subrange(0, n as int) == whole);
    r
}

/// What an image pull does with one item of its progress stream, `None`
/// being the stream's end: progress is drained, the first error ends the
/// pull as a daemon error, and the end of the stream completes it.
pub fn pull_step(item: Option<PullItem>) -> (r: PullStep)
    ensures
        r == pull_next(item),
{
    match item {
        None => PullStep::Done(Ok(())),
        Some(PullItem::Progress) => PullStep::Continue,
        Some(PullItem::Failed { status, message }) => PullStep::Done(Err(CoreError::from_daemon(status, message))),
    }
}

/// Every container that a listing of running containers shows is shown by
/// the listing of all containers taken from the same daemon reply.
pub proof fn lemma_running_within_all(listing: Seq<ContainerSummary>)
    ensures
        forall|c: ContainerSummary| #[trigger] selected(listing, false).contains(c) ==> selected(listing, true).contains(c),
        selected(listing, true) == listing,
    decreases listing.len(),
{
    if listing.len() > 0 {
        let init = listing.drop_last();
        let last = listing.last();
        lemma_running_within_all(init);
        assert(init.push(last) == listing);
        init.lemma_filter_push(last, |c: ContainerSummary| shown(false, c.state));
        init.lemma_filter_push(last, |c: ContainerSummary| shown(true, c.state));
        assert forall|c: ContainerSummary| #[trigger] selected(listing, false).contains(c) implies
            selected(listing, true).contains(c) by {
            if c != last {
                assert(selected(init, false).contains(c));
            } else {
                assert(listing[listing.len() - 1] == c);
            }
        }
    } else {
        assert(listing.filter(|c: ContainerSummary| shown(true, c.state)) =~= listing) by {
            reveal(Seq::filter);
        }
    }
}

/// A pull whose progress stream reports an error fails as a whole, with the
/// first error that the daemon reported; it succeeds only when no item of
/// the stream is an error.
pub proof fn lemma_pull_fails_on_any_error(items: Seq<PullItem>)
    ensures
        pull_outcome(items) is Ok <==> (forall|i: int| 0 <= i < items.len() ==> #[trigger] items[i] is Progress),
        pull_outcome(items) matches Err(e) ==> exists|i: int|
            0 <= i < items.len() && (forall|j: int| 0 <= j < i ==> #[trigger] items[j] is Progress)
                && (#[trigger] items[i] matches PullItem::Failed { status, message }
                && e == (CoreError::DaemonError { status, message })),
    decreases items.len(),
{
    if items.len() > 0 {
        let rest = items.drop_first();
        lemma_pull_fails_on_any_error(rest);
        if items[0] is Progress {
            assert forall|i: int| 0 <= i < rest.len() implies rest[i] == items[i + 1] by {}
            if (forall|i: int| 0 <= i < rest.len() ==> #[trigger] rest[i] is Progress) {
                assert forall|i: int| 0 <= i < items.len() implies #[trigger] items[i] is Progress by {
                    if i > 0 {
                        assert(rest[i - 1] is Progress);
                    }
                }
            } else {
                let k = choose|k: int| 0 <= k < rest.len() && !(#[trigger] rest[k] is Progress);
                assert(!(items[k + 1] is Progress));
            }
            if let Err(e) = pull_outcome(items) {
                let i = choose|i: int|
                    0 <= i < rest.len() && (forall|j: int| 0 <= j < i ==> #[trigger] rest[j] is Progress)
                        && (#[trigger] rest[i] matches PullItem::Failed { status, message }
                        && e == (CoreError::DaemonError { status, message }));
                assert forall|j: int| 0 <= j < i + 1 implies #[trigger] items[j] is Progress by {
                    if j > 0 {
                        assert(rest[j - 1] is Progress);
                    }
                }
                assert(items[i + 1] == rest[i]);
            }
        } else {
            assert(!(items[0] is Progress));
        }
    }
}

} // verus!
