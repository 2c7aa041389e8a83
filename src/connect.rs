use vstd::prelude::*;

use crate::connection::{Connection, ConnectionView};
use crate::service::Readiness;

verus! {

/// The scheme of a target address.
#[derive(Debug, Clone, Copy, PartialEq, Eq, Structural)]
pub enum Scheme {
    Http,
    Https,
    Other,
}

/// Where a connection should lead, as the engine parsed it.
#[derive(Debug, Clone)]
pub struct Target {
    pub scheme: Scheme,
    /// Host and port, as written in the address.
    pub authority: String,
    /// The path that the host primitive is asked for.
    pub path: String,
}

/// Why a connection attempt failed.
#[derive(Debug, Clone)]
pub enum ConnectError {
    /// The target cannot be reached by this connector; the host was not asked.
    TargetRejected,
    /// The host primitive itself failed, with the message it gave.
    HostFailure(String),
    /// The host primitive answered with a status outside 200 to 299.
    Status(u16),
    /// The attempt was driven out of order.
    Misuse,
}

/// What the host primitive settled with.
#[derive(Debug, Clone)]
pub enum HostOutcome {
    /// It completed with this numeric status.
    Status(u16),
    /// It failed with this message.
    Failure(String),
}

/// Only plain HTTP targets with a host can be fetched by the host primitive.
pub open spec fn target_accepted(t: Target) -> bool {
    t.scheme == Scheme::Http && t.authority@.len() > 0
}

/// A status in the success range.
pub open spec fn status_success(code: u16) -> bool {
    200 <= code <= 299
}

/// What a settled host operation turns into.
pub open spec fn host_result(o: HostOutcome) -> Result<ConnectionView, ConnectError> {
    match o {
        HostOutcome::Status(code) => if status_success(code) {
            Ok(ConnectionView::fresh())
        } else {
            Err(ConnectError::Status(code))
        },
        HostOutcome::Failure(m) => Err(ConnectError::HostFailure(m)),
    }
}

/// The abstract state of one connection attempt.
pub enum AttemptView {
    Idle,
    /// Waiting for the host primitive to fetch this path.
    AwaitingHost(Seq<char>),
    Resolved(ConnectionView),
    Failed(ConnectError),
}

impl AttemptView {
    /// The attempt has its one result.
    pub open spec fn is_settled(self) -> bool {
        self is Resolved || self is Failed
    }
}

/// The state an idle attempt moves to when it is started toward `t`.
pub open spec fn begin_spec(t: Target) -> AttemptView {
    if target_accepted(t) {
        AttemptView::AwaitingHost(t.path@)
    } else {
        AttemptView::Failed(ConnectError::TargetRejected)
    }
}

/// The state an attempt moves to when the host primitive settles with `o`.
/// Only an attempt that waits for the host moves.
pub open spec fn settle_spec(s: AttemptView, o: HostOutcome) -> AttemptView {
    match s {
        AttemptView::AwaitingHost(_) => match host_result(o) {
            Ok(c) => AttemptView::Resolved(c),
            Err(e) => AttemptView::Failed(e),
        },
        _ => s,
    }
}

/// An attempt started once and settled once has exactly one result, a
/// connection or an error; a later settlement changes nothing. A rejected
/// target fails at once, before the host is asked.
pub proof fn lemma_one_result(t: Target, o: HostOutcome, later: HostOutcome)
    ensures
        settle_spec(begin_spec(t), o).is_settled(),
        settle_spec(settle_spec(begin_spec(t), o), later) == settle_spec(begin_spec(t), o),
        !target_accepted(t) ==> begin_spec(t) == AttemptView::Failed(ConnectError::TargetRejected),
{
}

/// For an accepted target, a host status in 200 to 299 gives a fresh
/// connection, and any other status a failure that carries the status.
pub proof fn lemma_status_decides(t: Target, code: u16)
    requires
        target_accepted(t),
    ensures
        status_success(code) ==> settle_spec(begin_spec(t), HostOutcome::Status(code))
            == AttemptView::Resolved(ConnectionView::fresh()),
        !status_success(code) ==> settle_spec(begin_spec(t), HostOutcome::Status(code))
            == AttemptView::Failed(ConnectError::Status(code)),
{
}

/// For an accepted target, a failure of the host primitive gives a failure
/// that carries the host's message, and no connection.
pub proof fn lemma_host_failure_kept(t: Target, message: String)
    requires
        target_accepted(t),
    ensures
        settle_spec(begin_spec(t), HostOutcome::Failure(message))
            == AttemptView::Failed(ConnectError::HostFailure(message)),
{
}

/// Turns what the host primitive settled with into the connector's result.
pub fn connection_from_host(outcome: HostOutcome) -> (r: Result<Connection, ConnectError>)
    ensures
        match (r, host_result(outcome)) {
            (Ok(c), Ok(v)) => c@ == v,
            (Err(e), Err(f)) => e == f,
            _ => false,
        },
{
    match outcome {
        HostOutcome::Status(code) => {
            if 200 <= code && code <= 299 {
                Ok(Connection::new())
            } else {
                Err(ConnectError::Status(code))
            }
        },
        HostOutcome::Failure(m) => Err(ConnectError::HostFailure(m)),
    }
}

/// The state of one connection attempt.
#[derive(Debug)]
pub enum ConnectorState {
    Idle,
    AwaitingHost(String),
    Resolved(Connection),
    Failed(ConnectError),
}

impl View for ConnectorState {
    type V = AttemptView;

    open spec fn view(&self) -> AttemptView {
        match self {
            ConnectorState::Idle => AttemptView::Idle,
            ConnectorState::AwaitingHost(p) => AttemptView::AwaitingHost(p@),
            ConnectorState::Resolved(c) => AttemptView::Resolved(c@),
            ConnectorState::Failed(e) => AttemptView::Failed(*e),
        }
    }
}

/// One connection attempt, driven by its caller.
///
/// The caller asks [`ConnectAttempt::host_request`] which path to fetch,
/// performs the fetch with the host primitive, and hands back what it settled
/// with through [`ConnectAttempt::settle`]. The host operation cannot be
/// cancelled once it runs: a caller that gives up simply drops the attempt.
#[derive(Debug)]
pub struct ConnectAttempt {
    state: ConnectorState,
}

impl View for ConnectAttempt {
    type V = AttemptView;

    closed spec fn view(&self) -> AttemptView {
        self.state@
    }
}

impl ConnectAttempt {
    /// An attempt that has not started.
    pub fn new() -> (r: ConnectAttempt)
        ensures
            r@ == AttemptView::Idle,
    {
        ConnectAttempt { state: ConnectorState::Idle }
    }

    /// Starts an idle attempt toward `target`: it then waits for the host, or
    /// has failed at once where the target is rejected. Starting an attempt
    /// that is not idle is misuse and leaves it as it was.
    pub fn begin(&mut self, target: &Target) -> (r: Result<(), ConnectError>)
        ensures
            old(self)@ is Idle ==> r is Ok && final(self)@ == begin_spec(*target),
            !(old(self)@ is Idle) ==> r == Err::<(), ConnectError>(ConnectError::Misuse) && final(self)@ == old(self)@,
    {
        match self.state {
            ConnectorState::Idle => {},
            _ => return Err(ConnectError::Misuse),
        }
        if target.scheme == Scheme::Http && !target.authority.as_str().is_empty() {
            self.state = ConnectorState::AwaitingHost(target.path.clone());
        } else {
            self.state = ConnectorState::Failed(ConnectError::TargetRejected);
        }
        Ok(())
    }

    /// The path that the host primitive should fetch, while the attempt waits
    /// for it.
    pub fn host_request(&self) -> (r: Option<String>)
        ensures
            match self@ {
                AttemptView::AwaitingHost(p) => r is Some && r->Some_0@ == p,
                _ => r is None,
            },
    {
        match &self.state {
            ConnectorState::AwaitingHost(p) => Some(p.clone()),
            _ => None,
        }
    }

    /// Hands over what the host primitive settled with. Only an attempt that
    /// waits for the host accepts it; on any other it is misuse, and the
    /// attempt keeps the one result it may already have.
    pub fn settle(&mut self, outcome: HostOutcome) -> (r: Result<(), ConnectError>)
        ensures
            final(self)@ == settle_spec(old(self)@, outcome),
            old(self)@ is AwaitingHost <==> r is Ok,
            !(old(self)@ is AwaitingHost) ==> r == Err::<(), ConnectError>(ConnectError::Misuse),
    {
        match self.state {
            ConnectorState::AwaitingHost(_) => {},
            _ => return Err(ConnectError::Misuse),
        }
        match connection_from_host(outcome) {
            Ok(c) => {
                self.state = ConnectorState::Resolved(c);
            },
            Err(e) => {
                self.state = ConnectorState::Failed(e);
            },
        }
        Ok(())
    }

    /// True once the attempt has its result.
    pub fn is_settled(&self) -> (r: bool)
        ensures
            r == self@.is_settled(),
    {
        match &self.state {
            ConnectorState::Resolved(_) | ConnectorState::Failed(_) => true,
            _ => false,
        }
    }

    /// The attempt's result: its connection, or why it failed. An attempt
    /// that has not settled yet gives `Misuse`.
    pub fn finish(self) -> (r: Result<Connection, ConnectError>)
        ensures
            match self@ {
                AttemptView::Resolved(v) => r is Ok && r->Ok_0@ == v,
                AttemptView::Failed(e) => r is Err && r->Err_0 == e,
                _ => r is Err && r->Err_0 == ConnectError::Misuse,
            },
    {
        match self.state {
            ConnectorState::Resolved(c) => Ok(c),
            ConnectorState::Failed(e) => Err(e),
            _ => Err(ConnectError::Misuse),
        }
    }
}

/// A connector that fetches through a host primitive.
///
/// It holds no state: every invocation starts an attempt of its own, so one
/// connector may be invoked any number of times, also while earlier attempts
/// are still waiting.
#[derive(Debug, Clone, Copy)]
pub struct Connector {}

impl Connector {
    /// A connector needs no configuration.
    pub fn new() -> Connector {
        Connector {}
    }

    /// Attempts impose no queueing, so the connector is always ready.
    pub fn poll_ready(&self) -> (r: Readiness<ConnectError>)
        ensures
            r is Ready,
    {
        Readiness::Ready
    }

    /// Starts an attempt toward `target`.
    pub fn call(&self, target: &Target) -> (r: ConnectAttempt)
        ensures
            r@ == begin_spec(*target),
    {
        let mut a = ConnectAttempt::new();
        let _ = a.begin(target);
        a
    }
}

} // verus!
