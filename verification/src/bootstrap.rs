//! The health-checked bootstrap of the download client.
//!
//! Connecting and asking are the caller's work; deciding what comes next is
//! done here. The caller hands in each outcome as an event and is told the
//! next thing to do. A download client is delivered only at the end of the
//! sequence connect, check, connect, all three on one endpoint.

use vstd::prelude::*;
use crate::endpoint::Endpoint;
use crate::error::{ConnectStage, Error, ErrorKind, ErrorView};

verus! {

/// How far a bootstrap has come.
#[derive(Clone, Copy, Debug, PartialEq, Eq, Structural)]
pub enum BootstrapPhase {
    /// Nothing has been attempted.
    Idle,
    /// The connection to the health service is being opened.
    HealthConnecting,
    /// The health service is being asked whether the download service is
    /// ready.
    HealthChecking,
    /// The connection to the download service is being opened.
    DownloadConnecting,
    /// The download client was delivered.
    Ready,
    /// The bootstrap was given up.
    Failed,
}

/// The state of one bootstrap. It can be made only for the idle phase and
/// changes only through [`get_dfdaemon_download_client`].
#[derive(Debug, PartialEq, Eq)]
pub struct Bootstrap {
    endpoint: Endpoint,
    phase: BootstrapPhase,
}

/// The mathematical value of a [`Bootstrap`].
pub struct BootstrapView {
    pub endpoint: Seq<char>,
    pub phase: BootstrapPhase,
}

impl View for Bootstrap {
    type V = BootstrapView;

    closed spec fn view(&self) -> BootstrapView {
        BootstrapView { endpoint: self.endpoint@, phase: self.phase }
    }
}

/// An open connection to the daemon's download service, whose readiness
/// was confirmed when it was opened. Only a bootstrap hands one out. Its
/// value is the endpoint it is connected to.
#[derive(Debug, PartialEq, Eq)]
pub struct DownloadClient {
    endpoint: Endpoint,
}

impl View for DownloadClient {
    type V = Seq<char>;

    closed spec fn view(&self) -> Seq<char> {
        self.endpoint@
    }
}

impl DownloadClient {
    /// The endpoint the client is connected to.
    pub fn endpoint(&self) -> (endpoint: &Endpoint)
        ensures
            endpoint@ == self@,
    {
        &self.endpoint
    }
}

/// What the caller reports to a bootstrap.
#[derive(Debug, PartialEq, Eq)]
pub enum BootstrapEvent {
    /// The bootstrap is to start.
    Begin,
    /// The connection to the health service is open.
    HealthConnected,
    /// The connection to the health service could not be opened.
    HealthConnectFailed { cause: String },
    /// The health service answered: the download service is serving or it
    /// is not.
    HealthReported { serving: bool },
    /// The call to the health service failed.
    HealthCheckFailed { cause: String },
    /// The connection to the download service is open.
    DownloadConnected,
    /// The connection to the download service could not be opened.
    DownloadConnectFailed { cause: String },
}

/// The mathematical value of a [`BootstrapEvent`].
pub enum BootstrapEventView {
    Begin,
    HealthConnected,
    HealthConnectFailed { cause: Seq<char> },
    HealthReported { serving: bool },
    HealthCheckFailed { cause: Seq<char> },
    DownloadConnected,
    DownloadConnectFailed { cause: Seq<char> },
}

impl View for BootstrapEvent {
    type V = BootstrapEventView;

    open spec fn view(&self) -> BootstrapEventView {
        match *self {
            BootstrapEvent::Begin => BootstrapEventView::Begin,
            BootstrapEvent::HealthConnected => BootstrapEventView::HealthConnected,
            BootstrapEvent::HealthConnectFailed { cause } => {
                BootstrapEventView::HealthConnectFailed { cause: cause@ }
            },
            BootstrapEvent::HealthReported { serving } => {
                BootstrapEventView::HealthReported { serving }
            },
            BootstrapEvent::HealthCheckFailed { cause } => {
                BootstrapEventView::HealthCheckFailed { cause: cause@ }
            },
            BootstrapEvent::DownloadConnected => BootstrapEventView::DownloadConnected,
            BootstrapEvent::DownloadConnectFailed { cause } => {
                BootstrapEventView::DownloadConnectFailed { cause: cause@ }
            },
        }
    }
}

/// Work that a bootstrap asks its caller to do at the daemon.
#[derive(Debug, PartialEq, Eq)]
pub enum DaemonCall {
    /// Open a connection to the health service at `endpoint`.
    ConnectHealth { endpoint: Endpoint },
    /// Ask the health service whether the download service is serving.
    CheckDownloadService,
    /// Open a connection to the download service at `endpoint`.
    ConnectDownload { endpoint: Endpoint },
}

/// The mathematical value of a [`DaemonCall`].
pub enum DaemonCallView {
    ConnectHealth { endpoint: Seq<char> },
    CheckDownloadService,
    ConnectDownload { endpoint: Seq<char> },
}

impl View for DaemonCall {
    type V = DaemonCallView;

    open spec fn view(&self) -> DaemonCallView {
        match *self {
            DaemonCall::ConnectHealth { endpoint } => DaemonCallView::ConnectHealth {
                endpoint: endpoint@,
            },
            DaemonCall::CheckDownloadService => DaemonCallView::CheckDownloadService,
            DaemonCall::ConnectDownload { endpoint } => DaemonCallView::ConnectDownload {
                endpoint: endpoint@,
            },
        }
    }
}

/// What a bootstrap tells its caller after an event.
#[derive(Debug, PartialEq, Eq)]
pub enum BootstrapAction {
    /// Do this at the daemon and report the outcome.
    Perform(DaemonCall),
    /// The bootstrap succeeded: the connection opened last is the download
    /// client.
    Deliver(DownloadClient),
    /// The bootstrap is given up with this error.
    Abort(Error),
}

/// The mathematical value of a [`BootstrapAction`].
pub enum BootstrapActionView {
    Perform(DaemonCallView),
    Deliver(Seq<char>),
    Abort(ErrorView),
}

impl View for BootstrapAction {
    type V = BootstrapActionView;

    open spec fn view(&self) -> BootstrapActionView {
        match *self {
            BootstrapAction::Perform(call) => BootstrapActionView::Perform(call@),
            BootstrapAction::Deliver(client) => BootstrapActionView::Deliver(client@),
            BootstrapAction::Abort(error) => BootstrapActionView::Abort(error@),
        }
    }
}

/// The value of an action that may be absent.
pub open spec fn optional_bootstrap_action(action: Option<BootstrapAction>) -> Option<
    BootstrapActionView,
> {
    match action {
        Some(a) => Some(a@),
        None => None,
    }
}

impl BootstrapView {
    /// The state of a bootstrap for `endpoint` that has not begun.
    pub open spec fn idle(endpoint: Seq<char>) -> BootstrapView {
        BootstrapView { endpoint, phase: BootstrapPhase::Idle }
    }

    /// The same bootstrap in another phase.
    pub open spec fn at(self, phase: BootstrapPhase) -> BootstrapView {
        BootstrapView { endpoint: self.endpoint, phase }
    }
}

/// The bootstrap protocol: the state after `event` and what the caller is
/// told. An event that the phase does not wait for changes nothing and is
/// answered with `None`.
pub open spec fn bootstrap_step(state: BootstrapView, event: BootstrapEventView) -> (
    BootstrapView,
    Option<BootstrapActionView>,
) {
    match (state.phase, event) {
        (BootstrapPhase::Idle, BootstrapEventView::Begin) => (
            state.at(BootstrapPhase::HealthConnecting),
            Some(
                BootstrapActionView::Perform(
                    DaemonCallView::ConnectHealth { endpoint: state.endpoint },
                ),
            ),
        ),
        (BootstrapPhase::HealthConnecting, BootstrapEventView::HealthConnected) => (
            state.at(BootstrapPhase::HealthChecking),
            Some(BootstrapActionView::Perform(DaemonCallView::CheckDownloadService)),
        ),
        (BootstrapPhase::HealthConnecting, BootstrapEventView::HealthConnectFailed { cause }) => (
            state.at(BootstrapPhase::Failed),
            Some(
                BootstrapActionView::Abort(
                    ErrorView::Connection { stage: ConnectStage::Health, cause },
                ),
            ),
        ),
        (BootstrapPhase::HealthChecking, BootstrapEventView::HealthReported { serving }) => {
            if serving {
                (
                    state.at(BootstrapPhase::DownloadConnecting),
                    Some(
                        BootstrapActionView::Perform(
                            DaemonCallView::ConnectDownload { endpoint: state.endpoint },
                        ),
                    ),
                )
            } else {
                (
                    state.at(BootstrapPhase::Failed),
                    Some(
                        BootstrapActionView::Abort(ErrorView::ServiceUnavailable { failure: None }),
                    ),
                )
            }
        },
        (BootstrapPhase::HealthChecking, BootstrapEventView::HealthCheckFailed { cause }) => (
            state.at(BootstrapPhase::Failed),
            Some(
                BootstrapActionView::Abort(ErrorView::ServiceUnavailable { failure: Some(cause) }),
            ),
        ),
        (BootstrapPhase::DownloadConnecting, BootstrapEventView::DownloadConnected) => (
            state.at(BootstrapPhase::Ready),
            Some(BootstrapActionView::Deliver(state.endpoint)),
        ),
        (
            BootstrapPhase::DownloadConnecting,
            BootstrapEventView::DownloadConnectFailed { cause },
        ) => (
            state.at(BootstrapPhase::Failed),
            Some(
                BootstrapActionView::Abort(
                    ErrorView::Connection { stage: ConnectStage::Download, cause },
                ),
            ),
        ),
        _ => (state, None),
    }
}

impl Bootstrap {
    /// A bootstrap for `endpoint` that has not begun.
    pub fn new(endpoint: Endpoint) -> (state: Bootstrap)
        ensures
            state@ == BootstrapView::idle(endpoint@),
    {
        Bootstrap { endpoint, phase: BootstrapPhase::Idle }
    }

    /// How far the bootstrap has come.
    pub fn phase(&self) -> (phase: BootstrapPhase)
        ensures
            phase == self@.phase,
    {
        self.phase
    }

    /// The endpoint that both connections of this bootstrap go to.
    pub fn endpoint(&self) -> (endpoint: &Endpoint)
        ensures
            endpoint@ == self@.endpoint,
    {
        &self.endpoint
    }
}

/// One decision of the bootstrap: takes the state and what the caller
/// reports, and returns the next state and what the caller is to do.
///
/// The sequence is fixed: connect to the health service, ask it whether the
/// download service is serving, and only after a yes connect to the download
/// service, at the same endpoint. Any failure gives the bootstrap up at
/// once, with an error that tells which step failed. An event that the
/// phase does not wait for leaves the state as it is and returns no action.
pub fn get_dfdaemon_download_client(state: Bootstrap, event: BootstrapEvent) -> (next: (
    Bootstrap,
    Option<BootstrapAction>,
))
    ensures
        next.0@ == bootstrap_step(state@, event@).0,
        optional_bootstrap_action(next.1) == bootstrap_step(state@, event@).1,
{
    let Bootstrap { endpoint, phase } = state;
    match (phase, event) {
        (BootstrapPhase::Idle, BootstrapEvent::Begin) => {
            let call = DaemonCall::ConnectHealth { endpoint: endpoint.clone() };
            (
                Bootstrap { endpoint, phase: BootstrapPhase::HealthConnecting },
                Some(BootstrapAction::Perform(call)),
            )
        },
        (BootstrapPhase::HealthConnecting, BootstrapEvent::HealthConnected) => (
            Bootstrap { endpoint, phase: BootstrapPhase::HealthChecking },
            Some(BootstrapAction::Perform(DaemonCall::CheckDownloadService)),
        ),
        (BootstrapPhase::HealthConnecting, BootstrapEvent::HealthConnectFailed { cause }) => (
            Bootstrap { endpoint, phase: BootstrapPhase::Failed },
            Some(BootstrapAction::Abort(Error::Connection { stage: ConnectStage::Health, cause })),
        ),
        (BootstrapPhase::HealthChecking, BootstrapEvent::HealthReported { serving }) => {
            if serving {
                let call = DaemonCall::ConnectDownload { endpoint: endpoint.clone() };
                (
                    Bootstrap { endpoint, phase: BootstrapPhase::DownloadConnecting },
                    Some(BootstrapAction::Perform(call)),
                )
            } else {
                (
                    Bootstrap { endpoint, phase: BootstrapPhase::Failed },
                    Some(BootstrapAction::Abort(Error::ServiceUnavailable { failure: None })),
                )
            }
        },
        (BootstrapPhase::HealthChecking, BootstrapEvent::HealthCheckFailed { cause }) => (
            Bootstrap { endpoint, phase: BootstrapPhase::Failed },
            Some(BootstrapAction::Abort(Error::ServiceUnavailable { failure: Some(cause) })),
        ),
        (BootstrapPhase::DownloadConnecting, BootstrapEvent::DownloadConnected) => {
            let client = DownloadClient { endpoint: endpoint.clone() };
            (
                Bootstrap { endpoint, phase: BootstrapPhase::Ready },
                Some(BootstrapAction::Deliver(client)),
            )
        },
        (BootstrapPhase::DownloadConnecting, BootstrapEvent::DownloadConnectFailed { cause }) => (
            Bootstrap { endpoint, phase: BootstrapPhase::Failed },
            Some(
                BootstrapAction::Abort(Error::Connection { stage: ConnectStage::Download, cause }),
            ),
        ),
        _ => (Bootstrap { endpoint, phase }, None),
    }
}

/// The state of a bootstrap for `endpoint` after the first `n` of `events`
/// were reported to it, one after the other, starting from idle.
pub open spec fn bootstrap_state_after(
    endpoint: Seq<char>,
    events: Seq<BootstrapEventView>,
    n: int,
) -> BootstrapView
    decreases n,
{
    if n <= 0 {
        BootstrapView::idle(endpoint)
    } else {
        bootstrap_step(bootstrap_state_after(endpoint, events, n - 1), events[n - 1]).0
    }
}

/// What the caller is told in answer to event `i` of such a run.
pub open spec fn bootstrap_action_at(
    endpoint: Seq<char>,
    events: Seq<BootstrapEventView>,
    i: int,
) -> Option<BootstrapActionView> {
    bootstrap_step(bootstrap_state_after(endpoint, events, i), events[i]).1
}

/// Event `i` of the run made the bootstrap ask for the connection to the
/// health service at `endpoint`.
pub open spec fn health_connection_asked_at(
    endpoint: Seq<char>,
    events: Seq<BootstrapEventView>,
    i: int,
) -> bool {
    bootstrap_action_at(endpoint, events, i) == Some(
        BootstrapActionView::Perform(DaemonCallView::ConnectHealth { endpoint }),
    )
}

/// Event `i` of the run is the health service's report that the download
/// service is serving, and the bootstrap answered it by asking for the
/// connection to the download service at `endpoint`.
pub open spec fn health_confirmed_at(
    endpoint: Seq<char>,
    events: Seq<BootstrapEventView>,
    i: int,
) -> bool {
    &&& events[i] == (BootstrapEventView::HealthReported { serving: true })
    &&& bootstrap_action_at(endpoint, events, i) == Some(
        BootstrapActionView::Perform(DaemonCallView::ConnectDownload { endpoint }),
    )
}

proof fn lemma_bootstrap_history(endpoint: Seq<char>, events: Seq<BootstrapEventView>, n: int)
    requires
        0 <= n <= events.len(),
    ensures
        bootstrap_state_after(endpoint, events, n).endpoint == endpoint,
        bootstrap_state_after(endpoint, events, n).phase != BootstrapPhase::Idle
            && bootstrap_state_after(endpoint, events, n).phase != BootstrapPhase::Failed
            ==> exists|c: int| 0 <= c < n && #[trigger] health_connection_asked_at(endpoint, events, c),
        bootstrap_state_after(endpoint, events, n).phase == BootstrapPhase::DownloadConnecting
            || bootstrap_state_after(endpoint, events, n).phase == BootstrapPhase::Ready
            ==> exists|h: int| 0 <= h < n && #[trigger] health_confirmed_at(endpoint, events, h),
    decreases n,
{
    if n > 0 {
        lemma_bootstrap_history(endpoint, events, n - 1);
        let before = bootstrap_state_after(endpoint, events, n - 1);
        let after = bootstrap_state_after(endpoint, events, n);
        assert(after == bootstrap_step(before, events[n - 1]).0);
        if after.phase != BootstrapPhase::Idle && after.phase != BootstrapPhase::Failed {
            if before.phase == BootstrapPhase::Idle {
                assert(health_connection_asked_at(endpoint, events, n - 1));
            } else {
                let c = choose|c: int|
                    0 <= c < n - 1 && #[trigger] health_connection_asked_at(endpoint, events, c);
                assert(health_connection_asked_at(endpoint, events, c));
            }
        }
        if after.phase == BootstrapPhase::DownloadConnecting || after.phase
            == BootstrapPhase::Ready {
            if before.phase == BootstrapPhase::HealthChecking {
                assert(health_confirmed_at(endpoint, events, n - 1));
            } else {
                let h = choose|h: int|
                    0 <= h < n - 1 && #[trigger] health_confirmed_at(endpoint, events, h);
                assert(health_confirmed_at(endpoint, events, h));
            }
        }
    }
}

/// In any run of a bootstrap, whatever is reported to it and in whatever
/// order: when the connection to the download service is asked for, the
/// event just reported is the health service's yes, the connection to the
/// health service was asked for earlier, and both go to the endpoint the
/// bootstrap was made for.
pub proof fn download_connection_follows_health_success(
    endpoint: Seq<char>,
    events: Seq<BootstrapEventView>,
    j: int,
    target: Seq<char>,
)
    requires
        0 <= j < events.len(),
        bootstrap_action_at(endpoint, events, j) == Some(
            BootstrapActionView::Perform(DaemonCallView::ConnectDownload { endpoint: target }),
        ),
    ensures
        target == endpoint,
        events[j] == (BootstrapEventView::HealthReported { serving: true }),
        exists|c: int| 0 <= c < j && #[trigger] health_connection_asked_at(endpoint, events, c),
{
    lemma_bootstrap_history(endpoint, events, j);
}

/// In any run of a bootstrap: a download client is delivered only after the
/// health service has reported the download service as serving, and the
/// client is connected to the endpoint the bootstrap was made for, the one
/// the health check was made at.
pub proof fn delivery_follows_health_success(
    endpoint: Seq<char>,
    events: Seq<BootstrapEventView>,
    j: int,
    client: Seq<char>,
)
    requires
        0 <= j < events.len(),
        bootstrap_action_at(endpoint, events, j) == Some(BootstrapActionView::Deliver(client)),
    ensures
        client == endpoint,
        exists|h: int| 0 <= h < j && #[trigger] health_confirmed_at(endpoint, events, h),
{
    lemma_bootstrap_history(endpoint, events, j);
}

/// When the health service never reports the download service as serving,
/// a bootstrap neither asks for the connection to the download service nor
/// delivers a client, whatever else is reported to it.
pub proof fn no_download_client_without_health_success(
    endpoint: Seq<char>,
    events: Seq<BootstrapEventView>,
    j: int,
)
    requires
        0 <= j < events.len(),
        forall|i: int|
            0 <= i < events.len() ==> #[trigger] events[i] != (BootstrapEventView::HealthReported {
                serving: true,
            }),
    ensures
        !(bootstrap_action_at(endpoint, events, j) matches Some(
            BootstrapActionView::Perform(DaemonCallView::ConnectDownload { .. }),
        )),
        !(bootstrap_action_at(endpoint, events, j) matches Some(BootstrapActionView::Deliver(_))),
{
    lemma_bootstrap_history(endpoint, events, j);
    let state = bootstrap_state_after(endpoint, events, j);
    if state.phase == BootstrapPhase::DownloadConnecting {
        let h = choose|h: int| 0 <= h < j && #[trigger] health_confirmed_at(endpoint, events, h);
        assert(events[h] == (BootstrapEventView::HealthReported { serving: true }));
    }
}

/// A failure to connect to the download service, which can only come after
/// a successful health check, is reported as a connection error of the
/// download stage. That differs in category from the error of a failed
/// health check, and in stage from the error of a failed connection to the
/// health service.
pub proof fn download_connect_failure_is_told_apart(
    state: BootstrapView,
    cause: Seq<char>,
    other_state: BootstrapView,
    other_event: BootstrapEventView,
    other_error: ErrorView,
)
    requires
        state.phase == BootstrapPhase::DownloadConnecting,
        other_state.phase == BootstrapPhase::HealthConnecting || other_state.phase
            == BootstrapPhase::HealthChecking,
        bootstrap_step(other_state, other_event).1 == Some(
            BootstrapActionView::Abort(other_error),
        ),
    ensures
        bootstrap_step(state, BootstrapEventView::DownloadConnectFailed { cause }).1 == Some(
            BootstrapActionView::Abort(
                ErrorView::Connection { stage: ConnectStage::Download, cause },
            ),
        ),
        other_state.phase == BootstrapPhase::HealthChecking ==> other_error.kind()
            == ErrorKind::ServiceUnavailable,
        other_state.phase == BootstrapPhase::HealthConnecting ==> other_error matches ErrorView::Connection {
            stage: ConnectStage::Health,
            ..
        },
        other_error != (ErrorView::Connection { stage: ConnectStage::Download, cause }),
{
}

/// A bootstrap that has ended, with a client or with an error, stays as it
/// is: it answers no event and so never tries again.
pub proof fn ended_bootstrap_never_retries(state: BootstrapView, event: BootstrapEventView)
    requires
        state.phase == BootstrapPhase::Ready || state.phase == BootstrapPhase::Failed,
    ensures
        bootstrap_step(state, event) == (state, None::<BootstrapActionView>),
{
}

/// A bootstrap never changes its endpoint, and every failure ends it at
/// once: the step that reports an error leaves it in the failed phase.
pub proof fn failure_ends_the_bootstrap(
    state: BootstrapView,
    event: BootstrapEventView,
    error: ErrorView,
)
    requires
        bootstrap_step(state, event).1 == Some(BootstrapActionView::Abort(error)),
    ensures
        bootstrap_step(state, event).0 == state.at(BootstrapPhase::Failed),
        error.kind() == ErrorKind::Connection || error.kind() == ErrorKind::ServiceUnavailable,
{
}

} // verus!
