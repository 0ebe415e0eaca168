//! What holds of every run of an invocation, whatever the daemon and the
//! filesystem report and in whatever order the reports come in.
//!
//! A run is a sequence of events reported to one command from its start.
//! The theorems here speak of the action that answers each event.

use vstd::prelude::*;
use crate::bootstrap::{BootstrapEventView, BootstrapPhase, BootstrapView, DaemonCallView};
use crate::command::{CommandView, ImportCommandView, ReplyView, RequestView};
use crate::dispatch::{command_step, ActionView, EventView, ProgressView};
use crate::error::{ErrorKind, ErrorView, Invalid};
use crate::validate::{source_path_well_formed, task_id_well_formed};

verus! {

/// The progress of the invocation of `cmd` after the first `n` of `events`
/// were reported to it, one after the other, from the start.
pub open spec fn progress_after(cmd: CommandView, events: Seq<EventView>, n: int) -> ProgressView
    decreases n,
{
    if n <= 0 {
        ProgressView::Created
    } else {
        command_step(cmd, progress_after(cmd, events, n - 1), events[n - 1]).0
    }
}

/// What the caller is told in answer to event `i` of such a run.
pub open spec fn action_at(cmd: CommandView, events: Seq<EventView>, i: int) -> Option<
    ActionView,
> {
    command_step(cmd, progress_after(cmd, events, i), events[i]).1
}

/// Event `i` of the run made the invocation ask for the connection to the
/// health service, at the endpoint configured in `cmd`.
pub open spec fn health_connection_asked_at(
    cmd: CommandView,
    events: Seq<EventView>,
    i: int,
) -> bool {
    action_at(cmd, events, i) == Some(
        ActionView::Daemon(DaemonCallView::ConnectHealth { endpoint: cmd.endpoint() }),
    )
}

/// Event `i` of the run is the health service's report that the download
/// service is serving, and the invocation answered it by asking for the
/// connection to the download service, at the endpoint configured in `cmd`.
pub open spec fn health_confirmed_at(cmd: CommandView, events: Seq<EventView>, i: int) -> bool {
    &&& events[i] == EventView::Daemon(BootstrapEventView::HealthReported { serving: true })
    &&& action_at(cmd, events, i) == Some(
        ActionView::Daemon(DaemonCallView::ConnectDownload { endpoint: cmd.endpoint() }),
    )
}

/// Event `i` of the run is the report that the download service is
/// connected, and the invocation answered it by sending its request.
pub open spec fn request_sent_at(cmd: CommandView, events: Seq<EventView>, i: int) -> bool {
    &&& events[i] == EventView::Daemon(BootstrapEventView::DownloadConnected)
    &&& action_at(cmd, events, i) == Some(ActionView::Call(cmd.request()))
}

/// Event `i` of the run is the report that the source file can be read.
pub open spec fn source_found_at(events: Seq<EventView>, i: int) -> bool {
    events[i] == (EventView::SourceProbed { readable: true })
}

/// The bootstrap is under way: begun and not yet ended.
pub open spec fn under_way(state: BootstrapView) -> bool {
    ||| state.phase == BootstrapPhase::HealthConnecting
    ||| state.phase == BootstrapPhase::HealthChecking
    ||| state.phase == BootstrapPhase::DownloadConnecting
}

/// The action asks for work at the daemon: a connection, the health check
/// or the request.
pub open spec fn is_contact(action: Option<ActionView>) -> bool {
    action matches Some(ActionView::Daemon(_)) || action matches Some(ActionView::Call(_))
}

/// The action sends the request of the command.
pub open spec fn is_request(action: Option<ActionView>) -> bool {
    action matches Some(ActionView::Call(_))
}

/// Nothing was asked of the daemon in answer to the first `n` events.
pub open spec fn no_contact_before(cmd: CommandView, events: Seq<EventView>, n: int) -> bool {
    forall|i: int| 0 <= i < n ==> !is_contact(#[trigger] action_at(cmd, events, i))
}

/// No request was sent in answer to the first `n` events.
pub open spec fn no_request_before(cmd: CommandView, events: Seq<EventView>, n: int) -> bool {
    forall|i: int| 0 <= i < n ==> !is_request(#[trigger] action_at(cmd, events, i))
}

/// What holds of the progress reached after `n` events, given what was
/// reported before.
spec fn history_explains(cmd: CommandView, events: Seq<EventView>, n: int) -> bool {
    match progress_after(cmd, events, n) {
        ProgressView::Created => forall|i: int|
            0 <= i < n ==> (#[trigger] action_at(cmd, events, i)) is None,
        ProgressView::Probing => {
            &&& cmd is Import
            &&& cmd.verdict() is Ok
            &&& no_contact_before(cmd, events, n)
        },
        ProgressView::Bootstrapping(state) => {
            &&& cmd.verdict() is Ok
            &&& state.endpoint == cmd.endpoint()
            &&& under_way(state)
            &&& no_request_before(cmd, events, n)
            &&& cmd is Import ==> exists|p: int| 0 <= p < n && #[trigger] source_found_at(events, p)
            &&& exists|c: int| 0 <= c < n && #[trigger] health_connection_asked_at(cmd, events, c)
            &&& state.phase == BootstrapPhase::DownloadConnecting ==> exists|h: int|
                0 <= h < n && #[trigger] health_confirmed_at(cmd, events, h)
        },
        ProgressView::Calling(client) => {
            &&& cmd.verdict() is Ok
            &&& client == cmd.endpoint()
            &&& cmd is Import ==> exists|p: int| 0 <= p < n && #[trigger] source_found_at(events, p)
            &&& exists|c: int| 0 <= c < n && #[trigger] health_connection_asked_at(cmd, events, c)
            &&& exists|h: int| 0 <= h < n && #[trigger] health_confirmed_at(cmd, events, h)
            &&& exists|r: int| 0 <= r < n && #[trigger] request_sent_at(cmd, events, r)
        },
        ProgressView::Finished => true,
    }
}

proof fn lemma_history(cmd: CommandView, events: Seq<EventView>, n: int)
    requires
        0 <= n <= events.len(),
    ensures
        history_explains(cmd, events, n),
    decreases n,
{
    if n > 0 {
        lemma_history(cmd, events, n - 1);
        let before = progress_after(cmd, events, n - 1);
        let after = progress_after(cmd, events, n);
        let event = events[n - 1];
        assert(after == command_step(cmd, before, event).0);
        assert(action_at(cmd, events, n - 1) == command_step(cmd, before, event).1);
        match after {
            ProgressView::Bootstrapping(state) => {
                match before {
                    ProgressView::Bootstrapping(earlier) => {
                        if cmd is Import {
                            let p = choose|p: int|
                                0 <= p < n - 1 && #[trigger] source_found_at(events, p);
                            assert(source_found_at(events, p));
                        }
                        let c = choose|c: int|
                            0 <= c < n - 1 && #[trigger] health_connection_asked_at(cmd, events, c);
                        assert(health_connection_asked_at(cmd, events, c));
                        if state.phase == BootstrapPhase::DownloadConnecting {
                            if earlier.phase == BootstrapPhase::DownloadConnecting {
                                let h = choose|h: int|
                                    0 <= h < n - 1 && #[trigger] health_confirmed_at(
                                        cmd,
                                        events,
                                        h,
                                    );
                                assert(health_confirmed_at(cmd, events, h));
                            } else {
                                assert(health_confirmed_at(cmd, events, n - 1));
                            }
                        }
                    },
                    _ => {
                        assert(health_connection_asked_at(cmd, events, n - 1));
                        if cmd is Import {
                            assert(source_found_at(events, n - 1));
                        }
                    },
                }
            },
            ProgressView::Calling(client) => {
                match before {
                    ProgressView::Calling(_) => {
                        if cmd is Import {
                            let p = choose|p: int|
                                0 <= p < n - 1 && #[trigger] source_found_at(events, p);
                            assert(source_found_at(events, p));
                        }
                        let c = choose|c: int|
                            0 <= c < n - 1 && #[trigger] health_connection_asked_at(cmd, events, c);
                        assert(health_connection_asked_at(cmd, events, c));
                        let h = choose|h: int|
                            0 <= h < n - 1 && #[trigger] health_confirmed_at(cmd, events, h);
                        assert(health_confirmed_at(cmd, events, h));
                        let r = choose|r: int|
                            0 <= r < n - 1 && #[trigger] request_sent_at(cmd, events, r);
                        assert(request_sent_at(cmd, events, r));
                    },
                    _ => {
                        if cmd is Import {
                            let p = choose|p: int|
                                0 <= p < n - 1 && #[trigger] source_found_at(events, p);
                            assert(source_found_at(events, p));
                        }
                        let c = choose|c: int|
                            0 <= c < n - 1 && #[trigger] health_connection_asked_at(cmd, events, c);
                        assert(health_connection_asked_at(cmd, events, c));
                        let h = choose|h: int|
                            0 <= h < n - 1 && #[trigger] health_confirmed_at(cmd, events, h);
                        assert(health_confirmed_at(cmd, events, h));
                        assert(request_sent_at(cmd, events, n - 1));
                    },
                }
            },
            _ => {},
        }
    }
}

/// No request reaches the download service without a successful health
/// check before it. In any run of any command, whatever is reported and in
/// whatever order: when a request is sent, the health service was connected
/// to and has reported the download service as serving earlier in the same
/// run, at the endpoint configured in the command, and the request goes out
/// on the connection opened after that report.
pub proof fn request_follows_health_success(
    cmd: CommandView,
    events: Seq<EventView>,
    j: int,
    request: RequestView,
)
    requires
        0 <= j < events.len(),
        action_at(cmd, events, j) == Some(ActionView::Call(request)),
    ensures
        events[j] == EventView::Daemon(BootstrapEventView::DownloadConnected),
        exists|h: int| 0 <= h < j && #[trigger] health_confirmed_at(cmd, events, h),
        exists|c: int| 0 <= c < j && #[trigger] health_connection_asked_at(cmd, events, c),
{
    lemma_history(cmd, events, j);
}

/// When the health check never succeeds, no command ever sends its
/// request, nor is the connection to the download service asked for.
pub proof fn no_request_without_health_success(cmd: CommandView, events: Seq<EventView>, j: int)
    requires
        0 <= j < events.len(),
        forall|i: int|
            0 <= i < events.len() ==> #[trigger] events[i] != EventView::Daemon(
                BootstrapEventView::HealthReported { serving: true },
            ),
    ensures
        !(action_at(cmd, events, j) matches Some(ActionView::Call(_))),
        !(action_at(cmd, events, j) matches Some(
            ActionView::Daemon(DaemonCallView::ConnectDownload { .. }),
        )),
{
    lemma_history(cmd, events, j);
    match progress_after(cmd, events, j) {
        ProgressView::Bootstrapping(state) => {
            if state.phase == BootstrapPhase::DownloadConnecting {
                let h = choose|h: int| 0 <= h < j && #[trigger] health_confirmed_at(cmd, events, h);
                assert(events[h] == EventView::Daemon(
                    BootstrapEventView::HealthReported { serving: true },
                ));
            }
        },
        _ => {},
    }
}

/// The request that a command sends is built from its own parameters and
/// from nothing else. An export and a stat name the task by exactly the
/// identifier they were given, and that identifier is well formed.
pub proof fn request_names_the_given_task(
    cmd: CommandView,
    events: Seq<EventView>,
    j: int,
    request: RequestView,
)
    requires
        0 <= j < events.len(),
        action_at(cmd, events, j) == Some(ActionView::Call(request)),
    ensures
        request == cmd.request(),
        cmd matches CommandView::Export(export) ==> request == (RequestView::Export {
            task_id: export.id,
            output: export.output,
        }) && task_id_well_formed(export.id),
        cmd matches CommandView::Stat(stat) ==> request == (RequestView::Stat { task_id: stat.id })
            && task_id_well_formed(stat.id),
{
    lemma_history(cmd, events, j);
}

/// A command whose parameters are malformed is turned down before anything
/// is opened: in no run does it ask for a connection or a look at the
/// source, or send a request, and the first start ends it with the
/// validation error of its verdict.
pub proof fn rejected_command_contacts_nothing(cmd: CommandView, events: Seq<EventView>, j: int)
    requires
        0 <= j < events.len(),
        cmd.verdict() is Err,
    ensures
        action_at(cmd, events, j) is Some ==> action_at(cmd, events, j) == Some(
            ActionView::Finish(Err(ErrorView::Validation { reason: cmd.verdict()->Err_0 })),
        ),
        events[0] == EventView::Start ==> action_at(cmd, events, 0) == Some(
            ActionView::Finish(Err(ErrorView::Validation { reason: cmd.verdict()->Err_0 })),
        ),
{
    lemma_rejected(cmd, events, j);
}

proof fn lemma_rejected(cmd: CommandView, events: Seq<EventView>, n: int)
    requires
        0 <= n <= events.len(),
        cmd.verdict() is Err,
    ensures
        progress_after(cmd, events, n) == ProgressView::Created || progress_after(cmd, events, n)
            == ProgressView::Finished,
    decreases n,
{
    if n > 0 {
        lemma_rejected(cmd, events, n - 1);
    }
}

/// An import that asks for no replica, or whose source path is malformed,
/// is rejected by validation before any socket is opened: in no run does it
/// ask for a connection.
pub proof fn invalid_import_opens_no_connection(
    import: ImportCommandView,
    events: Seq<EventView>,
    j: int,
)
    requires
        0 <= j < events.len(),
        import.replica_count == 0 || !source_path_well_formed(import.path),
    ensures
        !(action_at(CommandView::Import(import), events, j) matches Some(ActionView::Daemon(_))),
        !(action_at(CommandView::Import(import), events, j) matches Some(ActionView::Call(_))),
        events[0] == EventView::Start ==> (action_at(CommandView::Import(import), events, 0)
            matches Some(ActionView::Finish(Err(ErrorView::Validation { reason })))
            && (reason == Invalid::ZeroReplicas || reason == Invalid::MalformedSourcePath)),
{
    rejected_command_contacts_nothing(CommandView::Import(import), events, j);
}

/// Validation comes before any contact with the daemon: when a connection
/// is asked for or a request is sent, the parameters of the command have
/// passed their checks, and for an import the source file was reported
/// readable earlier in the run.
pub proof fn contact_follows_validation(cmd: CommandView, events: Seq<EventView>, j: int)
    requires
        0 <= j < events.len(),
        action_at(cmd, events, j) matches Some(ActionView::Daemon(_)) || action_at(cmd, events, j)
            matches Some(ActionView::Call(_)),
    ensures
        cmd.verdict() is Ok,
        cmd is Import ==> exists|p: int| 0 <= p <= j && #[trigger] source_found_at(events, p),
{
    lemma_history(cmd, events, j);
    let before = progress_after(cmd, events, j);
    if cmd is Import {
        match before {
            ProgressView::Probing => {
                assert(source_found_at(events, j));
            },
            _ => {
                let p = choose|p: int| 0 <= p < j && #[trigger] source_found_at(events, p);
                assert(source_found_at(events, p));
            },
        }
    }
}

/// Both connections of an invocation go to one endpoint, the one
/// configured in the command.
pub proof fn one_endpoint_per_invocation(
    cmd: CommandView,
    events: Seq<EventView>,
    j: int,
    call: DaemonCallView,
)
    requires
        0 <= j < events.len(),
        action_at(cmd, events, j) == Some(ActionView::Daemon(call)),
    ensures
        call matches DaemonCallView::ConnectHealth { endpoint } ==> endpoint == cmd.endpoint(),
        call matches DaemonCallView::ConnectDownload { endpoint } ==> endpoint == cmd.endpoint(),
{
    lemma_history(cmd, events, j);
}

/// An invocation ends once: after the event that finished it, no event is
/// answered with anything.
pub proof fn finish_is_final(cmd: CommandView, events: Seq<EventView>, i: int, j: int)
    requires
        0 <= i < j < events.len(),
        action_at(cmd, events, i) matches Some(ActionView::Finish(_)),
    ensures
        action_at(cmd, events, j) is None,
    decreases j - i,
{
    lemma_finished_stays(cmd, events, i + 1, j);
}

proof fn lemma_finished_stays(cmd: CommandView, events: Seq<EventView>, n: int, m: int)
    requires
        0 < n <= m <= events.len(),
        progress_after(cmd, events, n) == ProgressView::Finished,
    ensures
        progress_after(cmd, events, m) == ProgressView::Finished,
    decreases m - n,
{
    if n < m {
        lemma_finished_stays(cmd, events, n, m - 1);
    }
}

/// The cause that the daemon gives for refusing a request reaches the
/// caller unchanged, as an operation error.
pub proof fn refusal_is_passed_on(
    cmd: CommandView,
    events: Seq<EventView>,
    j: int,
    cause: Seq<char>,
)
    requires
        0 <= j < events.len(),
        events[j] == (EventView::Refused { cause }),
        action_at(cmd, events, j) is Some,
    ensures
        action_at(cmd, events, j) == Some(
            ActionView::Finish(Err(ErrorView::Operation { cause })),
        ),
{
}

/// A reply ends an invocation with success only as the answer to the
/// request of the command: the request was sent earlier in the run, after
/// the health check had succeeded, and the reply is of the kind that the
/// request calls for and reaches the caller unchanged.
pub proof fn success_follows_request(
    cmd: CommandView,
    events: Seq<EventView>,
    j: int,
    reply: ReplyView,
)
    requires
        0 <= j < events.len(),
        action_at(cmd, events, j) == Some(ActionView::Finish(Ok(reply))),
    ensures
        events[j] == EventView::Replied(reply),
        reply.answers(cmd.request()),
        exists|r: int| 0 <= r < j && #[trigger] request_sent_at(cmd, events, r),
        exists|h: int| 0 <= h < j && #[trigger] health_confirmed_at(cmd, events, h),
{
    lemma_history(cmd, events, j);
}

/// An operation error is the daemon's refusal of the request that was
/// sent, with the cause it gave.
pub proof fn operation_error_follows_request(
    cmd: CommandView,
    events: Seq<EventView>,
    j: int,
    error: ErrorView,
)
    requires
        0 <= j < events.len(),
        action_at(cmd, events, j) == Some(ActionView::Finish(Err(error))),
        error.kind() == ErrorKind::Operation,
    ensures
        exists|cause: Seq<char>|
            events[j] == (EventView::Refused { cause }) && error == (ErrorView::Operation {
                cause,
            }),
        exists|r: int| 0 <= r < j && #[trigger] request_sent_at(cmd, events, r),
{
    lemma_history(cmd, events, j);
    match events[j] {
        EventView::Refused { cause } => {
            assert(events[j] == (EventView::Refused { cause }) && error == (ErrorView::Operation {
                cause,
            }));
        },
        _ => {},
    }
}

/// A validation error is raised before the daemon is contacted: when an
/// invocation ends with one, nothing was asked of the daemon in that run,
/// neither a connection nor the health check nor the request.
pub proof fn validation_error_means_no_contact(
    cmd: CommandView,
    events: Seq<EventView>,
    j: int,
    error: ErrorView,
)
    requires
        0 <= j < events.len(),
        action_at(cmd, events, j) == Some(ActionView::Finish(Err(error))),
        error.kind() == ErrorKind::Validation,
    ensures
        no_contact_before(cmd, events, events.len() as int),
{
    lemma_history(cmd, events, j);
    assert forall|i: int| 0 <= i < events.len() implies !is_contact(
        #[trigger] action_at(cmd, events, i),
    ) by {
        if i > j {
            finish_is_final(cmd, events, j, i);
        }
    }
}

/// When the bootstrap fails, the request is never sent. An invocation that
/// ends with a connection error or because the download service is not
/// ready has sent no request in that run, before its end or after.
pub proof fn failed_bootstrap_sends_no_request(
    cmd: CommandView,
    events: Seq<EventView>,
    j: int,
    error: ErrorView,
)
    requires
        0 <= j < events.len(),
        action_at(cmd, events, j) == Some(ActionView::Finish(Err(error))),
        error.kind() == ErrorKind::Connection || error.kind() == ErrorKind::ServiceUnavailable,
    ensures
        no_request_before(cmd, events, events.len() as int),
{
    lemma_history(cmd, events, j);
    assert forall|i: int| 0 <= i < events.len() implies !is_request(
        #[trigger] action_at(cmd, events, i),
    ) by {
        if i > j {
            finish_is_final(cmd, events, j, i);
        }
    }
}

} // verus!
