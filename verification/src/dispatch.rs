//! The course of one invocation: a command is checked, the download client
//! is bootstrapped, one request is sent, and its outcome ends the
//! invocation.
//!
//! As in the bootstrap, the work at the daemon and on the filesystem is the
//! caller's. Each handler decides, from the progress made and the event
//! reported, how the invocation goes on.

use vstd::prelude::*;
use crate::bootstrap::{
    bootstrap_step, get_dfdaemon_download_client, optional_bootstrap_action, Bootstrap,
    BootstrapAction, BootstrapActionView, BootstrapEvent, BootstrapEventView, BootstrapView,
    DaemonCall, DaemonCallView, DownloadClient,
};
use crate::command::{
    Command, CommandView, ExportCommand, ExportCommandView, ImportCommand, ImportCommandView,
    Reply, ReplyView, Request, RequestView, StatCommand, StatCommandView,
};
use crate::endpoint::resolve_endpoint;
use crate::error::{Error, ErrorView, Invalid};

verus! {

/// Where an invocation stands, with what it holds there.
#[derive(Debug, PartialEq, Eq)]
enum Stage {
    Created,
    Probing,
    Bootstrapping(Bootstrap),
    Calling(DownloadClient),
    Finished,
}

/// How far an invocation has come. It can be made only for the start and
/// changes only through the `execute` of a command. While the request is
/// under way it holds the download client; when the invocation finishes the
/// client is dropped.
#[derive(Debug, PartialEq, Eq)]
pub struct Progress {
    stage: Stage,
}

/// The mathematical value of a [`Progress`].
pub enum ProgressView {
    /// Nothing has happened yet.
    Created,
    /// The source file of an import is being looked at.
    Probing,
    /// The download client is being bootstrapped.
    Bootstrapping(BootstrapView),
    /// The request is under way on the client connected to this endpoint.
    Calling(Seq<char>),
    /// The invocation has ended.
    Finished,
}

impl View for Progress {
    type V = ProgressView;

    closed spec fn view(&self) -> ProgressView {
        match self.stage {
            Stage::Created => ProgressView::Created,
            Stage::Probing => ProgressView::Probing,
            Stage::Bootstrapping(state) => ProgressView::Bootstrapping(state@),
            Stage::Calling(client) => ProgressView::Calling(client@),
            Stage::Finished => ProgressView::Finished,
        }
    }
}

/// What the caller reports to an invocation.
#[derive(Debug, PartialEq, Eq)]
pub enum Event {
    /// The invocation is to start.
    Start,
    /// The source file was looked at: it exists and can be read, or not.
    SourceProbed { readable: bool },
    /// The outcome of work that the bootstrap asked for.
    Daemon(BootstrapEvent),
    /// The daemon carried out the request.
    Replied(Reply),
    /// The daemon refused the request or failed at it.
    Refused { cause: String },
}

/// The mathematical value of an [`Event`].
pub enum EventView {
    Start,
    SourceProbed { readable: bool },
    Daemon(BootstrapEventView),
    Replied(ReplyView),
    Refused { cause: Seq<char> },
}

impl View for Event {
    type V = EventView;

    open spec fn view(&self) -> EventView {
        match *self {
            Event::Start => EventView::Start,
            Event::SourceProbed { readable } => EventView::SourceProbed { readable },
            Event::Daemon(report) => EventView::Daemon(report@),
            Event::Replied(reply) => EventView::Replied(reply@),
            Event::Refused { cause } => EventView::Refused { cause: cause@ },
        }
    }
}

/// What an invocation tells its caller after an event.
#[derive(Debug, PartialEq, Eq)]
pub enum Action {
    /// Find out whether the file at `path` exists and can be read.
    ProbeSource { path: String },
    /// Do this at the daemon, for the bootstrap.
    Daemon(DaemonCall),
    /// Send this request on the download client just opened.
    Call(Request),
    /// The invocation has ended, with this outcome.
    Finish(Result<Reply, Error>),
}

/// The mathematical value of an [`Action`].
pub enum ActionView {
    ProbeSource { path: Seq<char> },
    Daemon(DaemonCallView),
    Call(RequestView),
    Finish(Result<ReplyView, ErrorView>),
}

impl View for Action {
    type V = ActionView;

    open spec fn view(&self) -> ActionView {
        match *self {
            Action::ProbeSource { path } => ActionView::ProbeSource { path: path@ },
            Action::Daemon(call) => ActionView::Daemon(call@),
            Action::Call(request) => ActionView::Call(request@),
            Action::Finish(Ok(reply)) => ActionView::Finish(Ok(reply@)),
            Action::Finish(Err(error)) => ActionView::Finish(Err(error@)),
        }
    }
}

/// The value of an action that may be absent.
pub open spec fn optional_action(action: Option<Action>) -> Option<ActionView> {
    match action {
        Some(a) => Some(a@),
        None => None,
    }
}

/// How an invocation goes on after its bootstrap has moved: work for the
/// daemon is passed on, a delivered client gets the request at once, and a
/// bootstrap that was given up ends the invocation with its error.
pub open spec fn after_bootstrap(
    request: RequestView,
    moved: (BootstrapView, Option<BootstrapActionView>),
) -> (ProgressView, Option<ActionView>) {
    match moved.1 {
        None => (ProgressView::Bootstrapping(moved.0), None),
        Some(BootstrapActionView::Perform(call)) => (
            ProgressView::Bootstrapping(moved.0),
            Some(ActionView::Daemon(call)),
        ),
        Some(BootstrapActionView::Deliver(client)) => (
            ProgressView::Calling(client),
            Some(ActionView::Call(request)),
        ),
        Some(BootstrapActionView::Abort(error)) => (
            ProgressView::Finished,
            Some(ActionView::Finish(Err(error))),
        ),
    }
}

/// The start of the bootstrap at the configured endpoint.
pub open spec fn enter_bootstrap(endpoint: Seq<char>, request: RequestView) -> (
    ProgressView,
    Option<ActionView>,
) {
    after_bootstrap(
        request,
        bootstrap_step(BootstrapView::idle(endpoint), BootstrapEventView::Begin),
    )
}

/// An invocation that ends with a validation error.
pub open spec fn turned_down(reason: Invalid) -> (ProgressView, Option<ActionView>) {
    (ProgressView::Finished, Some(ActionView::Finish(Err(ErrorView::Validation { reason }))))
}

/// What all commands do alike once their own checks have passed: they run
/// the bootstrap, send `request` on the delivered client, and end with the
/// daemon's reply or with the cause of its refusal, unchanged. An event
/// that the progress does not wait for changes nothing.
pub open spec fn carry_on(request: RequestView, progress: ProgressView, event: EventView) -> (
    ProgressView,
    Option<ActionView>,
) {
    match (progress, event) {
        (ProgressView::Bootstrapping(state), EventView::Daemon(report)) => after_bootstrap(
            request,
            bootstrap_step(state, report),
        ),
        (ProgressView::Calling(_), EventView::Replied(reply)) => {
            if reply.answers(request) {
                (ProgressView::Finished, Some(ActionView::Finish(Ok(reply))))
            } else {
                (progress, None)
            }
        },
        (ProgressView::Calling(_), EventView::Refused { cause }) => (
            ProgressView::Finished,
            Some(ActionView::Finish(Err(ErrorView::Operation { cause }))),
        ),
        _ => (progress, None),
    }
}

/// One decision of an import.
pub open spec fn import_step(cmd: ImportCommandView, progress: ProgressView, event: EventView) -> (
    ProgressView,
    Option<ActionView>,
) {
    match (progress, event) {
        (ProgressView::Created, EventView::Start) => match cmd.verdict() {
            Err(reason) => turned_down(reason),
            Ok(_) => (ProgressView::Probing, Some(ActionView::ProbeSource { path: cmd.path })),
        },
        (ProgressView::Probing, EventView::SourceProbed { readable }) => {
            if readable {
                enter_bootstrap(cmd.endpoint, cmd.request())
            } else {
                turned_down(Invalid::UnreadableSource)
            }
        },
        _ => carry_on(cmd.request(), progress, event),
    }
}

/// One decision of an export.
pub open spec fn export_step(cmd: ExportCommandView, progress: ProgressView, event: EventView) -> (
    ProgressView,
    Option<ActionView>,
) {
    match (progress, event) {
        (ProgressView::Created, EventView::Start) => match cmd.verdict() {
            Err(reason) => turned_down(reason),
            Ok(_) => enter_bootstrap(cmd.endpoint, cmd.request()),
        },
        _ => carry_on(cmd.request(), progress, event),
    }
}

/// One decision of a stat.
pub open spec fn stat_step(cmd: StatCommandView, progress: ProgressView, event: EventView) -> (
    ProgressView,
    Option<ActionView>,
) {
    match (progress, event) {
        (ProgressView::Created, EventView::Start) => match cmd.verdict() {
            Err(reason) => turned_down(reason),
            Ok(_) => enter_bootstrap(cmd.endpoint, cmd.request()),
        },
        _ => carry_on(cmd.request(), progress, event),
    }
}

/// One decision of a command: that of its variant.
pub open spec fn command_step(cmd: CommandView, progress: ProgressView, event: EventView) -> (
    ProgressView,
    Option<ActionView>,
) {
    match cmd {
        CommandView::Import(import) => import_step(import, progress, event),
        CommandView::Export(export) => export_step(export, progress, event),
        CommandView::Stat(stat) => stat_step(stat, progress, event),
    }
}

impl Progress {
    /// The progress of an invocation that has not started.
    pub fn new() -> (progress: Progress)
        ensures
            progress@ == ProgressView::Created,
    {
        Progress { stage: Stage::Created }
    }

    /// Whether the invocation has ended.
    pub fn is_finished(&self) -> (finished: bool)
        ensures
            finished == (self@ == ProgressView::Finished),
    {
        match self.stage {
            Stage::Finished => true,
            _ => false,
        }
    }
}

fn finish_turned_down(reason: Invalid) -> (next: (Progress, Option<Action>))
    ensures
        next.0@ == turned_down(reason).0,
        optional_action(next.1) == turned_down(reason).1,
{
    (Progress { stage: Stage::Finished }, Some(Action::Finish(Err(Error::Validation { reason }))))
}

fn go_on_after_bootstrap(request: Request, moved: (Bootstrap, Option<BootstrapAction>)) -> (next: (
    Progress,
    Option<Action>,
))
    ensures
        next.0@ == after_bootstrap(request@, (moved.0@, optional_bootstrap_action(moved.1))).0,
        optional_action(next.1) == after_bootstrap(
            request@,
            (moved.0@, optional_bootstrap_action(moved.1)),
        ).1,
{
    let (state, action) = moved;
    match action {
        None => (Progress { stage: Stage::Bootstrapping(state) }, None),
        Some(BootstrapAction::Perform(call)) => (
            Progress { stage: Stage::Bootstrapping(state) },
            Some(Action::Daemon(call)),
        ),
        Some(BootstrapAction::Deliver(client)) => (
            Progress { stage: Stage::Calling(client) },
            Some(Action::Call(request)),
        ),
        Some(BootstrapAction::Abort(error)) => (
            Progress { stage: Stage::Finished },
            Some(Action::Finish(Err(error))),
        ),
    }
}

fn start_bootstrap(socket_path: &str, request: Request) -> (next: (Progress, Option<Action>))
    ensures
        next.0@ == enter_bootstrap(socket_path@, request@).0,
        optional_action(next.1) == enter_bootstrap(socket_path@, request@).1,
{
    let state = Bootstrap::new(resolve_endpoint(socket_path));
    let moved = get_dfdaemon_download_client(state, BootstrapEvent::Begin);
    go_on_after_bootstrap(request, moved)
}

fn go_on(request: Request, progress: Progress, event: Event) -> (next: (Progress, Option<Action>))
    ensures
        next.0@ == carry_on(request@, progress@, event@).0,
        optional_action(next.1) == carry_on(request@, progress@, event@).1,
{
    match (progress.stage, event) {
        (Stage::Bootstrapping(state), Event::Daemon(report)) => {
            let moved = get_dfdaemon_download_client(state, report);
            go_on_after_bootstrap(request, moved)
        },
        (Stage::Calling(client), Event::Replied(reply)) => {
            if reply.answers(&request) {
                (Progress { stage: Stage::Finished }, Some(Action::Finish(Ok(reply))))
            } else {
                (Progress { stage: Stage::Calling(client) }, None)
            }
        },
        (Stage::Calling(_), Event::Refused { cause }) => (
            Progress { stage: Stage::Finished },
            Some(Action::Finish(Err(Error::Operation { cause }))),
        ),
        (stage, _) => (Progress { stage }, None),
    }
}

impl ImportCommand {
    /// One decision of an import. The path and the replica count are
    /// checked first, then the caller is asked whether the source can be
    /// read; only then is the daemon contacted.
    pub fn execute(&self, progress: Progress, event: Event) -> (next: (Progress, Option<Action>))
        ensures
            next.0@ == import_step(self@, progress@, event@).0,
            optional_action(next.1) == import_step(self@, progress@, event@).1,
    {
        match (progress.stage, event) {
            (Stage::Created, Event::Start) => match self.validate() {
                Err(reason) => finish_turned_down(reason),
                Ok(_) => (
                    Progress { stage: Stage::Probing },
                    Some(Action::ProbeSource { path: self.path.clone() }),
                ),
            },
            (Stage::Probing, Event::SourceProbed { readable }) => {
                if readable {
                    start_bootstrap(self.endpoint.as_str(), self.request())
                } else {
                    finish_turned_down(Invalid::UnreadableSource)
                }
            },
            (stage, event) => go_on(self.request(), Progress { stage }, event),
        }
    }
}

impl ExportCommand {
    /// One decision of an export. The task identifier is checked before
    /// the daemon is contacted.
    pub fn execute(&self, progress: Progress, event: Event) -> (next: (Progress, Option<Action>))
        ensures
            next.0@ == export_step(self@, progress@, event@).0,
            optional_action(next.1) == export_step(self@, progress@, event@).1,
    {
        match (progress.stage, event) {
            (Stage::Created, Event::Start) => match self.validate() {
                Err(reason) => finish_turned_down(reason),
                Ok(_) => start_bootstrap(self.endpoint.as_str(), self.request()),
            },
            (stage, event) => go_on(self.request(), Progress { stage }, event),
        }
    }
}

impl StatCommand {
    /// One decision of a stat. The task identifier is checked before the
    /// daemon is contacted.
    pub fn execute(&self, progress: Progress, event: Event) -> (next: (Progress, Option<Action>))
        ensures
            next.0@ == stat_step(self@, progress@, event@).0,
            optional_action(next.1) == stat_step(self@, progress@, event@).1,
    {
        match (progress.stage, event) {
            (Stage::Created, Event::Start) => match self.validate() {
                Err(reason) => finish_turned_down(reason),
                Ok(_) => start_bootstrap(self.endpoint.as_str(), self.request()),
            },
            (stage, event) => go_on(self.request(), Progress { stage }, event),
        }
    }
}

impl Command {
    /// One decision of the invocation of this command: takes the progress
    /// made and what the caller reports, and returns the new progress and
    /// what the caller is to do next. Every variant is handled by its own
    /// command.
    pub fn execute(&self, progress: Progress, event: Event) -> (next: (Progress, Option<Action>))
        ensures
            next.0@ == command_step(self@, progress@, event@).0,
            optional_action(next.1) == command_step(self@, progress@, event@).1,
    {
        match self {
            Command::Import(cmd) => cmd.execute(progress, event),
            Command::Export(cmd) => cmd.execute(progress, event),
            Command::Stat(cmd) => cmd.execute(progress, event),
        }
    }
}

/// The exit status of the process for an outcome: 0 for success, 1 for any
/// failure.
pub fn exit_status(outcome: &Result<Reply, Error>) -> (status: u8)
    ensures
        status == (if outcome is Ok { 0u8 } else { 1u8 }),
{
    match outcome {
        Ok(_) => 0,
        Err(_) => 1,
    }
}

} // verus!
