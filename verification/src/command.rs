//! The three cache commands, what each asks of the daemon, and what the
//! daemon may answer.

use vstd::prelude::*;
use crate::error::Invalid;
use crate::validate::{
    is_well_formed_source_path, is_well_formed_task_id, source_path_well_formed,
    task_id_well_formed,
};

verus! {

/// The value of an optional text.
pub open spec fn optional_text(text: Option<String>) -> Option<Seq<char>> {
    match text {
        Some(t) => Some(t@),
        None => None,
    }
}

fn copy_optional_text(text: &Option<String>) -> (copy: Option<String>)
    ensures
        optional_text(copy) == optional_text(*text),
{
    match text {
        Some(t) => Some(t.clone()),
        None => None,
    }
}

/// Import a local file into the network.
#[derive(Debug, PartialEq, Eq)]
pub struct ImportCommand {
    /// The local file to import.
    pub path: String,
    /// How many replicas the daemon is asked to keep. A hint: the daemon
    /// owns the replication policy.
    pub replica_count: u64,
    /// The digest the file is expected to have.
    pub digest: Option<String>,
    /// The priority of the import.
    pub priority: Option<u32>,
    /// The address the file originally came from.
    pub url: Option<String>,
    /// The configured path of the daemon's socket.
    pub endpoint: String,
}

/// Export a file of the network to a local path.
#[derive(Debug, PartialEq, Eq)]
pub struct ExportCommand {
    /// The task identifier of the file.
    pub id: String,
    /// Where the file is written.
    pub output: String,
    /// The configured path of the daemon's socket.
    pub endpoint: String,
}

/// Ask for the metadata of a file of the network.
#[derive(Debug, PartialEq, Eq)]
pub struct StatCommand {
    /// The task identifier of the file.
    pub id: String,
    /// The configured path of the daemon's socket.
    pub endpoint: String,
}

/// The commands of the cache: a closed set, each with its own parameters.
#[derive(Debug, PartialEq, Eq)]
pub enum Command {
    Import(ImportCommand),
    Export(ExportCommand),
    Stat(StatCommand),
}

/// The mathematical value of an [`ImportCommand`].
pub struct ImportCommandView {
    pub path: Seq<char>,
    pub replica_count: u64,
    pub digest: Option<Seq<char>>,
    pub priority: Option<u32>,
    pub url: Option<Seq<char>>,
    pub endpoint: Seq<char>,
}

/// The mathematical value of an [`ExportCommand`].
pub struct ExportCommandView {
    pub id: Seq<char>,
    pub output: Seq<char>,
    pub endpoint: Seq<char>,
}

/// The mathematical value of a [`StatCommand`].
pub struct StatCommandView {
    pub id: Seq<char>,
    pub endpoint: Seq<char>,
}

/// The mathematical value of a [`Command`].
pub enum CommandView {
    Import(ImportCommandView),
    Export(ExportCommandView),
    Stat(StatCommandView),
}

impl View for ImportCommand {
    type V = ImportCommandView;

    open spec fn view(&self) -> ImportCommandView {
        ImportCommandView {
            path: self.path@,
            replica_count: self.replica_count,
            digest: optional_text(self.digest),
            priority: self.priority,
            url: optional_text(self.url),
            endpoint: self.endpoint@,
        }
    }
}

impl View for ExportCommand {
    type V = ExportCommandView;

    open spec fn view(&self) -> ExportCommandView {
        ExportCommandView { id: self.id@, output: self.output@, endpoint: self.endpoint@ }
    }
}

impl View for StatCommand {
    type V = StatCommandView;

    open spec fn view(&self) -> StatCommandView {
        StatCommandView { id: self.id@, endpoint: self.endpoint@ }
    }
}

impl View for Command {
    type V = CommandView;

    open spec fn view(&self) -> CommandView {
        match *self {
            Command::Import(cmd) => CommandView::Import(cmd@),
            Command::Export(cmd) => CommandView::Export(cmd@),
            Command::Stat(cmd) => CommandView::Stat(cmd@),
        }
    }
}

impl Clone for ImportCommand {
    fn clone(&self) -> (copy: Self)
        ensures
            copy@ == self@,
    {
        ImportCommand {
            path: self.path.clone(),
            replica_count: self.replica_count,
            digest: copy_optional_text(&self.digest),
            priority: self.priority,
            url: copy_optional_text(&self.url),
            endpoint: self.endpoint.clone(),
        }
    }
}

impl Clone for ExportCommand {
    fn clone(&self) -> (copy: Self)
        ensures
            copy@ == self@,
    {
        ExportCommand {
            id: self.id.clone(),
            output: self.output.clone(),
            endpoint: self.endpoint.clone(),
        }
    }
}

impl Clone for StatCommand {
    fn clone(&self) -> (copy: Self)
        ensures
            copy@ == self@,
    {
        StatCommand { id: self.id.clone(), endpoint: self.endpoint.clone() }
    }
}

impl Clone for Command {
    fn clone(&self) -> (copy: Self)
        ensures
            copy@ == self@,
    {
        match self {
            Command::Import(cmd) => Command::Import(cmd.clone()),
            Command::Export(cmd) => Command::Export(cmd.clone()),
            Command::Stat(cmd) => Command::Stat(cmd.clone()),
        }
    }
}

/// What a command asks of the daemon's download service.
#[derive(Debug, PartialEq, Eq)]
pub enum Request {
    Import {
        path: String,
        replica_count: u64,
        digest: Option<String>,
        priority: Option<u32>,
        url: Option<String>,
    },
    Export { task_id: String, output: String },
    Stat { task_id: String },
}

/// The mathematical value of a [`Request`].
pub enum RequestView {
    Import {
        path: Seq<char>,
        replica_count: u64,
        digest: Option<Seq<char>>,
        priority: Option<u32>,
        url: Option<Seq<char>>,
    },
    Export { task_id: Seq<char>, output: Seq<char> },
    Stat { task_id: Seq<char> },
}

impl View for Request {
    type V = RequestView;

    open spec fn view(&self) -> RequestView {
        match *self {
            Request::Import { path, replica_count, digest, priority, url } => RequestView::Import {
                path: path@,
                replica_count,
                digest: optional_text(digest),
                priority,
                url: optional_text(url),
            },
            Request::Export { task_id, output } => RequestView::Export {
                task_id: task_id@,
                output: output@,
            },
            Request::Stat { task_id } => RequestView::Stat { task_id: task_id@ },
        }
    }
}

/// The metadata the daemon keeps of a cached file.
#[derive(Debug, PartialEq, Eq)]
pub struct FileInfo {
    /// The task identifier of the file.
    pub task_id: String,
    /// The length of the file in bytes.
    pub content_length: u64,
    /// How many replicas the network holds.
    pub replica_count: u64,
}

/// The mathematical value of a [`FileInfo`].
pub struct FileInfoView {
    pub task_id: Seq<char>,
    pub content_length: u64,
    pub replica_count: u64,
}

impl View for FileInfo {
    type V = FileInfoView;

    open spec fn view(&self) -> FileInfoView {
        FileInfoView {
            task_id: self.task_id@,
            content_length: self.content_length,
            replica_count: self.replica_count,
        }
    }
}

/// What the daemon answers to a request that it carried out.
#[derive(Debug, PartialEq, Eq)]
pub enum Reply {
    /// The import succeeded: the network knows the file under `task_id`.
    Imported { task_id: String },
    /// The export succeeded: the requested path holds the file.
    Exported,
    /// The metadata of the file.
    Stat { info: FileInfo },
}

/// The mathematical value of a [`Reply`].
pub enum ReplyView {
    Imported { task_id: Seq<char> },
    Exported,
    Stat { info: FileInfoView },
}

impl View for Reply {
    type V = ReplyView;

    open spec fn view(&self) -> ReplyView {
        match *self {
            Reply::Imported { task_id } => ReplyView::Imported { task_id: task_id@ },
            Reply::Exported => ReplyView::Exported,
            Reply::Stat { info } => ReplyView::Stat { info: info@ },
        }
    }
}

impl ReplyView {
    /// Whether this is the kind of reply that `request` calls for.
    pub open spec fn answers(self, request: RequestView) -> bool {
        match (self, request) {
            (ReplyView::Imported { .. }, RequestView::Import { .. }) => true,
            (ReplyView::Exported, RequestView::Export { .. }) => true,
            (ReplyView::Stat { .. }, RequestView::Stat { .. }) => true,
            _ => false,
        }
    }
}

impl Reply {
    /// Whether this is the kind of reply that `request` calls for.
    pub fn answers(&self, request: &Request) -> (fits: bool)
        ensures
            fits == self@.answers(request@),
    {
        match (self, request) {
            (Reply::Imported { .. }, Request::Import { .. }) => true,
            (Reply::Exported, Request::Export { .. }) => true,
            (Reply::Stat { .. }, Request::Stat { .. }) => true,
            _ => false,
        }
    }
}

impl ImportCommandView {
    /// The first thing wrong with the parameters, if anything is: the
    /// source path is looked at before the replica count.
    pub open spec fn verdict(self) -> Result<(), Invalid> {
        if !source_path_well_formed(self.path) {
            Err(Invalid::MalformedSourcePath)
        } else if self.replica_count == 0 {
            Err(Invalid::ZeroReplicas)
        } else {
            Ok(())
        }
    }

    /// The import request: every parameter as it was given.
    pub open spec fn request(self) -> RequestView {
        RequestView::Import {
            path: self.path,
            replica_count: self.replica_count,
            digest: self.digest,
            priority: self.priority,
            url: self.url,
        }
    }
}

impl ExportCommandView {
    /// Whether the task identifier is well formed.
    pub open spec fn verdict(self) -> Result<(), Invalid> {
        if task_id_well_formed(self.id) {
            Ok(())
        } else {
            Err(Invalid::MalformedTaskId)
        }
    }

    /// The export request: the identifier and the destination as given.
    pub open spec fn request(self) -> RequestView {
        RequestView::Export { task_id: self.id, output: self.output }
    }
}

impl StatCommandView {
    /// Whether the task identifier is well formed.
    pub open spec fn verdict(self) -> Result<(), Invalid> {
        if task_id_well_formed(self.id) {
            Ok(())
        } else {
            Err(Invalid::MalformedTaskId)
        }
    }

    /// The stat request: the identifier as given.
    pub open spec fn request(self) -> RequestView {
        RequestView::Stat { task_id: self.id }
    }
}

impl CommandView {
    /// What the syntactic checks of the command say.
    pub open spec fn verdict(self) -> Result<(), Invalid> {
        match self {
            CommandView::Import(cmd) => cmd.verdict(),
            CommandView::Export(cmd) => cmd.verdict(),
            CommandView::Stat(cmd) => cmd.verdict(),
        }
    }

    /// What the command asks of the daemon.
    pub open spec fn request(self) -> RequestView {
        match self {
            CommandView::Import(cmd) => cmd.request(),
            CommandView::Export(cmd) => cmd.request(),
            CommandView::Stat(cmd) => cmd.request(),
        }
    }

    /// The configured socket path.
    pub open spec fn endpoint(self) -> Seq<char> {
        match self {
            CommandView::Import(cmd) => cmd.endpoint,
            CommandView::Export(cmd) => cmd.endpoint,
            CommandView::Stat(cmd) => cmd.endpoint,
        }
    }
}

impl ImportCommand {
    /// Checks the source path and the replica count. Nothing outside the
    /// command is consulted.
    pub fn validate(&self) -> (checked: Result<(), Invalid>)
        ensures
            checked == self@.verdict(),
    {
        if !is_well_formed_source_path(self.path.as_str()) {
            Err(Invalid::MalformedSourcePath)
        } else if self.replica_count == 0 {
            Err(Invalid::ZeroReplicas)
        } else {
            Ok(())
        }
    }

    /// Builds the import request from the parameters, none of them changed.
    pub fn request(&self) -> (request: Request)
        ensures
            request@ == self@.request(),
    {
        Request::Import {
            path: self.path.clone(),
            replica_count: self.replica_count,
            digest: copy_optional_text(&self.digest),
            priority: self.priority,
            url: copy_optional_text(&self.url),
        }
    }
}

impl ExportCommand {
    /// Checks that the task identifier is well formed.
    pub fn validate(&self) -> (checked: Result<(), Invalid>)
        ensures
            checked == self@.verdict(),
    {
        if is_well_formed_task_id(self.id.as_str()) {
            Ok(())
        } else {
            Err(Invalid::MalformedTaskId)
        }
    }

    /// Builds the export request. It names the task by exactly the
    /// identifier of the command.
    pub fn request(&self) -> (request: Request)
        ensures
            request@ == (RequestView::Export { task_id: self@.id, output: self@.output }),
    {
        Request::Export { task_id: self.id.clone(), output: self.output.clone() }
    }
}

impl StatCommand {
    /// Checks that the task identifier is well formed.
    pub fn validate(&self) -> (checked: Result<(), Invalid>)
        ensures
            checked == self@.verdict(),
    {
        if is_well_formed_task_id(self.id.as_str()) {
            Ok(())
        } else {
            Err(Invalid::MalformedTaskId)
        }
    }

    /// Builds the stat request. It names the task by exactly the
    /// identifier of the command.
    pub fn request(&self) -> (request: Request)
        ensures
            request@ == (RequestView::Stat { task_id: self@.id }),
    {
        Request::Stat { task_id: self.id.clone() }
    }
}

} // verus!
