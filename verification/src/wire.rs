//! Wire-model data types: requests, replies, responses, events and
//! workspace records, together with their mathematical views.
//!
//! Each executable type has a view type (`RequestV`, `WorkspaceV`, ...)
//! whose string fields are `Seq<char>`; every contract in this crate is
//! stated over those views.

use vstd::prelude::*;

verus! {

/// A request sent to the compositor: either a single action, or the wish
/// to receive the unsolicited event stream on this connection.
#[derive(Debug, Clone, PartialEq, Eq)]
pub enum Request {
    Action(Action),
    EventStream,
}

/// The one action this client issues: focus the referenced workspace.
#[derive(Debug, Clone, PartialEq, Eq)]
pub enum Action {
    FocusWorkspace { reference: WorkspaceReferenceArg },
}

/// A workspace reference: by display name or by numeric identifier.
#[derive(Debug, Clone, PartialEq, Eq)]
pub enum WorkspaceReferenceArg {
    Name(String),
    Id(u64),
}

/// A wire-format workspace record as the compositor reports it.
#[derive(Debug, Clone, PartialEq, Eq, PartialOrd, Ord, Hash)]
pub struct Workspace {
    pub id: u64,
    pub name: Option<String>,
    pub output: Option<String>,
    pub is_active: bool,
    pub is_focused: bool,
}

/// The payload of a successful reply.
#[derive(Debug, Clone, PartialEq, Eq)]
pub enum Response {
    Handled,
    Workspaces(Vec<Workspace>),
}

/// A decoded reply line: either a response, or an opaque error string
/// supplied by the far end. This is data, not a transport failure.
pub type Reply = Result<Response, String>;

/// An event pushed by the compositor after the reply. `Other` stands for
/// every unrecognized or undecodable line.
#[derive(Debug, Clone, PartialEq, Eq)]
pub enum Event {
    WorkspacesChanged { workspaces: Vec<Workspace> },
    WorkspaceActivated { id: u64, focused: bool },
    Other,
}

/// Failure taxonomy at the connection boundary.
#[derive(Debug, Clone, Copy, PartialEq, Eq)]
pub enum Error {
    /// The required socket location is missing.
    Config,
    /// The socket could not be opened.
    Connect,
    /// The socket could not be written to or shut down, or a read failed
    /// during the reply phase.
    Transport,
    /// The reply line is not a valid reply encoding.
    Protocol,
}

/// Mathematical view of `WorkspaceReferenceArg`.
#[verifier::ext_equal]
pub enum RefV {
    Name(Seq<char>),
    Id(u64),
}

/// Mathematical view of `Action`.
#[verifier::ext_equal]
pub enum ActionV {
    FocusWorkspace { reference: RefV },
}

/// Mathematical view of `Request`.
#[verifier::ext_equal]
pub enum RequestV {
    Action(ActionV),
    EventStream,
}

/// Mathematical view of `Workspace`.
#[verifier::ext_equal]
pub struct WorkspaceV {
    pub id: u64,
    pub name: Option<Seq<char>>,
    pub output: Option<Seq<char>>,
    pub is_active: bool,
    pub is_focused: bool,
}

/// Mathematical view of `Response`.
#[verifier::ext_equal]
pub enum ResponseV {
    Handled,
    Workspaces(Seq<WorkspaceV>),
}

/// Mathematical view of `Event`.
#[verifier::ext_equal]
pub enum EventV {
    WorkspacesChanged { workspaces: Seq<WorkspaceV> },
    WorkspaceActivated { id: u64, focused: bool },
    Other,
}

/// Mathematical view of `Reply`.
pub type ReplyV = Result<ResponseV, Seq<char>>;

impl View for WorkspaceReferenceArg {
    type V = RefV;

    open spec fn view(&self) -> RefV {
        match self {
            WorkspaceReferenceArg::Name(s) => RefV::Name(s@),
            WorkspaceReferenceArg::Id(n) => RefV::Id(*n),
        }
    }
}

impl View for Action {
    type V = ActionV;

    open spec fn view(&self) -> ActionV {
        match self {
            Action::FocusWorkspace { reference } => ActionV::FocusWorkspace {
                reference: reference@,
            },
        }
    }
}

impl View for Request {
    type V = RequestV;

    open spec fn view(&self) -> RequestV {
        match self {
            Request::Action(a) => RequestV::Action(a@),
            Request::EventStream => RequestV::EventStream,
        }
    }
}

/// The view of an optional string field.
pub open spec fn opt_str_view(o: Option<String>) -> Option<Seq<char>> {
    match o {
        Some(s) => Some(s@),
        None => None,
    }
}

impl View for Workspace {
    type V = WorkspaceV;

    open spec fn view(&self) -> WorkspaceV {
        WorkspaceV {
            id: self.id,
            name: opt_str_view(self.name),
            output: opt_str_view(self.output),
            is_active: self.is_active,
            is_focused: self.is_focused,
        }
    }
}

/// The view of a sequence of wire workspaces, record by record.
pub open spec fn wss_view(v: Seq<Workspace>) -> Seq<WorkspaceV> {
    v.map_values(|w: Workspace| w@)
}

impl View for Response {
    type V = ResponseV;

    open spec fn view(&self) -> ResponseV {
        match self {
            Response::Handled => ResponseV::Handled,
            Response::Workspaces(ws) => ResponseV::Workspaces(wss_view(ws@)),
        }
    }
}

impl View for Event {
    type V = EventV;

    open spec fn view(&self) -> EventV {
        match self {
            Event::WorkspacesChanged { workspaces } => EventV::WorkspacesChanged {
                workspaces: wss_view(workspaces@),
            },
            Event::WorkspaceActivated { id, focused } => EventV::WorkspaceActivated {
                id: *id,
                focused: *focused,
            },
            Event::Other => EventV::Other,
        }
    }
}

/// The view of a reply: response view on success, error text view otherwise.
pub open spec fn reply_view(r: Reply) -> ReplyV {
    match r {
        Ok(resp) => Ok(resp@),
        Err(e) => Err(e@),
    }
}

} // verus!
