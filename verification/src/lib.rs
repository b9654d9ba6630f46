//! Client-side core of a compositor control protocol spoken over a local
//! stream socket: wire-model data types, the line-delimited JSON codec for
//! them, a workspace reference parser, and the adapter from wire-format
//! workspace records to the host status bar's backend-neutral model.
//!
//! The socket itself is owned by the surrounding application; this crate
//! holds everything that can be stated and proved about the protocol:
//! encoding, decoding, the round-trip laws, and the pure decisions the
//! connection makes (how a request is framed, when a reply line is a
//! protocol error, how an event line degrades to `Event::Other`).

pub mod dec;
pub mod enc;
pub mod host;
pub mod refparse;
pub mod round_trip;
pub mod session;
pub mod text;
pub mod wire;

pub use host::{HostWorkspace, Visibility};
pub use wire::{Action, Error, Event, Reply, Request, Response, Workspace, WorkspaceReferenceArg};
