//! Adapter from wire-format workspace records to the host status bar's
//! backend-neutral workspace model.

use vstd::prelude::*;
use crate::text::{chars_to_string, dec_seq, u64_to_dec};
use crate::wire::{Workspace, WorkspaceV};

verus! {

/// Visibility of a workspace in the host model.
#[derive(Debug, Clone, Copy, PartialEq, Eq)]
pub enum Visibility {
    /// The workspace currently receives input.
    Focused,
    /// The workspace is shown on its output without having input focus.
    Visible,
    /// The workspace is not shown.
    Hidden,
}

/// The host's backend-neutral workspace representation.
#[derive(Debug, Clone, PartialEq, Eq)]
pub struct HostWorkspace {
    pub id: i64,
    pub name: String,
    pub monitor: String,
    pub visibility: Visibility,
}

/// Mathematical view of `HostWorkspace`.
#[verifier::ext_equal]
pub struct HostWorkspaceV {
    pub id: i64,
    pub name: Seq<char>,
    pub monitor: Seq<char>,
    pub visibility: Visibility,
}

impl View for HostWorkspace {
    type V = HostWorkspaceV;

    open spec fn view(&self) -> HostWorkspaceV {
        HostWorkspaceV {
            id: self.id,
            name: self.name@,
            monitor: self.monitor@,
            visibility: self.visibility,
        }
    }
}

/// What adapting a wire workspace yields: the display name falls back to
/// the decimal form of the id when the record carries no name, the
/// monitor falls back to the empty string, and focus dominates activity.
pub open spec fn host_view_of(w: WorkspaceV) -> HostWorkspaceV {
    HostWorkspaceV {
        id: w.id as i64,
        name: match w.name {
            Some(n) => n,
            None => dec_seq(w.id as nat),
        },
        monitor: match w.output {
            Some(o) => o,
            None => Seq::empty(),
        },
        visibility: if w.is_focused {
            Visibility::Focused
        } else if w.is_active {
            Visibility::Visible
        } else {
            Visibility::Hidden
        },
    }
}

impl HostWorkspace {
    /// Adapt one wire-format workspace record into the host model: a
    /// pure mapping with no failure path.
    pub fn from(w: &Workspace) -> (r: HostWorkspace)
        ensures
            r@ == host_view_of(w@),
    {
        let id_host: i64 = #[verifier::truncate] (w.id as i64);
        let name: String = match &w.name {
            Some(s) => s.clone(),
            None => {
                let d: Vec<char> = u64_to_dec(w.id);
                chars_to_string(&d)
            },
        };
        let monitor: String = match &w.output {
            Some(s) => s.clone(),
            None => String::new(),
        };
        let visibility: Visibility = if w.is_focused {
            Visibility::Focused
        } else if w.is_active {
            Visibility::Visible
        } else {
            Visibility::Hidden
        };
        let r = HostWorkspace { id: id_host, name, monitor, visibility };
        assert(r@ =~= host_view_of(w@));
        r
    }
}

} // verus!
