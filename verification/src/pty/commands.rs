//! What the command layer adds to the manager's answers: the shape in which
//! reconnectable sessions are told to a user interface, and the geometry of
//! a reconnect for which none was given.

use vstd::prelude::*;
use vstd::std_specs::convert::FromSpecImpl;
use crate::pty::session::{DEFAULT_COLS, DEFAULT_ROWS};
use crate::pty::tmux::{TmuxSessionInfo, TmuxSessionModel};

verus! {

/// A multiplexer session to which a terminal can be reconnected.
#[derive(Clone, Debug, PartialEq, Eq)]
pub struct ReconnectableSession {
    pub session_id: String,
    pub tmux_session_name: String,
    pub created_at: i64,
    pub attached: bool,
}

impl DeepView for ReconnectableSession {
    type V = TmuxSessionModel;

    open spec fn deep_view(&self) -> TmuxSessionModel {
        TmuxSessionModel {
            session_id: self.session_id@,
            tmux_session_name: self.tmux_session_name@,
            created_at: self.created_at,
            attached: self.attached,
        }
    }
}

impl From<TmuxSessionInfo> for ReconnectableSession {
    fn from(info: TmuxSessionInfo) -> (session: Self) {
        ReconnectableSession {
            session_id: info.session_id,
            tmux_session_name: info.tmux_session_name,
            created_at: info.created_at,
            attached: info.attached,
        }
    }
}

impl FromSpecImpl<TmuxSessionInfo> for ReconnectableSession {
    open spec fn obeys_from_spec() -> bool {
        true
    }

    open spec fn from_spec(info: TmuxSessionInfo) -> Self {
        ReconnectableSession {
            session_id: info.session_id,
            tmux_session_name: info.tmux_session_name,
            created_at: info.created_at,
            attached: info.attached,
        }
    }
}

/// The sessions of `listed`, each as it is told to a user interface: the
/// same fields in the same order.
pub fn reconnectable_sessions(listed: Vec<TmuxSessionInfo>) -> (sessions: Vec<
    ReconnectableSession,
>)
    ensures
        sessions.deep_view() == listed.deep_view(),
{
    let ghost all = listed.deep_view();
    let mut sessions: Vec<ReconnectableSession> = Vec::new();
    assert(sessions.deep_view() =~= all.take(0));
    for info in it: listed
        invariant
            it.seq().len() == all.len(),
            forall|k: int| 0 <= k < all.len() ==> (#[trigger] it.seq()[k]).deep_view() == all[k],
            sessions.deep_view() == all.take(it.index()),
    {
        let ghost before = sessions.deep_view();
        let ghost at = it.index();
        sessions.push(ReconnectableSession::from(info));
        assert(sessions.deep_view() =~= before.push(info.deep_view()));
        assert(all.take(at + 1) =~= all.take(at).push(all[at]));
    }
    assert(all.take(all.len() as int) =~= all);
    sessions
}

/// The geometry of a reconnect: what was asked for, and 80 by 24 where
/// nothing was.
pub fn reconnect_geometry(cols: Option<u16>, rows: Option<u16>) -> (geometry: (u16, u16))
    ensures
        geometry.0 == (match cols {
            Some(c) => c,
            None => DEFAULT_COLS,
        }),
        geometry.1 == (match rows {
            Some(r) => r,
            None => DEFAULT_ROWS,
        }),
{
    (
        match cols {
            Some(c) => c,
            None => DEFAULT_COLS,
        },
        match rows {
            Some(r) => r,
            None => DEFAULT_ROWS,
        },
    )
}

} // verus!
