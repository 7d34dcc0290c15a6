use vstd::prelude::*;

verus! {

/// One logind operation with its arguments: the seventeen `loginctl`
/// commands that the service exposes.
#[derive(Debug)]
pub enum LogindCall {
    ListSessions,
    SessionStatus { id: String },
    ShowSession { id: String },
    ActivateSession { id: String },
    LockSession { id: String },
    UnlockSession { id: String },
    LockSessions,
    UnlockSessions,
    TerminateSession { id: String },
    KillSession { id: String, who: String, signal: i32 },
    ListUsers,
    UserStatus { uid: u32 },
    ShowUser { uid: u32 },
    EnableLinger { uid: u32 },
    DisableLinger { uid: u32 },
    TerminateUser { uid: u32 },
    KillUser { uid: u32, signal: i32 },
}

/// Whether the operation changes state (as opposed to reading it).
pub open spec fn is_mutation(c: LogindCall) -> bool {
    match c {
        LogindCall::ListSessions => false,
        LogindCall::SessionStatus { .. } => false,
        LogindCall::ShowSession { .. } => false,
        LogindCall::ListUsers => false,
        LogindCall::UserStatus { .. } => false,
        LogindCall::ShowUser { .. } => false,
        _ => true,
    }
}

impl LogindCall {
    /// Whether the operation changes state; reads are the two listings and
    /// the status and show operations on a session or a user.
    pub fn is_mutating(&self) -> (r: bool)
        ensures
            r == is_mutation(*self),
    {
        match self {
            LogindCall::ListSessions => false,
            LogindCall::SessionStatus { .. } => false,
            LogindCall::ShowSession { .. } => false,
            LogindCall::ListUsers => false,
            LogindCall::UserStatus { .. } => false,
            LogindCall::ShowUser { .. } => false,
            _ => true,
        }
    }
}

} // verus!
