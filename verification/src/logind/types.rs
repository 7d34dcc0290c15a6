use vstd::prelude::*;
use vstd::string::*;

verus! {

/// Summary information about a login session (one row of `ListSessions`).
#[derive(Debug, Clone)]
pub struct SessionInfo {
    pub id: String,
    pub uid: u32,
    pub user: String,
    pub seat: String,
    pub path: String,
}

/// Detailed session properties (what `show-session` prints).
#[derive(Debug, Clone)]
pub struct SessionProperties {
    pub id: String,
    pub uid: u32,
    pub user: String,
    pub seat: String,
    pub session_type: String,
    pub class: String,
    pub active: bool,
    pub state: String,
    pub remote: bool,
    pub remote_host: String,
    pub remote_user: String,
    pub service: String,
    pub desktop: String,
    pub scope: String,
    pub leader: u32,
    pub audit: u32,
    pub vt_nr: u32,
    pub tty: String,
    pub display: String,
    pub timestamp: u64,
}

/// Detailed session status: the session's id and its properties.
#[derive(Debug, Clone)]
pub struct SessionStatus {
    pub id: String,
    pub properties: SessionProperties,
}

/// Summary information about a logged-in user (one row of `ListUsers`).
#[derive(Debug, Clone)]
pub struct UserInfo {
    pub uid: u32,
    pub name: String,
    pub path: String,
}

/// Detailed user properties (what `show-user` prints).
#[derive(Debug, Clone)]
pub struct UserProperties {
    pub uid: u32,
    pub name: String,
    pub state: String,
    pub linger: bool,
    pub runtime_path: String,
    pub service: String,
    pub slice: String,
    pub display: String,
    pub timestamp: u64,
    pub sessions: Vec<String>,
}

/// Detailed user status: uid, name and properties.
#[derive(Debug, Clone)]
pub struct UserStatus {
    pub uid: u32,
    pub name: String,
    pub properties: UserProperties,
}

/// Body of a kill request: the signal to send and, for sessions, which
/// processes receive it (`"leader"` or `"all"`).
#[derive(Debug, Clone)]
pub struct KillRequest {
    pub signal: String,
    pub who: Option<String>,
}

/// The model of a [`KillRequest`].
pub struct KillRequestView {
    pub signal: Seq<char>,
    pub who: Option<Seq<char>>,
}

impl View for KillRequest {
    type V = KillRequestView;

    open spec fn view(&self) -> KillRequestView {
        KillRequestView {
            signal: self.signal@,
            who: match self.who {
                Some(w) => Some(w@),
                None => None,
            },
        }
    }
}

/// The signal sent when a kill request names none.
pub fn default_signal() -> (r: String)
    ensures
        r@ == "SIGTERM"@,
{
    String::from_str("SIGTERM")
}

/// The sessions of a `ListSessions` reply, one per row
/// `(id, uid, user, seat, object path)`, in order.
pub fn session_infos_from_rows(rows: &Vec<(String, u32, String, String, String)>) -> (r: Vec<
    SessionInfo,
>)
    ensures
        r@.len() == rows@.len(),
        forall|i: int|
            0 <= i < rows@.len() ==> {
                &&& r@[i].id == rows@[i].0
                &&& r@[i].uid == rows@[i].1
                &&& r@[i].user == rows@[i].2
                &&& r@[i].seat == rows@[i].3
                &&& r@[i].path == rows@[i].4
            },
{
    let n = rows.len();
    let mut out: Vec<SessionInfo> = Vec::new();
    let mut i: usize = 0;
    while i < n
        invariant
            n == rows@.len(),
            i <= n,
            out@.len() == i,
            forall|j: int|
                0 <= j < i ==> {
                    &&& out@[j].id == rows@[j].0
                    &&& out@[j].uid == rows@[j].1
                    &&& out@[j].user == rows@[j].2
                    &&& out@[j].seat == rows@[j].3
                    &&& out@[j].path == rows@[j].4
                },
        decreases n - i,
    {
        let row = &rows[i];
        out.push(
            SessionInfo {
                id: row.0.clone(),
                uid: row.1,
                user: row.2.clone(),
                seat: row.3.clone(),
                path: row.4.clone(),
            },
        );
        i = i + 1;
    }
    out
}

/// The users of a `ListUsers` reply, one per row `(uid, name, object path)`,
/// in order.
pub fn user_infos_from_rows(rows: &Vec<(u32, String, String)>) -> (r: Vec<UserInfo>)
    ensures
        r@.len() == rows@.len(),
        forall|i: int|
            0 <= i < rows@.len() ==> {
                &&& r@[i].uid == rows@[i].0
                &&& r@[i].name == rows@[i].1
                &&& r@[i].path == rows@[i].2
            },
{
    let n = rows.len();
    let mut out: Vec<UserInfo> = Vec::new();
    let mut i: usize = 0;
    while i < n
        invariant
            n == rows@.len(),
            i <= n,
            out@.len() == i,
            forall|j: int|
                0 <= j < i ==> {
                    &&& out@[j].uid == rows@[j].0
                    &&& out@[j].name == rows@[j].1
                    &&& out@[j].path == rows@[j].2
                },
        decreases n - i,
    {
        let row = &rows[i];
        out.push(UserInfo { uid: row.0, name: row.1.clone(), path: row.2.clone() });
        i = i + 1;
    }
    out
}

} // verus!
