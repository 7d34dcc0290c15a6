use vstd::prelude::*;
use vstd::string::*;

use crate::error::{AppError, AppErrorView};
use crate::logind::bus::{
    is_bus_call_for, on_manager, on_session, on_user, text_arg, BusArgs, BusCall, BusObject,
    PROPERTIES_IFACE, SESSION_IFACE, USER_IFACE,
};
use crate::logind::call::{is_mutation, LogindCall};
use crate::logind::types::{
    KillRequest, KillRequestView, SessionInfo, SessionProperties, SessionStatus, UserInfo,
    UserProperties, UserStatus,
};
use crate::signal::{ascii_upper, parse_signal, signal_number, uppercase_of};
use vstd::utf8::is_ascii_chars;

verus! {

/// An API request, as routed from its HTTP method and path.
#[derive(Debug)]
pub enum Endpoint {
    /// `GET /api/v1/sessions`
    ListSessions,
    /// `GET /api/v1/sessions/{id}`
    ShowSession { id: String },
    /// `GET /api/v1/sessions/{id}/status`
    SessionStatus { id: String },
    /// `POST /api/v1/sessions/{id}/activate`
    ActivateSession { id: String },
    /// `POST /api/v1/sessions/{id}/lock`
    LockSession { id: String },
    /// `POST /api/v1/sessions/{id}/unlock`
    UnlockSession { id: String },
    /// `POST /api/v1/sessions/lock-all`
    LockAllSessions,
    /// `POST /api/v1/sessions/unlock-all`
    UnlockAllSessions,
    /// `DELETE /api/v1/sessions/{id}`
    TerminateSession { id: String },
    /// `POST /api/v1/sessions/{id}/kill` with a kill request body
    KillSession { id: String, body: KillRequest },
    /// `GET /api/v1/users`
    ListUsers,
    /// `GET /api/v1/users/{uid}`
    ShowUser { uid: u32 },
    /// `GET /api/v1/users/{uid}/status`
    UserStatus { uid: u32 },
    /// `POST /api/v1/users/{uid}/linger`
    EnableLinger { uid: u32 },
    /// `DELETE /api/v1/users/{uid}/linger`
    DisableLinger { uid: u32 },
    /// `DELETE /api/v1/users/{uid}`
    TerminateUser { uid: u32 },
    /// `POST /api/v1/users/{uid}/kill` with a kill request body
    KillUser { uid: u32, body: KillRequest },
}

/// Which processes of a session a kill request targets: the `who` given,
/// else all of them.
pub open spec fn kill_target(body: KillRequestView) -> Seq<char> {
    match body.who {
        Some(w) => w,
        None => "all"@,
    }
}

/// The signal number a kill request asks for, if its signal is valid.
pub open spec fn kill_signal(body: KillRequestView) -> Option<i32> {
    signal_number(uppercase_of(body.signal))
}

/// Whether a request is refused before reaching logind: only a kill request
/// whose signal is neither a known name nor a number is.
pub open spec fn is_refused(request: Endpoint) -> bool {
    match request {
        Endpoint::KillSession { body, .. } => kill_signal(body@) is None,
        Endpoint::KillUser { body, .. } => kill_signal(body@) is None,
        _ => false,
    }
}

/// The text of a refused request's signal, as upper-cased.
pub open spec fn refused_signal(request: Endpoint) -> Seq<char> {
    match request {
        Endpoint::KillSession { body, .. } => uppercase_of(body.signal@),
        Endpoint::KillUser { body, .. } => uppercase_of(body.signal@),
        _ => Seq::empty(),
    }
}

/// The signal text of a kill request, if the request is one.
pub open spec fn kill_signal_text(request: Endpoint) -> Option<Seq<char>> {
    match request {
        Endpoint::KillSession { body, .. } => Some(body.signal@),
        Endpoint::KillUser { body, .. } => Some(body.signal@),
        _ => None,
    }
}

/// Whether a request is a kill request whose signal text is ASCII.
pub open spec fn is_ascii_kill(request: Endpoint) -> bool {
    kill_signal_text(request) matches Some(t) && is_ascii_chars(t)
}

/// The ASCII upper case of a kill request's signal text.
pub open spec fn ascii_kill_signal(request: Endpoint) -> Seq<char> {
    ascii_upper(kill_signal_text(request).unwrap())
}

/// The signal an operation sends, if it sends one.
pub open spec fn sent_signal(c: LogindCall) -> Option<i32> {
    match c {
        LogindCall::KillSession { signal, .. } => Some(signal),
        LogindCall::KillUser { signal, .. } => Some(signal),
        _ => None,
    }
}

/// The logind operation that serves a request.
pub open spec fn plans_to(request: Endpoint, c: LogindCall) -> bool {
    match request {
        Endpoint::ListSessions => c is ListSessions,
        Endpoint::ShowSession { id } => c matches LogindCall::ShowSession { id: i } && i@ == id@,
        Endpoint::SessionStatus { id } => c matches LogindCall::SessionStatus { id: i } && i@
            == id@,
        Endpoint::ActivateSession { id } => c matches LogindCall::ActivateSession { id: i } && i@
            == id@,
        Endpoint::LockSession { id } => c matches LogindCall::LockSession { id: i } && i@ == id@,
        Endpoint::UnlockSession { id } => c matches LogindCall::UnlockSession { id: i } && i@
            == id@,
        Endpoint::LockAllSessions => c is LockSessions,
        Endpoint::UnlockAllSessions => c is UnlockSessions,
        Endpoint::TerminateSession { id } => c matches LogindCall::TerminateSession { id: i } && i@
            == id@,
        Endpoint::KillSession { id, body } => c matches LogindCall::KillSession {
            id: i,
            who,
            signal,
        } && i@ == id@ && who@ == kill_target(body@) && kill_signal(body@) == Some(signal),
        Endpoint::ListUsers => c is ListUsers,
        Endpoint::ShowUser { uid } => c == LogindCall::ShowUser { uid },
        Endpoint::UserStatus { uid } => c == LogindCall::UserStatus { uid },
        Endpoint::EnableLinger { uid } => c == LogindCall::EnableLinger { uid },
        Endpoint::DisableLinger { uid } => c == LogindCall::DisableLinger { uid },
        Endpoint::TerminateUser { uid } => c == LogindCall::TerminateUser { uid },
        Endpoint::KillUser { uid, body } => c matches LogindCall::KillUser { uid: u, signal } && u
            == uid && kill_signal(body@) == Some(signal),
    }
}

/// Decides what a request asks of logind. Kill requests have their signal
/// parsed (by name in any case, or by number) and their target defaulted to
/// `"all"`; an invalid signal refuses the request with `BadRequest`.
/// Every other request maps to its logind operation unchanged.
pub fn plan(request: Endpoint) -> (r: Result<LogindCall, AppError>)
    ensures
        r is Err <==> is_refused(request),
        r matches Ok(c) ==> plans_to(request, c),
        r matches Err(e) ==> e@ == AppErrorView::BadRequest(
            "invalid signal: "@ + refused_signal(request),
        ),
        is_ascii_kill(request) ==> (r is Err <==> signal_number(ascii_kill_signal(request))
            is None),
        is_ascii_kill(request) ==> (r matches Ok(c) ==> sent_signal(c) == signal_number(
            ascii_kill_signal(request),
        )),
        is_ascii_kill(request) ==> (r matches Err(e) ==> e@ == AppErrorView::BadRequest(
            "invalid signal: "@ + ascii_kill_signal(request),
        )),
{
    match request {
        Endpoint::ListSessions => Ok(LogindCall::ListSessions),
        Endpoint::ShowSession { id } => Ok(LogindCall::ShowSession { id }),
        Endpoint::SessionStatus { id } => Ok(LogindCall::SessionStatus { id }),
        Endpoint::ActivateSession { id } => Ok(LogindCall::ActivateSession { id }),
        Endpoint::LockSession { id } => Ok(LogindCall::LockSession { id }),
        Endpoint::UnlockSession { id } => Ok(LogindCall::UnlockSession { id }),
        Endpoint::LockAllSessions => Ok(LogindCall::LockSessions),
        Endpoint::UnlockAllSessions => Ok(LogindCall::UnlockSessions),
        Endpoint::TerminateSession { id } => Ok(LogindCall::TerminateSession { id }),
        Endpoint::KillSession { id, body } => {
            let signal = match parse_signal(body.signal.as_str()) {
                Ok(n) => n,
                Err(e) => {
                    return Err(e);
                },
            };
            let who = match body.who {
                Some(w) => w,
                None => String::from_str("all"),
            };
            Ok(LogindCall::KillSession { id, who, signal })
        },
        Endpoint::ListUsers => Ok(LogindCall::ListUsers),
        Endpoint::ShowUser { uid } => Ok(LogindCall::ShowUser { uid }),
        Endpoint::UserStatus { uid } => Ok(LogindCall::UserStatus { uid }),
        Endpoint::EnableLinger { uid } => Ok(LogindCall::EnableLinger { uid }),
        Endpoint::DisableLinger { uid } => Ok(LogindCall::DisableLinger { uid }),
        Endpoint::TerminateUser { uid } => Ok(LogindCall::TerminateUser { uid }),
        Endpoint::KillUser { uid, body } => {
            let signal = match parse_signal(body.signal.as_str()) {
                Ok(n) => n,
                Err(e) => {
                    return Err(e);
                },
            };
            Ok(LogindCall::KillUser { uid, signal })
        },
    }
}

/// What logind answered to an operation.
#[derive(Debug)]
pub enum LogindReply {
    /// A mutating operation completed.
    Done,
    Sessions(Vec<SessionInfo>),
    Session(SessionProperties),
    SessionStatus(SessionStatus),
    Users(Vec<UserInfo>),
    User(UserProperties),
    UserStatus(UserStatus),
}

/// The body of an HTTP reply.
#[derive(Debug)]
pub enum ReplyBody {
    /// No content.
    Empty,
    /// The data, sent as JSON.
    Data(LogindReply),
    /// An error, sent as JSON with its message.
    Failure(AppError),
}

/// An HTTP reply: status code and body.
#[derive(Debug)]
pub struct HttpReply {
    pub status: u16,
    pub body: ReplyBody,
}

/// The status an operation is answered with: 204 No Content when a
/// mutating operation succeeded, 200 OK when a read succeeded, and the
/// error's own status otherwise.
pub open spec fn response_status(c: LogindCall, outcome: Result<LogindReply, AppError>) -> u16 {
    match outcome {
        Ok(_) => if is_mutation(c) {
            204
        } else {
            200
        },
        Err(e) => e@.status(),
    }
}

/// The reply to a refused request: the error's status, with the error as body.
pub fn reject(e: AppError) -> (r: HttpReply)
    ensures
        r.status == e@.status(),
        r.body == ReplyBody::Failure(e),
{
    let status = e.status_code();
    HttpReply { status, body: ReplyBody::Failure(e) }
}

/// The reply to an operation that reached logind: 204 with no body when a
/// mutating operation succeeded, 200 with the data when a read did, and the
/// error's status with the error when it failed.
pub fn respond(call: &LogindCall, outcome: Result<LogindReply, AppError>) -> (r: HttpReply)
    ensures
        r.status == response_status(*call, outcome),
        match outcome {
            Ok(d) => if is_mutation(*call) {
                r.body is Empty
            } else {
                r.body == ReplyBody::Data(d)
            },
            Err(e) => r.body == ReplyBody::Failure(e),
        },
{
    match outcome {
        Ok(d) => {
            if call.is_mutating() {
                HttpReply { status: 204, body: ReplyBody::Empty }
            } else {
                HttpReply { status: 200, body: ReplyBody::Data(d) }
            }
        },
        Err(e) => reject(e),
    }
}

/// Whether a request only reads (an HTTP `GET`).
pub open spec fn is_read_request(request: Endpoint) -> bool {
    match request {
        Endpoint::ListSessions => true,
        Endpoint::ShowSession { .. } => true,
        Endpoint::SessionStatus { .. } => true,
        Endpoint::ListUsers => true,
        Endpoint::ShowUser { .. } => true,
        Endpoint::UserStatus { .. } => true,
        _ => false,
    }
}

/// A request that logind served successfully is answered 200 OK when it
/// only reads (`GET`), and 204 No Content when it mutates (`POST` or
/// `DELETE`).
pub proof fn success_status_by_method(request: Endpoint, c: LogindCall, d: LogindReply)
    requires
        plans_to(request, c),
    ensures
        response_status(c, Ok(d)) == if is_read_request(request) {
            200u16
        } else {
            204u16
        },
{
}

/// A failed request is answered by the kind of its error alone: 502 when
/// D-Bus failed, 404 when the session or user does not exist, 400 when the
/// request is malformed, whatever the operation.
pub proof fn failure_status_by_kind(c: LogindCall, e: AppError)
    ensures
        response_status(c, Err(e)) == match e@ {
            AppErrorView::Dbus(_) => 502u16,
            AppErrorView::NotFound(_) => 404u16,
            AppErrorView::BadRequest(_) => 400u16,
        },
{
}

/// A kill request without `who` targets all processes of the session.
pub proof fn kill_targets_all_by_default(id: String, body: KillRequest, c: LogindCall)
    requires
        body.who is None,
        plans_to(Endpoint::KillSession { id, body }, c),
    ensures
        c matches LogindCall::KillSession { who, .. } && who@ == "all"@,
{
}

/// A refused request (a kill request with an invalid signal) is answered
/// 400 Bad Request, with the upper-cased signal in the message.
pub proof fn refused_requests_answer_400(request: Endpoint, e: AppError)
    requires
        is_refused(request),
        e@ == AppErrorView::BadRequest("invalid signal: "@ + refused_signal(request)),
    ensures
        e@.status() == 400,
        e@.message() == "invalid signal: "@ + refused_signal(request),
{
}

/// A kill-session request reaches logind as `Kill(who, signal)` on that
/// session's object, `who` defaulting to `"all"` and the signal being the
/// one the request names.
pub proof fn kill_session_reaches_logind(id: String, body: KillRequest, c: LogindCall, b: BusCall)
    requires
        plans_to(Endpoint::KillSession { id, body }, c),
        is_bus_call_for(c, b),
    ensures
        on_session(b, id@, SESSION_IFACE@, "Kill"@),
        b.args matches BusArgs::SessionKill(w, n) && w@ == kill_target(body@) && kill_signal(body@)
            == Some(n),
{
}

/// An HTTP method that the API answers.
#[derive(Debug, Clone, Copy, PartialEq, Eq, Structural)]
pub enum HttpMethod {
    Get,
    Post,
    Delete,
}

/// What a route serves.
#[derive(Debug, Clone, Copy, PartialEq, Eq, Structural)]
pub enum RouteKind {
    /// The health check.
    Healthz,
    /// List all sessions.
    ListSessions,
    /// Lock all sessions.
    LockAllSessions,
    /// Unlock all sessions.
    UnlockAllSessions,
    /// Session properties.
    ShowSession,
    /// Terminate a session.
    TerminateSession,
    /// Session status details.
    SessionStatus,
    /// Activate a session.
    ActivateSession,
    /// Lock a session.
    LockSession,
    /// Unlock a session.
    UnlockSession,
    /// Kill session processes.
    KillSession,
    /// List logged-in users.
    ListUsers,
    /// User properties.
    ShowUser,
    /// Terminate all user sessions.
    TerminateUser,
    /// User status details.
    UserStatus,
    /// Enable linger.
    EnableLinger,
    /// Disable linger.
    DisableLinger,
    /// Kill user processes.
    KillUser,
}

/// One row of the API: a method and a path pattern (with `{id}` for a
/// session id and `{uid}` for a user id), and what it serves.
#[derive(Debug, Clone, Copy)]
pub struct Route {
    pub method: HttpMethod,
    pub path: &'static str,
    pub kind: RouteKind,
}

/// The API's routes: the health check, the ten session endpoints and the
/// seven user endpoints, each with its HTTP method and path.
pub open spec fn api_routes() -> Seq<(HttpMethod, Seq<char>, RouteKind)> {
    Seq::new(18, |i: int| route_row(i))
}

/// Row `i` of the route table.
pub open spec fn route_row(i: int) -> (HttpMethod, Seq<char>, RouteKind) {
    if i == 0 {
        (HttpMethod::Get, "/healthz"@, RouteKind::Healthz)
    } else if i == 1 {
        (HttpMethod::Get, "/api/v1/sessions"@, RouteKind::ListSessions)
    } else if i == 2 {
        (HttpMethod::Post, "/api/v1/sessions/lock-all"@, RouteKind::LockAllSessions)
    } else if i == 3 {
        (HttpMethod::Post, "/api/v1/sessions/unlock-all"@, RouteKind::UnlockAllSessions)
    } else if i == 4 {
        (HttpMethod::Get, "/api/v1/sessions/{id}"@, RouteKind::ShowSession)
    } else if i == 5 {
        (HttpMethod::Delete, "/api/v1/sessions/{id}"@, RouteKind::TerminateSession)
    } else if i == 6 {
        (HttpMethod::Get, "/api/v1/sessions/{id}/status"@, RouteKind::SessionStatus)
    } else if i == 7 {
        (HttpMethod::Post, "/api/v1/sessions/{id}/activate"@, RouteKind::ActivateSession)
    } else if i == 8 {
        (HttpMethod::Post, "/api/v1/sessions/{id}/lock"@, RouteKind::LockSession)
    } else if i == 9 {
        (HttpMethod::Post, "/api/v1/sessions/{id}/unlock"@, RouteKind::UnlockSession)
    } else if i == 10 {
        (HttpMethod::Post, "/api/v1/sessions/{id}/kill"@, RouteKind::KillSession)
    } else if i == 11 {
        (HttpMethod::Get, "/api/v1/users"@, RouteKind::ListUsers)
    } else if i == 12 {
        (HttpMethod::Get, "/api/v1/users/{uid}"@, RouteKind::ShowUser)
    } else if i == 13 {
        (HttpMethod::Delete, "/api/v1/users/{uid}"@, RouteKind::TerminateUser)
    } else if i == 14 {
        (HttpMethod::Get, "/api/v1/users/{uid}/status"@, RouteKind::UserStatus)
    } else if i == 15 {
        (HttpMethod::Post, "/api/v1/users/{uid}/linger"@, RouteKind::EnableLinger)
    } else if i == 16 {
        (HttpMethod::Delete, "/api/v1/users/{uid}/linger"@, RouteKind::DisableLinger)
    } else {
        (HttpMethod::Post, "/api/v1/users/{uid}/kill"@, RouteKind::KillUser)
    }
}

/// The API's routes, in the order of [`api_routes`].
pub fn routes() -> (r: Vec<Route>)
    ensures
        r@.len() == api_routes().len(),
        forall|i: int|
            0 <= i < r@.len() ==> r@[i].method == api_routes()[i].0 && r@[i].path@ == api_routes()[i].1
                && r@[i].kind == api_routes()[i].2,
{
    let r = vec![
        Route { method: HttpMethod::Get, path: "/healthz", kind: RouteKind::Healthz },
        Route { method: HttpMethod::Get, path: "/api/v1/sessions", kind: RouteKind::ListSessions },
        Route { method: HttpMethod::Post, path: "/api/v1/sessions/lock-all", kind: RouteKind::LockAllSessions },
        Route { method: HttpMethod::Post, path: "/api/v1/sessions/unlock-all", kind: RouteKind::UnlockAllSessions },
        Route { method: HttpMethod::Get, path: "/api/v1/sessions/{id}", kind: RouteKind::ShowSession },
        Route { method: HttpMethod::Delete, path: "/api/v1/sessions/{id}", kind: RouteKind::TerminateSession },
        Route { method: HttpMethod::Get, path: "/api/v1/sessions/{id}/status", kind: RouteKind::SessionStatus },
        Route { method: HttpMethod::Post, path: "/api/v1/sessions/{id}/activate", kind: RouteKind::ActivateSession },
        Route { method: HttpMethod::Post, path: "/api/v1/sessions/{id}/lock", kind: RouteKind::LockSession },
        Route { method: HttpMethod::Post, path: "/api/v1/sessions/{id}/unlock", kind: RouteKind::UnlockSession },
        Route { method: HttpMethod::Post, path: "/api/v1/sessions/{id}/kill", kind: RouteKind::KillSession },
        Route { method: HttpMethod::Get, path: "/api/v1/users", kind: RouteKind::ListUsers },
        Route { method: HttpMethod::Get, path: "/api/v1/users/{uid}", kind: RouteKind::ShowUser },
        Route { method: HttpMethod::Delete, path: "/api/v1/users/{uid}", kind: RouteKind::TerminateUser },
        Route { method: HttpMethod::Get, path: "/api/v1/users/{uid}/status", kind: RouteKind::UserStatus },
        Route { method: HttpMethod::Post, path: "/api/v1/users/{uid}/linger", kind: RouteKind::EnableLinger },
        Route { method: HttpMethod::Delete, path: "/api/v1/users/{uid}/linger", kind: RouteKind::DisableLinger },
        Route { method: HttpMethod::Post, path: "/api/v1/users/{uid}/kill", kind: RouteKind::KillUser },
    ];
    assert(r@ =~= r@);
    r
}

/// No method and path pair occurs twice in the route table, so each
/// request reaches at most one route.
pub proof fn routes_are_unambiguous()
    ensures
        forall|i: int, j: int|
            0 <= i < api_routes().len() && 0 <= j < api_routes().len() && i != j ==> !(
            api_routes()[i].0 == api_routes()[j].0 && api_routes()[i].1 == api_routes()[j].1),
{
    reveal_strlit("/healthz");
    reveal_strlit("/api/v1/sessions");
    reveal_strlit("/api/v1/sessions/lock-all");
    reveal_strlit("/api/v1/sessions/unlock-all");
    reveal_strlit("/api/v1/sessions/{id}");
    reveal_strlit("/api/v1/sessions/{id}/status");
    reveal_strlit("/api/v1/sessions/{id}/activate");
    reveal_strlit("/api/v1/sessions/{id}/lock");
    reveal_strlit("/api/v1/sessions/{id}/unlock");
    reveal_strlit("/api/v1/sessions/{id}/kill");
    reveal_strlit("/api/v1/users");
    reveal_strlit("/api/v1/users/{uid}");
    reveal_strlit("/api/v1/users/{uid}/status");
    reveal_strlit("/api/v1/users/{uid}/linger");
    reveal_strlit("/api/v1/users/{uid}/kill");
    assert("/api/v1/sessions/{id}/lock"@[22] != "/api/v1/sessions/{id}/kill"@[22]);
    assert("/api/v1/sessions/{id}/lock"@[8] != "/api/v1/users/{uid}/linger"@[8]);
    assert("/api/v1/sessions/{id}/kill"@[8] != "/api/v1/users/{uid}/linger"@[8]);
    assert forall|i: int, j: int|
        0 <= i < 18 && 0 <= j < 18 && i != j implies !(route_row(i).0 == route_row(j).0
            && route_row(i).1 == route_row(j).1) by {
        if route_row(i).0 == route_row(j).0 && route_row(i).1 == route_row(j).1 {
            assert(route_row(i).1.len() == route_row(j).1.len());
            assert(route_row(i).1[8] == route_row(j).1[8]);
            assert(route_row(i).1[22] == route_row(j).1[22]);
        }
    }
}

/// The request that a route serves, given what its path and body carry:
/// the session id for `{id}`, the user id for `{uid}`, and the kill request
/// body. None for the health check, which is no logind request, or when
/// something the route needs is missing.
pub open spec fn endpoint_spec(
    kind: RouteKind,
    id: Option<String>,
    uid: Option<u32>,
    body: Option<KillRequest>,
) -> Option<Endpoint> {
    match kind {
        RouteKind::Healthz => None,
        RouteKind::ListSessions => Some(Endpoint::ListSessions),
        RouteKind::LockAllSessions => Some(Endpoint::LockAllSessions),
        RouteKind::UnlockAllSessions => Some(Endpoint::UnlockAllSessions),
        RouteKind::ShowSession => match id {
            Some(i) => Some(Endpoint::ShowSession { id: i }),
            None => None,
        },
        RouteKind::TerminateSession => match id {
            Some(i) => Some(Endpoint::TerminateSession { id: i }),
            None => None,
        },
        RouteKind::SessionStatus => match id {
            Some(i) => Some(Endpoint::SessionStatus { id: i }),
            None => None,
        },
        RouteKind::ActivateSession => match id {
            Some(i) => Some(Endpoint::ActivateSession { id: i }),
            None => None,
        },
        RouteKind::LockSession => match id {
            Some(i) => Some(Endpoint::LockSession { id: i }),
            None => None,
        },
        RouteKind::UnlockSession => match id {
            Some(i) => Some(Endpoint::UnlockSession { id: i }),
            None => None,
        },
        RouteKind::KillSession => match (id, body) {
            (Some(i), Some(b)) => Some(Endpoint::KillSession { id: i, body: b }),
            _ => None,
        },
        RouteKind::ListUsers => Some(Endpoint::ListUsers),
        RouteKind::ShowUser => match uid {
            Some(u) => Some(Endpoint::ShowUser { uid: u }),
            None => None,
        },
        RouteKind::TerminateUser => match uid {
            Some(u) => Some(Endpoint::TerminateUser { uid: u }),
            None => None,
        },
        RouteKind::UserStatus => match uid {
            Some(u) => Some(Endpoint::UserStatus { uid: u }),
            None => None,
        },
        RouteKind::EnableLinger => match uid {
            Some(u) => Some(Endpoint::EnableLinger { uid: u }),
            None => None,
        },
        RouteKind::DisableLinger => match uid {
            Some(u) => Some(Endpoint::DisableLinger { uid: u }),
            None => None,
        },
        RouteKind::KillUser => match (uid, body) {
            (Some(u), Some(b)) => Some(Endpoint::KillUser { uid: u, body: b }),
            _ => None,
        },
    }
}

/// Builds the request that a route serves from what its path and body
/// carry (see [`endpoint_spec`]).
pub fn endpoint_for(
    kind: RouteKind,
    id: Option<String>,
    uid: Option<u32>,
    body: Option<KillRequest>,
) -> (r: Option<Endpoint>)
    ensures
        r == endpoint_spec(kind, id, uid, body),
{
    match kind {
        RouteKind::Healthz => None,
        RouteKind::ListSessions => Some(Endpoint::ListSessions),
        RouteKind::LockAllSessions => Some(Endpoint::LockAllSessions),
        RouteKind::UnlockAllSessions => Some(Endpoint::UnlockAllSessions),
        RouteKind::ShowSession => match id {
            Some(i) => Some(Endpoint::ShowSession { id: i }),
            None => None,
        },
        RouteKind::TerminateSession => match id {
            Some(i) => Some(Endpoint::TerminateSession { id: i }),
            None => None,
        },
        RouteKind::SessionStatus => match id {
            Some(i) => Some(Endpoint::SessionStatus { id: i }),
            None => None,
        },
        RouteKind::ActivateSession => match id {
            Some(i) => Some(Endpoint::ActivateSession { id: i }),
            None => None,
        },
        RouteKind::LockSession => match id {
            Some(i) => Some(Endpoint::LockSession { id: i }),
            None => None,
        },
        RouteKind::UnlockSession => match id {
            Some(i) => Some(Endpoint::UnlockSession { id: i }),
            None => None,
        },
        RouteKind::KillSession => match (id, body) {
            (Some(i), Some(b)) => Some(Endpoint::KillSession { id: i, body: b }),
            _ => None,
        },
        RouteKind::ListUsers => Some(Endpoint::ListUsers),
        RouteKind::ShowUser => match uid {
            Some(u) => Some(Endpoint::ShowUser { uid: u }),
            None => None,
        },
        RouteKind::TerminateUser => match uid {
            Some(u) => Some(Endpoint::TerminateUser { uid: u }),
            None => None,
        },
        RouteKind::UserStatus => match uid {
            Some(u) => Some(Endpoint::UserStatus { uid: u }),
            None => None,
        },
        RouteKind::EnableLinger => match uid {
            Some(u) => Some(Endpoint::EnableLinger { uid: u }),
            None => None,
        },
        RouteKind::DisableLinger => match uid {
            Some(u) => Some(Endpoint::DisableLinger { uid: u }),
            None => None,
        },
        RouteKind::KillUser => match (uid, body) {
            (Some(u), Some(b)) => Some(Endpoint::KillUser { uid: u, body: b }),
            _ => None,
        },
    }
}

/// Every route reached with a `GET` only reads, and every route reached
/// with `POST` or `DELETE` mutates: so, by [`success_status_by_method`], a
/// served `GET` is answered 200 and a served `POST` or `DELETE` 204.
pub proof fn route_methods_match_reads(
    i: int,
    id: Option<String>,
    uid: Option<u32>,
    body: Option<KillRequest>,
)
    requires
        0 <= i < api_routes().len(),
        endpoint_spec(api_routes()[i].2, id, uid, body) is Some,
    ensures
        (api_routes()[i].0 == HttpMethod::Get) == is_read_request(
            endpoint_spec(api_routes()[i].2, id, uid, body)->0,
        ),
{
}

/// Every route but the health check serves a logind request once its path
/// parameters and body are there.
pub proof fn routes_serve_requests(i: int, id: String, uid: u32, body: KillRequest)
    requires
        0 <= i < api_routes().len(),
        api_routes()[i].2 != RouteKind::Healthz,
    ensures
        endpoint_spec(api_routes()[i].2, Some(id), Some(uid), Some(body)) is Some,
{
}

/// Each route kind builds the request of the same name, carrying the
/// session id, user id and body it was given: the lock-all route builds
/// `LockAllSessions`, the linger `POST` builds `EnableLinger`, the linger
/// `DELETE` builds `DisableLinger`, and so on. The health check builds none.
pub proof fn route_kinds_build_their_namesake(id: String, uid: u32, body: KillRequest)
    ensures
        endpoint_spec(RouteKind::Healthz, Some(id), Some(uid), Some(body)) is None,
        endpoint_spec(RouteKind::ListSessions, Some(id), Some(uid), Some(body)) == Some(
            Endpoint::ListSessions,
        ),
        endpoint_spec(RouteKind::LockAllSessions, Some(id), Some(uid), Some(body)) == Some(
            Endpoint::LockAllSessions,
        ),
        endpoint_spec(RouteKind::UnlockAllSessions, Some(id), Some(uid), Some(body)) == Some(
            Endpoint::UnlockAllSessions,
        ),
        endpoint_spec(RouteKind::ShowSession, Some(id), Some(uid), Some(body)) == Some(
            Endpoint::ShowSession { id },
        ),
        endpoint_spec(RouteKind::TerminateSession, Some(id), Some(uid), Some(body)) == Some(
            Endpoint::TerminateSession { id },
        ),
        endpoint_spec(RouteKind::SessionStatus, Some(id), Some(uid), Some(body)) == Some(
            Endpoint::SessionStatus { id },
        ),
        endpoint_spec(RouteKind::ActivateSession, Some(id), Some(uid), Some(body)) == Some(
            Endpoint::ActivateSession { id },
        ),
        endpoint_spec(RouteKind::LockSession, Some(id), Some(uid), Some(body)) == Some(
            Endpoint::LockSession { id },
        ),
        endpoint_spec(RouteKind::UnlockSession, Some(id), Some(uid), Some(body)) == Some(
            Endpoint::UnlockSession { id },
        ),
        endpoint_spec(RouteKind::KillSession, Some(id), Some(uid), Some(body)) == Some(
            Endpoint::KillSession { id, body },
        ),
        endpoint_spec(RouteKind::ListUsers, Some(id), Some(uid), Some(body)) == Some(
            Endpoint::ListUsers,
        ),
        endpoint_spec(RouteKind::ShowUser, Some(id), Some(uid), Some(body)) == Some(
            Endpoint::ShowUser { uid },
        ),
        endpoint_spec(RouteKind::TerminateUser, Some(id), Some(uid), Some(body)) == Some(
            Endpoint::TerminateUser { uid },
        ),
        endpoint_spec(RouteKind::UserStatus, Some(id), Some(uid), Some(body)) == Some(
            Endpoint::UserStatus { uid },
        ),
        endpoint_spec(RouteKind::EnableLinger, Some(id), Some(uid), Some(body)) == Some(
            Endpoint::EnableLinger { uid },
        ),
        endpoint_spec(RouteKind::DisableLinger, Some(id), Some(uid), Some(body)) == Some(
            Endpoint::DisableLinger { uid },
        ),
        endpoint_spec(RouteKind::KillUser, Some(id), Some(uid), Some(body)) == Some(
            Endpoint::KillUser { uid, body },
        ),
{
}

/// What each route asks of logind over D-Bus, from the route to the
/// method call: lock-all calls `LockSessions` on the manager, the linger
/// `POST` calls `SetUserLinger(uid, true, false)` and its `DELETE`
/// `SetUserLinger(uid, false, false)`, showing a user reads all properties
/// of the `org.freedesktop.login1.User` interface of that user's object,
/// and so on for every route.
pub proof fn routes_reach_their_dbus_calls(
    kind: RouteKind,
    id: String,
    uid: u32,
    body: KillRequest,
    c: LogindCall,
    b: BusCall,
)
    requires
        endpoint_spec(kind, Some(id), Some(uid), Some(body)) is Some,
        plans_to(endpoint_spec(kind, Some(id), Some(uid), Some(body))->0, c),
        is_bus_call_for(c, b),
    ensures
        kind == RouteKind::ListSessions ==> on_manager(b, "ListSessions"@) && b.args is Unit,
        kind == RouteKind::LockAllSessions ==> on_manager(b, "LockSessions"@) && b.args is Unit,
        kind == RouteKind::UnlockAllSessions ==> on_manager(b, "UnlockSessions"@) && b.args is Unit,
        kind == RouteKind::ShowSession ==> on_session(b, id@, PROPERTIES_IFACE@, "GetAll"@)
            && text_arg(b, SESSION_IFACE@),
        kind == RouteKind::SessionStatus ==> on_session(b, id@, PROPERTIES_IFACE@, "GetAll"@)
            && text_arg(b, SESSION_IFACE@),
        kind == RouteKind::TerminateSession ==> on_manager(b, "TerminateSession"@) && text_arg(
            b,
            id@,
        ),
        kind == RouteKind::ActivateSession ==> on_session(b, id@, SESSION_IFACE@, "Activate"@)
            && b.args is Unit,
        kind == RouteKind::LockSession ==> on_session(b, id@, SESSION_IFACE@, "Lock"@) && b.args is Unit,
        kind == RouteKind::UnlockSession ==> on_session(b, id@, SESSION_IFACE@, "Unlock"@)
            && b.args is Unit,
        kind == RouteKind::KillSession ==> on_session(b, id@, SESSION_IFACE@, "Kill"@) && (b.args matches BusArgs::SessionKill(
            w,
            n,
        ) && w@ == kill_target(body@) && kill_signal(body@) == Some(n)),
        kind == RouteKind::ListUsers ==> on_manager(b, "ListUsers"@) && b.args is Unit,
        kind == RouteKind::ShowUser ==> on_user(b, uid, PROPERTIES_IFACE@, "GetAll"@) && text_arg(
            b,
            USER_IFACE@,
        ),
        kind == RouteKind::UserStatus ==> on_user(b, uid, PROPERTIES_IFACE@, "GetAll"@) && text_arg(
            b,
            USER_IFACE@,
        ),
        kind == RouteKind::TerminateUser ==> on_manager(b, "TerminateUser"@) && b.args
            == BusArgs::Uid(uid),
        kind == RouteKind::EnableLinger ==> on_manager(b, "SetUserLinger"@) && b.args
            == BusArgs::Linger(uid, true, false),
        kind == RouteKind::DisableLinger ==> on_manager(b, "SetUserLinger"@) && b.args
            == BusArgs::Linger(uid, false, false),
        kind == RouteKind::KillUser ==> on_manager(b, "KillUser"@) && (b.args matches BusArgs::UserKill(
            u,
            n,
        ) && u == uid && kill_signal(body@) == Some(n)),
{
}

/// Each request is served by the logind operation of the same name, on the
/// same session or user: lock-all by `LockSessions`, show-session by
/// `ShowSession` (not by the status operation), enable-linger by
/// `EnableLinger`, and so on.
pub proof fn requests_plan_their_namesake(request: Endpoint, c: LogindCall)
    requires
        plans_to(request, c),
    ensures
        request is ListSessions ==> c is ListSessions,
        request is LockAllSessions ==> c is LockSessions,
        request is UnlockAllSessions ==> c is UnlockSessions,
        request is ListUsers ==> c is ListUsers,
        request is ShowSession ==> c is ShowSession && c->ShowSession_id@ == request->ShowSession_id@,
        request is SessionStatus ==> c is SessionStatus && c->SessionStatus_id@ == request->SessionStatus_id@,
        request is ActivateSession ==> c is ActivateSession && c->ActivateSession_id@ == request->ActivateSession_id@,
        request is LockSession ==> c is LockSession && c->LockSession_id@ == request->LockSession_id@,
        request is UnlockSession ==> c is UnlockSession && c->UnlockSession_id@ == request->UnlockSession_id@,
        request is TerminateSession ==> c is TerminateSession && c->TerminateSession_id@ == request->TerminateSession_id@,
        request is ShowUser ==> c is ShowUser && c->ShowUser_uid == request->ShowUser_uid,
        request is UserStatus ==> c is UserStatus && c->UserStatus_uid == request->UserStatus_uid,
        request is EnableLinger ==> c is EnableLinger && c->EnableLinger_uid == request->EnableLinger_uid,
        request is DisableLinger ==> c is DisableLinger && c->DisableLinger_uid == request->DisableLinger_uid,
        request is TerminateUser ==> c is TerminateUser && c->TerminateUser_uid == request->TerminateUser_uid,
        request is KillSession ==> c is KillSession && c->KillSession_id@ == request->KillSession_id@,
        request is KillUser ==> c is KillUser && c->KillUser_uid == request->KillUser_uid,
{
}

} // verus!
