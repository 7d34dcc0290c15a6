use vstd::prelude::*;
use vstd::string::*;

use crate::error::{AppError, AppErrorView};
use crate::logind::call::LogindCall;
use crate::text::{decimal, joined, push_decimal};

verus! {

/// The well-known bus name of systemd-logind.
pub const LOGIND_BUS: &'static str = "org.freedesktop.login1";

/// The object path of the logind manager.
pub const LOGIND_PATH: &'static str = "/org/freedesktop/login1";

/// The manager interface.
pub const MANAGER_IFACE: &'static str = "org.freedesktop.login1.Manager";

/// The interface of a session object.
pub const SESSION_IFACE: &'static str = "org.freedesktop.login1.Session";

/// The interface of a user object.
pub const USER_IFACE: &'static str = "org.freedesktop.login1.User";

/// The standard properties interface.
pub const PROPERTIES_IFACE: &'static str = "org.freedesktop.DBus.Properties";

/// The logind object a D-Bus call is made on.
#[derive(Debug)]
pub enum BusObject {
    /// The manager, at its well-known path.
    Manager,
    /// The session with this id, whose path the manager's `GetSession` gives.
    Session(String),
    /// The user with this uid, whose path the manager's `GetUser` gives.
    User(u32),
}

/// The arguments of a D-Bus method call.
#[derive(Debug)]
pub enum BusArgs {
    Unit,
    Text(String),
    Uid(u32),
    /// `(uid, enable, interactive)` of `SetUserLinger`.
    Linger(u32, bool, bool),
    /// `(who, signal)` of a session's `Kill`.
    SessionKill(String, i32),
    /// `(uid, signal)` of the manager's `KillUser`.
    UserKill(u32, i32),
}

/// A D-Bus method call on a logind object.
#[derive(Debug)]
pub struct BusCall {
    pub object: BusObject,
    pub interface: String,
    pub method: String,
    pub args: BusArgs,
}

pub open spec fn on_manager(b: BusCall, method: Seq<char>) -> bool {
    &&& b.object is Manager
    &&& b.interface@ == MANAGER_IFACE@
    &&& b.method@ == method
}

pub open spec fn on_session(b: BusCall, id: Seq<char>, interface: Seq<char>, method: Seq<char>) -> bool {
    &&& b.object matches BusObject::Session(s) && s@ == id
    &&& b.interface@ == interface
    &&& b.method@ == method
}

pub open spec fn on_user(b: BusCall, uid: u32, interface: Seq<char>, method: Seq<char>) -> bool {
    &&& b.object == BusObject::User(uid)
    &&& b.interface@ == interface
    &&& b.method@ == method
}

pub open spec fn text_arg(b: BusCall, t: Seq<char>) -> bool {
    b.args matches BusArgs::Text(s) && s@ == t
}

/// The D-Bus call that carries out a logind operation.
pub open spec fn is_bus_call_for(c: LogindCall, b: BusCall) -> bool {
    match c {
        LogindCall::ListSessions => on_manager(b, "ListSessions"@) && b.args is Unit,
        LogindCall::SessionStatus { id } => on_session(b, id@, PROPERTIES_IFACE@, "GetAll"@)
            && text_arg(b, SESSION_IFACE@),
        LogindCall::ShowSession { id } => on_session(b, id@, PROPERTIES_IFACE@, "GetAll"@)
            && text_arg(b, SESSION_IFACE@),
        LogindCall::ActivateSession { id } => on_session(b, id@, SESSION_IFACE@, "Activate"@)
            && b.args is Unit,
        LogindCall::LockSession { id } => on_session(b, id@, SESSION_IFACE@, "Lock"@)
            && b.args is Unit,
        LogindCall::UnlockSession { id } => on_session(b, id@, SESSION_IFACE@, "Unlock"@)
            && b.args is Unit,
        LogindCall::LockSessions => on_manager(b, "LockSessions"@) && b.args is Unit,
        LogindCall::UnlockSessions => on_manager(b, "UnlockSessions"@) && b.args is Unit,
        LogindCall::TerminateSession { id } => on_manager(b, "TerminateSession"@) && text_arg(
            b,
            id@,
        ),
        LogindCall::KillSession { id, who, signal } => on_session(
            b,
            id@,
            SESSION_IFACE@,
            "Kill"@,
        ) && (b.args matches BusArgs::SessionKill(w, n) && w@ == who@ && n == signal),
        LogindCall::ListUsers => on_manager(b, "ListUsers"@) && b.args is Unit,
        LogindCall::UserStatus { uid } => on_user(b, uid, PROPERTIES_IFACE@, "GetAll"@)
            && text_arg(b, USER_IFACE@),
        LogindCall::ShowUser { uid } => on_user(b, uid, PROPERTIES_IFACE@, "GetAll"@) && text_arg(
            b,
            USER_IFACE@,
        ),
        LogindCall::EnableLinger { uid } => on_manager(b, "SetUserLinger"@) && b.args
            == BusArgs::Linger(uid, true, false),
        LogindCall::DisableLinger { uid } => on_manager(b, "SetUserLinger"@) && b.args
            == BusArgs::Linger(uid, false, false),
        LogindCall::TerminateUser { uid } => on_manager(b, "TerminateUser"@) && b.args
            == BusArgs::Uid(uid),
        LogindCall::KillUser { uid, signal } => on_manager(b, "KillUser"@) && b.args
            == BusArgs::UserKill(uid, signal),
    }
}

fn manager_call(method: &str, args: BusArgs) -> (b: BusCall)
    ensures
        on_manager(b, method@),
        b.args == args,
{
    BusCall {
        object: BusObject::Manager,
        interface: String::from_str(MANAGER_IFACE),
        method: String::from_str(method),
        args,
    }
}

fn object_call(object: BusObject, interface: &str, method: &str, args: BusArgs) -> (b: BusCall)
    ensures
        b.object == object,
        b.interface@ == interface@,
        b.method@ == method@,
        b.args == args,
{
    BusCall { object, interface: String::from_str(interface), method: String::from_str(method), args }
}

/// The D-Bus call that carries out `call`: which object, interface, method
/// and arguments (`enable-linger` is `SetUserLinger(uid, true, false)` on the
/// manager, `lock-session ID` is `Lock()` on the session's object, and so on).
pub fn bus_call(call: &LogindCall) -> (b: BusCall)
    ensures
        is_bus_call_for(*call, b),
{
    match call {
        LogindCall::ListSessions => manager_call("ListSessions", BusArgs::Unit),
        LogindCall::SessionStatus { id } => object_call(
            BusObject::Session(id.clone()),
            PROPERTIES_IFACE,
            "GetAll",
            BusArgs::Text(String::from_str(SESSION_IFACE)),
        ),
        LogindCall::ShowSession { id } => object_call(
            BusObject::Session(id.clone()),
            PROPERTIES_IFACE,
            "GetAll",
            BusArgs::Text(String::from_str(SESSION_IFACE)),
        ),
        LogindCall::ActivateSession { id } => object_call(
            BusObject::Session(id.clone()),
            SESSION_IFACE,
            "Activate",
            BusArgs::Unit,
        ),
        LogindCall::LockSession { id } => object_call(
            BusObject::Session(id.clone()),
            SESSION_IFACE,
            "Lock",
            BusArgs::Unit,
        ),
        LogindCall::UnlockSession { id } => object_call(
            BusObject::Session(id.clone()),
            SESSION_IFACE,
            "Unlock",
            BusArgs::Unit,
        ),
        LogindCall::LockSessions => manager_call("LockSessions", BusArgs::Unit),
        LogindCall::UnlockSessions => manager_call("UnlockSessions", BusArgs::Unit),
        LogindCall::TerminateSession { id } => manager_call(
            "TerminateSession",
            BusArgs::Text(id.clone()),
        ),
        LogindCall::KillSession { id, who, signal } => object_call(
            BusObject::Session(id.clone()),
            SESSION_IFACE,
            "Kill",
            BusArgs::SessionKill(who.clone(), *signal),
        ),
        LogindCall::ListUsers => manager_call("ListUsers", BusArgs::Unit),
        LogindCall::UserStatus { uid } => object_call(
            BusObject::User(*uid),
            PROPERTIES_IFACE,
            "GetAll",
            BusArgs::Text(String::from_str(USER_IFACE)),
        ),
        LogindCall::ShowUser { uid } => object_call(
            BusObject::User(*uid),
            PROPERTIES_IFACE,
            "GetAll",
            BusArgs::Text(String::from_str(USER_IFACE)),
        ),
        LogindCall::EnableLinger { uid } => manager_call(
            "SetUserLinger",
            BusArgs::Linger(*uid, true, false),
        ),
        LogindCall::DisableLinger { uid } => manager_call(
            "SetUserLinger",
            BusArgs::Linger(*uid, false, false),
        ),
        LogindCall::TerminateUser { uid } => manager_call("TerminateUser", BusArgs::Uid(*uid)),
        LogindCall::KillUser { uid, signal } => manager_call(
            "KillUser",
            BusArgs::UserKill(*uid, *signal),
        ),
    }
}

/// The manager call that finds the path of `object`: `GetSession(id)` for
/// a session, `GetUser(uid)` for a user, none for the manager itself.
pub fn lookup_call(object: &BusObject) -> (r: Option<BusCall>)
    ensures
        match *object {
            BusObject::Manager => r is None,
            BusObject::Session(id) => r matches Some(b) && on_manager(b, "GetSession"@) && text_arg(
                b,
                id@,
            ),
            BusObject::User(uid) => r matches Some(b) && on_manager(b, "GetUser"@) && b.args
                == BusArgs::Uid(uid),
        },
{
    match object {
        BusObject::Manager => None,
        BusObject::Session(id) => Some(manager_call("GetSession", BusArgs::Text(id.clone()))),
        BusObject::User(uid) => Some(manager_call("GetUser", BusArgs::Uid(*uid))),
    }
}

/// A step of carrying out a logind operation over D-Bus; a failure is
/// reported by the step it happened at.
#[derive(Debug, Clone, Copy, PartialEq, Eq)]
pub enum BusStep {
    /// Creating the proxy for the manager.
    ManagerProxy,
    /// Asking the manager for the object path of the session or user.
    Lookup,
    /// Creating the proxy for the session or user object.
    ObjectProxy,
    /// The method call itself.
    Invoke,
}

/// The session that an operation looks up before calling it, if any.
pub open spec fn looked_up_session(c: LogindCall) -> Option<Seq<char>> {
    match c {
        LogindCall::SessionStatus { id } => Some(id@),
        LogindCall::ShowSession { id } => Some(id@),
        LogindCall::ActivateSession { id } => Some(id@),
        LogindCall::LockSession { id } => Some(id@),
        LogindCall::UnlockSession { id } => Some(id@),
        LogindCall::KillSession { id, .. } => Some(id@),
        _ => None,
    }
}

/// The user that an operation looks up before calling it, if any.
pub open spec fn looked_up_user(c: LogindCall) -> Option<u32> {
    match c {
        LogindCall::UserStatus { uid } => Some(uid),
        LogindCall::ShowUser { uid } => Some(uid),
        _ => None,
    }
}

/// The text that a failed method call's message starts with; the D-Bus
/// error's own text follows it.
pub open spec fn invoke_failure_prefix(c: LogindCall) -> Seq<char> {
    match c {
        LogindCall::ListSessions => "ListSessions failed: "@,
        LogindCall::SessionStatus { .. } => "GetAll("@ + SESSION_IFACE@ + ") failed: "@,
        LogindCall::ShowSession { .. } => "GetAll("@ + SESSION_IFACE@ + ") failed: "@,
        LogindCall::ActivateSession { id } => "Activate session '"@ + id@ + "' failed: "@,
        LogindCall::LockSession { id } => "Lock session '"@ + id@ + "' failed: "@,
        LogindCall::UnlockSession { id } => "Unlock session '"@ + id@ + "' failed: "@,
        LogindCall::LockSessions => "LockSessions failed: "@,
        LogindCall::UnlockSessions => "UnlockSessions failed: "@,
        LogindCall::TerminateSession { id } => "TerminateSession '"@ + id@ + "' failed: "@,
        LogindCall::KillSession { id, .. } => "Kill session '"@ + id@ + "' failed: "@,
        LogindCall::ListUsers => "ListUsers failed: "@,
        LogindCall::UserStatus { .. } => "GetAll("@ + USER_IFACE@ + ") failed: "@,
        LogindCall::ShowUser { .. } => "GetAll("@ + USER_IFACE@ + ") failed: "@,
        LogindCall::EnableLinger { uid } => "EnableLinger for user "@ + decimal(uid as nat)
            + " failed: "@,
        LogindCall::DisableLinger { uid } => "DisableLinger for user "@ + decimal(uid as nat)
            + " failed: "@,
        LogindCall::TerminateUser { uid } => "TerminateUser "@ + decimal(uid as nat)
            + " failed: "@,
        LogindCall::KillUser { uid, .. } => "KillUser "@ + decimal(uid as nat) + " failed: "@,
    }
}

/// The interface of the object proxy that an operation calls through.
pub open spec fn proxy_interface(c: LogindCall) -> Seq<char> {
    match c {
        LogindCall::SessionStatus { .. } => PROPERTIES_IFACE@,
        LogindCall::ShowSession { .. } => PROPERTIES_IFACE@,
        LogindCall::UserStatus { .. } => PROPERTIES_IFACE@,
        LogindCall::ShowUser { .. } => PROPERTIES_IFACE@,
        LogindCall::ActivateSession { .. } => SESSION_IFACE@,
        LogindCall::LockSession { .. } => SESSION_IFACE@,
        LogindCall::UnlockSession { .. } => SESSION_IFACE@,
        LogindCall::KillSession { .. } => SESSION_IFACE@,
        _ => MANAGER_IFACE@,
    }
}

/// The error an operation ends in when D-Bus fails at `stage` with the
/// error text `detail`. A failed lookup means the session or user does not
/// exist (`NotFound`); every other failure is a D-Bus failure (`Dbus`).
pub open spec fn failure_of(c: LogindCall, stage: BusStep, detail: Seq<char>) -> AppErrorView {
    match stage {
        BusStep::ManagerProxy => AppErrorView::Dbus(
            "failed to create manager proxy: "@ + detail,
        ),
        BusStep::ObjectProxy => AppErrorView::Dbus(
            "failed to create proxy for "@ + proxy_interface(c) + ": "@ + detail,
        ),
        BusStep::Lookup => match looked_up_session(c) {
            Some(id) => AppErrorView::NotFound("session '"@ + id + "' not found: "@ + detail),
            None => match looked_up_user(c) {
                Some(uid) => AppErrorView::NotFound(
                    "user "@ + decimal(uid as nat) + " not found: "@ + detail,
                ),
                None => AppErrorView::Dbus(invoke_failure_prefix(c) + detail),
            },
        },
        BusStep::Invoke => AppErrorView::Dbus(invoke_failure_prefix(c) + detail),
    }
}

fn text4(a: &str, b: &str, c: &str, d: &str) -> (r: String)
    ensures
        r@ == a@ + b@ + c@ + d@,
{
    let mut s = String::from_str(a);
    s.append(b);
    s.append(c);
    s.append(d);
    s
}

fn uid_text(a: &str, uid: u32, c: &str, d: &str) -> (r: String)
    ensures
        r@ == a@ + decimal(uid as nat) + c@ + d@,
{
    let mut s = String::from_str(a);
    push_decimal(&mut s, uid as u64);
    s.append(c);
    s.append(d);
    s
}

fn invoke_failure(call: &LogindCall, detail: &str) -> (r: String)
    ensures
        r@ == invoke_failure_prefix(*call) + detail@,
{
    match call {
        LogindCall::ListSessions => joined("ListSessions failed: ", detail),
        LogindCall::SessionStatus { .. } => text4("GetAll(", SESSION_IFACE, ") failed: ", detail),
        LogindCall::ShowSession { .. } => text4("GetAll(", SESSION_IFACE, ") failed: ", detail),
        LogindCall::ActivateSession { id } => text4(
            "Activate session '",
            id.as_str(),
            "' failed: ",
            detail,
        ),
        LogindCall::LockSession { id } => text4("Lock session '", id.as_str(), "' failed: ", detail),
        LogindCall::UnlockSession { id } => text4(
            "Unlock session '",
            id.as_str(),
            "' failed: ",
            detail,
        ),
        LogindCall::LockSessions => joined("LockSessions failed: ", detail),
        LogindCall::UnlockSessions => joined("UnlockSessions failed: ", detail),
        LogindCall::TerminateSession { id } => text4(
            "TerminateSession '",
            id.as_str(),
            "' failed: ",
            detail,
        ),
        LogindCall::KillSession { id, .. } => text4(
            "Kill session '",
            id.as_str(),
            "' failed: ",
            detail,
        ),
        LogindCall::ListUsers => joined("ListUsers failed: ", detail),
        LogindCall::UserStatus { .. } => text4("GetAll(", USER_IFACE, ") failed: ", detail),
        LogindCall::ShowUser { .. } => text4("GetAll(", USER_IFACE, ") failed: ", detail),
        LogindCall::EnableLinger { uid } => uid_text(
            "EnableLinger for user ",
            *uid,
            " failed: ",
            detail,
        ),
        LogindCall::DisableLinger { uid } => uid_text(
            "DisableLinger for user ",
            *uid,
            " failed: ",
            detail,
        ),
        LogindCall::TerminateUser { uid } => uid_text("TerminateUser ", *uid, " failed: ", detail),
        LogindCall::KillUser { uid, .. } => uid_text("KillUser ", *uid, " failed: ", detail),
    }
}

/// The error for a D-Bus failure at `stage` of `call`, `detail` being the
/// D-Bus error's text.
pub fn call_failure(call: &LogindCall, stage: BusStep, detail: &str) -> (e: AppError)
    ensures
        e@ == failure_of(*call, stage, detail@),
{
    match stage {
        BusStep::ManagerProxy => AppError::Dbus(
            joined("failed to create manager proxy: ", detail),
        ),
        BusStep::ObjectProxy => {
            let interface = match call {
                LogindCall::SessionStatus { .. } => PROPERTIES_IFACE,
                LogindCall::ShowSession { .. } => PROPERTIES_IFACE,
                LogindCall::UserStatus { .. } => PROPERTIES_IFACE,
                LogindCall::ShowUser { .. } => PROPERTIES_IFACE,
                LogindCall::ActivateSession { .. } => SESSION_IFACE,
                LogindCall::LockSession { .. } => SESSION_IFACE,
                LogindCall::UnlockSession { .. } => SESSION_IFACE,
                LogindCall::KillSession { .. } => SESSION_IFACE,
                _ => MANAGER_IFACE,
            };
            AppError::Dbus(text4("failed to create proxy for ", interface, ": ", detail))
        },
        BusStep::Lookup => match call {
            LogindCall::SessionStatus { id } => AppError::NotFound(
                text4("session '", id.as_str(), "' not found: ", detail),
            ),
            LogindCall::ShowSession { id } => AppError::NotFound(
                text4("session '", id.as_str(), "' not found: ", detail),
            ),
            LogindCall::ActivateSession { id } => AppError::NotFound(
                text4("session '", id.as_str(), "' not found: ", detail),
            ),
            LogindCall::LockSession { id } => AppError::NotFound(
                text4("session '", id.as_str(), "' not found: ", detail),
            ),
            LogindCall::UnlockSession { id } => AppError::NotFound(
                text4("session '", id.as_str(), "' not found: ", detail),
            ),
            LogindCall::KillSession { id, .. } => AppError::NotFound(
                text4("session '", id.as_str(), "' not found: ", detail),
            ),
            LogindCall::UserStatus { uid } => AppError::NotFound(
                uid_text("user ", *uid, " not found: ", detail),
            ),
            LogindCall::ShowUser { uid } => AppError::NotFound(
                uid_text("user ", *uid, " not found: ", detail),
            ),
            _ => AppError::Dbus(invoke_failure(call, detail)),
        },
        BusStep::Invoke => AppError::Dbus(invoke_failure(call, detail)),
    }
}

/// The operations that look up a session or a user before calling D-Bus
/// are exactly those whose call is made on that session's or user's
/// object, and they look up that very object.
pub proof fn lookups_match_call_objects(c: LogindCall, b: BusCall)
    requires
        is_bus_call_for(c, b),
    ensures
        looked_up_session(c) is Some <==> b.object is Session,
        b.object matches BusObject::Session(id) ==> looked_up_session(c) == Some(id@),
        looked_up_user(c) is Some <==> b.object is User,
        b.object matches BusObject::User(uid) ==> looked_up_user(c) == Some(uid),
{
}

/// A failed lookup of a session or user is answered 404 Not Found; a D-Bus
/// failure at any other step is answered 502 Bad Gateway.
pub proof fn failure_statuses(c: LogindCall, stage: BusStep, detail: Seq<char>)
    ensures
        stage == BusStep::Lookup && (looked_up_session(c) is Some || looked_up_user(c) is Some)
            ==> failure_of(c, stage, detail).status() == 404,
        !(stage == BusStep::Lookup && (looked_up_session(c) is Some || looked_up_user(
            c,
        ) is Some)) ==> failure_of(c, stage, detail).status() == 502,
{
}

/// Enabling and disabling linger are the same manager call,
/// `SetUserLinger`, for the same user, and differ only in the flag.
pub proof fn linger_calls_differ_in_flag_only(uid: u32, enable: BusCall, disable: BusCall)
    requires
        is_bus_call_for(LogindCall::EnableLinger { uid }, enable),
        is_bus_call_for(LogindCall::DisableLinger { uid }, disable),
    ensures
        enable.object == disable.object,
        enable.interface@ == disable.interface@,
        enable.method@ == disable.method@,
        enable.args == BusArgs::Linger(uid, true, false),
        disable.args == BusArgs::Linger(uid, false, false),
{
}

/// Whether an operation looks up the path of a session or user object.
pub open spec fn looks_up(c: LogindCall) -> bool {
    looked_up_session(c) is Some || looked_up_user(c) is Some
}

/// The step that follows `s` in carrying out `c`: the manager proxy first,
/// then, for an operation on a session or user object, the lookup of its
/// path and the proxy for it; the method call last. The call is the final
/// step and is followed by itself.
pub open spec fn step_after(c: LogindCall, s: BusStep) -> BusStep {
    match s {
        BusStep::ManagerProxy => if looks_up(c) {
            BusStep::Lookup
        } else {
            BusStep::Invoke
        },
        BusStep::Lookup => BusStep::ObjectProxy,
        BusStep::ObjectProxy => BusStep::Invoke,
        BusStep::Invoke => BusStep::Invoke,
    }
}

/// The step that carrying out `call` starts with.
pub fn first_step() -> (s: BusStep)
    ensures
        s == BusStep::ManagerProxy,
{
    BusStep::ManagerProxy
}

/// The step that follows `step` in carrying out `call`.
pub fn next_step(call: &LogindCall, step: BusStep) -> (r: BusStep)
    ensures
        r == step_after(*call, step),
{
    match step {
        BusStep::ManagerProxy => {
            let looks_up = match call {
                LogindCall::SessionStatus { .. } => true,
                LogindCall::ShowSession { .. } => true,
                LogindCall::ActivateSession { .. } => true,
                LogindCall::LockSession { .. } => true,
                LogindCall::UnlockSession { .. } => true,
                LogindCall::KillSession { .. } => true,
                LogindCall::UserStatus { .. } => true,
                LogindCall::ShowUser { .. } => true,
                _ => false,
            };
            if looks_up {
                BusStep::Lookup
            } else {
                BusStep::Invoke
            }
        },
        BusStep::Lookup => BusStep::ObjectProxy,
        BusStep::ObjectProxy => BusStep::Invoke,
        BusStep::Invoke => BusStep::Invoke,
    }
}

/// Carrying out an operation reaches its method call in at most three
/// steps from the manager proxy: through the lookup and the object proxy
/// exactly when the operation is on a session or user object, and directly
/// otherwise. The object proxy is made only right after a lookup, so a
/// failed lookup stops the operation before any call on the object.
pub proof fn steps_in_order(c: LogindCall, s: BusStep)
    ensures
        looks_up(c) ==> step_after(c, BusStep::ManagerProxy) == BusStep::Lookup
            && step_after(c, BusStep::Lookup) == BusStep::ObjectProxy && step_after(
            c,
            BusStep::ObjectProxy,
        ) == BusStep::Invoke,
        !looks_up(c) ==> step_after(c, BusStep::ManagerProxy) == BusStep::Invoke,
        step_after(c, s) == BusStep::ObjectProxy ==> s == BusStep::Lookup,
        step_after(c, s) == BusStep::Lookup ==> s == BusStep::ManagerProxy && looks_up(c),
        step_after(c, s) != BusStep::ManagerProxy,
{
}

/// The operations whose steps include a lookup are exactly those that make
/// their call on a session or user object.
pub proof fn lookup_steps_match_call_objects(c: LogindCall, b: BusCall)
    requires
        is_bus_call_for(c, b),
    ensures
        looks_up(c) <==> !(b.object is Manager),
{
}

/// Reading all properties asks, on the properties interface, for the
/// interface of the object read: `org.freedesktop.login1.User` on a user's
/// object and `org.freedesktop.login1.Session` on a session's object.
pub proof fn property_reads_ask_for_the_object_interface(c: LogindCall, b: BusCall)
    requires
        is_bus_call_for(c, b),
        b.method@ == "GetAll"@,
    ensures
        b.interface@ == PROPERTIES_IFACE@,
        b.object is User ==> text_arg(b, USER_IFACE@),
        b.object is Session ==> text_arg(b, SESSION_IFACE@),
        !(b.object is Manager),
{
    reveal_strlit("GetAll");
    reveal_strlit("ListSessions");
    reveal_strlit("Activate");
    reveal_strlit("Lock");
    reveal_strlit("Unlock");
    reveal_strlit("LockSessions");
    reveal_strlit("UnlockSessions");
    reveal_strlit("TerminateSession");
    reveal_strlit("Kill");
    reveal_strlit("ListUsers");
    reveal_strlit("SetUserLinger");
    reveal_strlit("TerminateUser");
    reveal_strlit("KillUser");
    assert("GetAll"@[0] != "Unlock"@[0]);
}

/// Every failure's message ends with the text of the D-Bus error that
/// caused it.
pub proof fn failure_messages_end_with_the_error(c: LogindCall, stage: BusStep, detail: Seq<char>)
    ensures
        failure_of(c, stage, detail).message().len() >= detail.len(),
        failure_of(c, stage, detail).message().subrange(
            failure_of(c, stage, detail).message().len() - detail.len(),
            failure_of(c, stage, detail).message().len() as int,
        ) == detail,
{
    let m = failure_of(c, stage, detail).message();
    assert(m.subrange(m.len() - detail.len(), m.len() as int) =~= detail);
}

} // verus!
