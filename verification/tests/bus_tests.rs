use russessin::error::AppError;
use russessin::logind::bus::{
    bus_call, call_failure, first_step, lookup_call, next_step, BusArgs, BusObject, BusStep, MANAGER_IFACE,
    PROPERTIES_IFACE, SESSION_IFACE, USER_IFACE,
};
use russessin::logind::call::LogindCall;

fn id(s: &str) -> String {
    s.to_string()
}

#[test]
fn manager_calls() {
    let b = bus_call(&LogindCall::ListSessions);
    assert!(matches!(b.object, BusObject::Manager));
    assert_eq!(b.interface, MANAGER_IFACE);
    assert_eq!(b.method, "ListSessions");
    assert!(matches!(b.args, BusArgs::Unit));

    let b = bus_call(&LogindCall::TerminateSession { id: id("42") });
    assert_eq!(b.method, "TerminateSession");
    assert!(matches!(b.args, BusArgs::Text(ref s) if s == "42"));

    let b = bus_call(&LogindCall::EnableLinger { uid: 1000 });
    assert_eq!(b.method, "SetUserLinger");
    assert!(matches!(b.args, BusArgs::Linger(1000, true, false)));

    let b = bus_call(&LogindCall::DisableLinger { uid: 1000 });
    assert_eq!(b.method, "SetUserLinger");
    assert!(matches!(b.args, BusArgs::Linger(1000, false, false)));

    let b = bus_call(&LogindCall::KillUser { uid: 1000, signal: 9 });
    assert_eq!(b.method, "KillUser");
    assert!(matches!(b.args, BusArgs::UserKill(1000, 9)));

    let b = bus_call(&LogindCall::TerminateUser { uid: 5 });
    assert_eq!(b.method, "TerminateUser");
    assert!(matches!(b.args, BusArgs::Uid(5)));

    assert_eq!(bus_call(&LogindCall::LockSessions).method, "LockSessions");
    assert_eq!(bus_call(&LogindCall::UnlockSessions).method, "UnlockSessions");
    assert_eq!(bus_call(&LogindCall::ListUsers).method, "ListUsers");
}

#[test]
fn object_calls() {
    let b = bus_call(&LogindCall::KillSession { id: id("42"), who: id("leader"), signal: 15 });
    assert!(matches!(b.object, BusObject::Session(ref s) if s == "42"));
    assert_eq!(b.interface, SESSION_IFACE);
    assert_eq!(b.method, "Kill");
    assert!(matches!(b.args, BusArgs::SessionKill(ref w, 15) if w == "leader"));

    let b = bus_call(&LogindCall::LockSession { id: id("3") });
    assert_eq!(b.method, "Lock");
    assert_eq!(bus_call(&LogindCall::UnlockSession { id: id("3") }).method, "Unlock");
    assert_eq!(bus_call(&LogindCall::ActivateSession { id: id("3") }).method, "Activate");

    let b = bus_call(&LogindCall::ShowSession { id: id("42") });
    assert_eq!(b.interface, PROPERTIES_IFACE);
    assert_eq!(b.method, "GetAll");
    assert!(matches!(b.args, BusArgs::Text(ref s) if s == SESSION_IFACE));

    let b = bus_call(&LogindCall::UserStatus { uid: 1000 });
    assert!(matches!(b.object, BusObject::User(1000)));
    assert!(matches!(b.args, BusArgs::Text(ref s) if s == USER_IFACE));
}

#[test]
fn lookups() {
    assert!(lookup_call(&BusObject::Manager).is_none());
    let l = lookup_call(&BusObject::Session(id("42"))).unwrap();
    assert_eq!(l.method, "GetSession");
    assert!(matches!(l.args, BusArgs::Text(ref s) if s == "42"));
    let l = lookup_call(&BusObject::User(1000)).unwrap();
    assert_eq!(l.method, "GetUser");
    assert!(matches!(l.args, BusArgs::Uid(1000)));
}

fn dbus(e: AppError) -> String {
    match e {
        AppError::Dbus(m) => m,
        other => panic!("expected Dbus, got {:?}", other),
    }
}

fn not_found(e: AppError) -> String {
    match e {
        AppError::NotFound(m) => m,
        other => panic!("expected NotFound, got {:?}", other),
    }
}

#[test]
fn lookup_failures_are_not_found() {
    let e = call_failure(&LogindCall::ShowSession { id: id("999") }, BusStep::Lookup, "nope");
    assert_eq!(not_found(e), "session '999' not found: nope");
    let e = call_failure(&LogindCall::ShowUser { uid: 99999 }, BusStep::Lookup, "nope");
    assert_eq!(not_found(e), "user 99999 not found: nope");
}

#[test]
fn other_failures_are_dbus_errors() {
    let c = LogindCall::LockSession { id: id("42") };
    assert_eq!(dbus(call_failure(&c, BusStep::Invoke, "x")), "Lock session '42' failed: x");
    assert_eq!(
        dbus(call_failure(&c, BusStep::ObjectProxy, "x")),
        "failed to create proxy for org.freedesktop.login1.Session: x"
    );
    assert_eq!(
        dbus(call_failure(&c, BusStep::ManagerProxy, "x")),
        "failed to create manager proxy: x"
    );
    assert_eq!(
        dbus(call_failure(&LogindCall::ListSessions, BusStep::Invoke, "connection refused")),
        "ListSessions failed: connection refused"
    );
    assert_eq!(
        dbus(call_failure(&LogindCall::EnableLinger { uid: 1000 }, BusStep::Invoke, "e")),
        "EnableLinger for user 1000 failed: e"
    );
    assert_eq!(
        dbus(call_failure(&LogindCall::KillUser { uid: 7, signal: 9 }, BusStep::Invoke, "e")),
        "KillUser 7 failed: e"
    );
    assert_eq!(
        dbus(call_failure(&LogindCall::SessionStatus { id: id("1") }, BusStep::Invoke, "e")),
        "GetAll(org.freedesktop.login1.Session) failed: e"
    );
    assert_eq!(
        dbus(call_failure(
            &LogindCall::ShowUser { uid: 1 },
            BusStep::ObjectProxy,
            "e"
        )),
        "failed to create proxy for org.freedesktop.DBus.Properties: e"
    );
}

fn steps(call: &LogindCall) -> Vec<BusStep> {
    let mut out = vec![first_step()];
    while *out.last().unwrap() != BusStep::Invoke {
        let next = next_step(call, *out.last().unwrap());
        out.push(next);
    }
    out
}

#[test]
fn steps_follow_the_lookup_order() {
    assert_eq!(
        steps(&LogindCall::LockSession { id: id("42") }),
        vec![BusStep::ManagerProxy, BusStep::Lookup, BusStep::ObjectProxy, BusStep::Invoke]
    );
    assert_eq!(
        steps(&LogindCall::ShowUser { uid: 1000 }),
        vec![BusStep::ManagerProxy, BusStep::Lookup, BusStep::ObjectProxy, BusStep::Invoke]
    );
    assert_eq!(steps(&LogindCall::ListSessions), vec![BusStep::ManagerProxy, BusStep::Invoke]);
    assert_eq!(
        steps(&LogindCall::TerminateSession { id: id("42") }),
        vec![BusStep::ManagerProxy, BusStep::Invoke]
    );
    assert_eq!(next_step(&LogindCall::ListUsers, BusStep::Invoke), BusStep::Invoke);
}
