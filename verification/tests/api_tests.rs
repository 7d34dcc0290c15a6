use russessin::api::{plan, reject, respond, Endpoint, HttpReply, LogindReply, ReplyBody};
use russessin::error::AppError;
use russessin::logind::call::LogindCall;
use russessin::logind::types::{
    KillRequest, SessionInfo, SessionProperties, SessionStatus, UserInfo, UserProperties,
    UserStatus,
};

fn sample_session_info() -> SessionInfo {
    SessionInfo {
        id: "42".to_string(),
        uid: 1000,
        user: "testuser".to_string(),
        seat: "seat0".to_string(),
        path: "/org/freedesktop/login1/session/_342".to_string(),
    }
}

fn sample_session_properties() -> SessionProperties {
    SessionProperties {
        id: "42".to_string(),
        uid: 1000,
        user: "testuser".to_string(),
        seat: "seat0".to_string(),
        session_type: "x11".to_string(),
        class: "user".to_string(),
        active: true,
        state: "active".to_string(),
        remote: false,
        remote_host: String::new(),
        remote_user: String::new(),
        service: "gdm-password".to_string(),
        desktop: "gnome".to_string(),
        scope: "session-42.scope".to_string(),
        leader: 1234,
        audit: 42,
        vt_nr: 2,
        tty: String::new(),
        display: ":1".to_string(),
        timestamp: 1700000000,
    }
}

fn sample_user_info() -> UserInfo {
    UserInfo {
        uid: 1000,
        name: "testuser".to_string(),
        path: "/org/freedesktop/login1/user/_31000".to_string(),
    }
}

fn sample_user_properties() -> UserProperties {
    UserProperties {
        uid: 1000,
        name: "testuser".to_string(),
        state: "active".to_string(),
        linger: false,
        runtime_path: "/run/user/1000".to_string(),
        service: "user@1000.service".to_string(),
        slice: "user-1000.slice".to_string(),
        display: "42".to_string(),
        timestamp: 1700000000,
        sessions: vec!["42".to_string()],
    }
}

fn kill_body(signal: &str, who: Option<&str>) -> KillRequest {
    KillRequest { signal: signal.to_string(), who: who.map(|w| w.to_string()) }
}

fn planned(request: Endpoint) -> LogindCall {
    plan(request).expect("request should be planned")
}

fn assert_no_content(call: &LogindCall) {
    let reply = respond(call, Ok(LogindReply::Done));
    assert_eq!(reply.status, 204);
    assert!(matches!(reply.body, ReplyBody::Empty));
}

fn data(reply: HttpReply) -> LogindReply {
    assert_eq!(reply.status, 200);
    match reply.body {
        ReplyBody::Data(d) => d,
        other => panic!("expected data, got {:?}", other),
    }
}

#[test]
fn test_list_sessions() {
    let call = planned(Endpoint::ListSessions);
    assert!(matches!(call, LogindCall::ListSessions));
    match data(respond(&call, Ok(LogindReply::Sessions(vec![sample_session_info()])))) {
        LogindReply::Sessions(sessions) => {
            assert_eq!(sessions.len(), 1);
            assert_eq!(sessions[0].id, "42");
        },
        other => panic!("unexpected {:?}", other),
    }
}

#[test]
fn test_show_session() {
    let call = planned(Endpoint::ShowSession { id: "42".to_string() });
    assert!(matches!(&call, LogindCall::ShowSession { id } if id == "42"));
    match data(respond(&call, Ok(LogindReply::Session(sample_session_properties())))) {
        LogindReply::Session(props) => {
            assert_eq!(props.id, "42");
            assert!(props.active);
        },
        other => panic!("unexpected {:?}", other),
    }
}

#[test]
fn test_session_status() {
    let call = planned(Endpoint::SessionStatus { id: "42".to_string() });
    assert!(matches!(&call, LogindCall::SessionStatus { id } if id == "42"));
    let status = SessionStatus { id: "42".to_string(), properties: sample_session_properties() };
    match data(respond(&call, Ok(LogindReply::SessionStatus(status)))) {
        LogindReply::SessionStatus(status) => assert_eq!(status.id, "42"),
        other => panic!("unexpected {:?}", other),
    }
}

#[test]
fn test_activate_session() {
    let call = planned(Endpoint::ActivateSession { id: "42".to_string() });
    assert!(matches!(&call, LogindCall::ActivateSession { id } if id == "42"));
    assert_no_content(&call);
}

#[test]
fn test_lock_session() {
    let call = planned(Endpoint::LockSession { id: "42".to_string() });
    assert!(matches!(&call, LogindCall::LockSession { id } if id == "42"));
    assert_no_content(&call);
}

#[test]
fn test_unlock_session() {
    let call = planned(Endpoint::UnlockSession { id: "42".to_string() });
    assert!(matches!(&call, LogindCall::UnlockSession { id } if id == "42"));
    assert_no_content(&call);
}

#[test]
fn test_lock_all_sessions() {
    let call = planned(Endpoint::LockAllSessions);
    assert!(matches!(call, LogindCall::LockSessions));
    assert_no_content(&call);
}

#[test]
fn test_unlock_all_sessions() {
    let call = planned(Endpoint::UnlockAllSessions);
    assert!(matches!(call, LogindCall::UnlockSessions));
    assert_no_content(&call);
}

#[test]
fn test_terminate_session() {
    let call = planned(Endpoint::TerminateSession { id: "42".to_string() });
    assert!(matches!(&call, LogindCall::TerminateSession { id } if id == "42"));
    assert_no_content(&call);
}

#[test]
fn test_kill_session() {
    let call = planned(Endpoint::KillSession {
        id: "42".to_string(),
        body: kill_body("SIGTERM", None),
    });
    assert!(matches!(
        &call,
        LogindCall::KillSession { id, who, signal } if id == "42" && who == "all" && *signal == 15
    ));
    assert_no_content(&call);
}

#[test]
fn test_list_sessions_dbus_error() {
    let call = planned(Endpoint::ListSessions);
    let reply = respond(&call, Err(AppError::Dbus("connection refused".to_string())));
    assert_eq!(reply.status, 502);
}

#[test]
fn test_show_session_not_found() {
    let call = planned(Endpoint::ShowSession { id: "999".to_string() });
    let reply = respond(&call, Err(AppError::NotFound("session '999' not found".to_string())));
    assert_eq!(reply.status, 404);
}

#[test]
fn test_list_users() {
    let call = planned(Endpoint::ListUsers);
    assert!(matches!(call, LogindCall::ListUsers));
    match data(respond(&call, Ok(LogindReply::Users(vec![sample_user_info()])))) {
        LogindReply::Users(users) => {
            assert_eq!(users.len(), 1);
            assert_eq!(users[0].uid, 1000);
        },
        other => panic!("unexpected {:?}", other),
    }
}

#[test]
fn test_show_user() {
    let call = planned(Endpoint::ShowUser { uid: 1000 });
    assert!(matches!(call, LogindCall::ShowUser { uid: 1000 }));
    match data(respond(&call, Ok(LogindReply::User(sample_user_properties())))) {
        LogindReply::User(props) => {
            assert_eq!(props.uid, 1000);
            assert_eq!(props.name, "testuser");
        },
        other => panic!("unexpected {:?}", other),
    }
}

#[test]
fn test_user_status() {
    let call = planned(Endpoint::UserStatus { uid: 1000 });
    assert!(matches!(call, LogindCall::UserStatus { uid: 1000 }));
    let status = UserStatus {
        uid: 1000,
        name: "testuser".to_string(),
        properties: sample_user_properties(),
    };
    match data(respond(&call, Ok(LogindReply::UserStatus(status)))) {
        LogindReply::UserStatus(status) => assert_eq!(status.uid, 1000),
        other => panic!("unexpected {:?}", other),
    }
}

#[test]
fn test_enable_linger() {
    let call = planned(Endpoint::EnableLinger { uid: 1000 });
    assert!(matches!(call, LogindCall::EnableLinger { uid: 1000 }));
    assert_no_content(&call);
}

#[test]
fn test_disable_linger() {
    let call = planned(Endpoint::DisableLinger { uid: 1000 });
    assert!(matches!(call, LogindCall::DisableLinger { uid: 1000 }));
    assert_no_content(&call);
}

#[test]
fn test_terminate_user() {
    let call = planned(Endpoint::TerminateUser { uid: 1000 });
    assert!(matches!(call, LogindCall::TerminateUser { uid: 1000 }));
    assert_no_content(&call);
}

#[test]
fn test_kill_user() {
    let call = planned(Endpoint::KillUser { uid: 1000, body: kill_body("SIGKILL", None) });
    assert!(matches!(call, LogindCall::KillUser { uid: 1000, signal: 9 }));
    assert_no_content(&call);
}

#[test]
fn test_list_users_dbus_error() {
    let call = planned(Endpoint::ListUsers);
    let reply = respond(&call, Err(AppError::Dbus("connection refused".to_string())));
    assert_eq!(reply.status, 502);
}

#[test]
fn test_show_user_not_found() {
    let call = planned(Endpoint::ShowUser { uid: 99999 });
    let reply = respond(&call, Err(AppError::NotFound("user 99999 not found".to_string())));
    assert_eq!(reply.status, 404);
}

#[test]
fn test_kill_user_invalid_signal() {
    let refused = plan(Endpoint::KillUser { uid: 1000, body: kill_body("INVALID", None) });
    let err = match refused {
        Err(e) => e,
        Ok(call) => panic!("unexpected plan {:?}", call),
    };
    assert!(matches!(&err, AppError::BadRequest(m) if m == "invalid signal: INVALID"));
    let reply = reject(err);
    assert_eq!(reply.status, 400);
    assert!(matches!(reply.body, ReplyBody::Failure(AppError::BadRequest(_))));
}

#[test]
fn kill_session_keeps_an_explicit_target() {
    let call = planned(Endpoint::KillSession {
        id: "7".to_string(),
        body: kill_body("hup", Some("leader")),
    });
    assert!(matches!(
        &call,
        LogindCall::KillSession { id, who, signal } if id == "7" && who == "leader" && *signal == 1
    ));
}

#[test]
fn kill_session_with_invalid_signal_is_refused() {
    let refused = plan(Endpoint::KillSession {
        id: "7".to_string(),
        body: kill_body("sigfoo", Some("all")),
    });
    assert!(matches!(refused, Err(AppError::BadRequest(m)) if m == "invalid signal: SIGFOO"));
}

#[test]
fn kill_request_default_signal_is_sigterm() {
    let body = KillRequest { signal: russessin::logind::types::default_signal(), who: None };
    assert_eq!(body.signal, "SIGTERM");
    let call = planned(Endpoint::KillUser { uid: 5, body });
    assert!(matches!(call, LogindCall::KillUser { uid: 5, signal: 15 }));
}

#[test]
fn bad_requests_are_answered_400_by_respond_too() {
    let reply = respond(
        &LogindCall::LockSessions,
        Err(AppError::BadRequest("invalid signal: X".to_string())),
    );
    assert_eq!(reply.status, 400);
    assert!(matches!(reply.body, ReplyBody::Failure(AppError::BadRequest(m)) if m == "invalid signal: X"));
}

#[test]
fn error_status_codes_and_messages() {
    assert_eq!(AppError::Dbus("a".to_string()).status_code(), 502);
    assert_eq!(AppError::NotFound("b".to_string()).status_code(), 404);
    assert_eq!(AppError::BadRequest("c".to_string()).status_code(), 400);
    assert_eq!(AppError::NotFound("gone".to_string()).message(), "gone");
}

#[test]
fn mutating_calls_are_classified() {
    assert!(!LogindCall::ListSessions.is_mutating());
    assert!(!LogindCall::ShowUser { uid: 1 }.is_mutating());
    assert!(LogindCall::LockSessions.is_mutating());
    assert!(LogindCall::KillUser { uid: 1, signal: 9 }.is_mutating());
}
