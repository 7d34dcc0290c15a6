use russessin::api::{endpoint_for, routes, Endpoint, HttpMethod, RouteKind};
use russessin::logind::types::{session_infos_from_rows, user_infos_from_rows, KillRequest};

fn route_of(kind: RouteKind) -> (HttpMethod, &'static str) {
    let r = routes().into_iter().find(|r| r.kind == kind).expect("route");
    (r.method, r.path)
}

#[test]
fn the_table_has_the_documented_routes() {
    let table = routes();
    assert_eq!(table.len(), 18);
    assert_eq!(route_of(RouteKind::Healthz), (HttpMethod::Get, "/healthz"));
    assert_eq!(route_of(RouteKind::ListSessions), (HttpMethod::Get, "/api/v1/sessions"));
    assert_eq!(route_of(RouteKind::ShowSession), (HttpMethod::Get, "/api/v1/sessions/{id}"));
    assert_eq!(route_of(RouteKind::TerminateSession), (HttpMethod::Delete, "/api/v1/sessions/{id}"));
    assert_eq!(route_of(RouteKind::SessionStatus), (HttpMethod::Get, "/api/v1/sessions/{id}/status"));
    assert_eq!(route_of(RouteKind::ActivateSession), (HttpMethod::Post, "/api/v1/sessions/{id}/activate"));
    assert_eq!(route_of(RouteKind::LockSession), (HttpMethod::Post, "/api/v1/sessions/{id}/lock"));
    assert_eq!(route_of(RouteKind::UnlockSession), (HttpMethod::Post, "/api/v1/sessions/{id}/unlock"));
    assert_eq!(route_of(RouteKind::LockAllSessions), (HttpMethod::Post, "/api/v1/sessions/lock-all"));
    assert_eq!(route_of(RouteKind::UnlockAllSessions), (HttpMethod::Post, "/api/v1/sessions/unlock-all"));
    assert_eq!(route_of(RouteKind::KillSession), (HttpMethod::Post, "/api/v1/sessions/{id}/kill"));
    assert_eq!(route_of(RouteKind::ListUsers), (HttpMethod::Get, "/api/v1/users"));
    assert_eq!(route_of(RouteKind::ShowUser), (HttpMethod::Get, "/api/v1/users/{uid}"));
    assert_eq!(route_of(RouteKind::TerminateUser), (HttpMethod::Delete, "/api/v1/users/{uid}"));
    assert_eq!(route_of(RouteKind::UserStatus), (HttpMethod::Get, "/api/v1/users/{uid}/status"));
    assert_eq!(route_of(RouteKind::EnableLinger), (HttpMethod::Post, "/api/v1/users/{uid}/linger"));
    assert_eq!(route_of(RouteKind::DisableLinger), (HttpMethod::Delete, "/api/v1/users/{uid}/linger"));
    assert_eq!(route_of(RouteKind::KillUser), (HttpMethod::Post, "/api/v1/users/{uid}/kill"));
}

#[test]
fn no_method_and_path_pair_repeats() {
    let table = routes();
    for (i, a) in table.iter().enumerate() {
        for b in &table[i + 1..] {
            assert!(!(a.method == b.method && a.path == b.path), "{:?} {:?}", a, b);
        }
    }
}

#[test]
fn endpoints_are_built_from_path_and_body() {
    assert!(endpoint_for(RouteKind::Healthz, None, None, None).is_none());
    assert!(matches!(
        endpoint_for(RouteKind::ListSessions, None, None, None),
        Some(Endpoint::ListSessions)
    ));
    assert!(matches!(
        endpoint_for(RouteKind::LockSession, Some("42".to_string()), None, None),
        Some(Endpoint::LockSession { id }) if id == "42"
    ));
    assert!(endpoint_for(RouteKind::LockSession, None, Some(5), None).is_none());
    assert!(matches!(
        endpoint_for(RouteKind::DisableLinger, None, Some(1000), None),
        Some(Endpoint::DisableLinger { uid: 1000 })
    ));
    let body = KillRequest { signal: "SIGKILL".to_string(), who: None };
    assert!(matches!(
        endpoint_for(RouteKind::KillUser, None, Some(1000), Some(body)),
        Some(Endpoint::KillUser { uid: 1000, body }) if body.signal == "SIGKILL"
    ));
    assert!(endpoint_for(RouteKind::KillSession, Some("1".to_string()), None, None).is_none());
}

#[test]
fn list_rows_become_infos_in_order() {
    let rows = vec![
        ("42".to_string(), 1000, "alice".to_string(), "seat0".to_string(), "/s/42".to_string()),
        ("7".to_string(), 1001, "bob".to_string(), String::new(), "/s/7".to_string()),
    ];
    let infos = session_infos_from_rows(&rows);
    assert_eq!(infos.len(), 2);
    assert_eq!(infos[0].id, "42");
    assert_eq!(infos[0].user, "alice");
    assert_eq!(infos[1].uid, 1001);
    assert_eq!(infos[1].seat, "");
    assert_eq!(infos[1].path, "/s/7");
    let users = user_infos_from_rows(&vec![(1000, "alice".to_string(), "/u/1000".to_string())]);
    assert_eq!(users.len(), 1);
    assert_eq!(users[0].uid, 1000);
    assert_eq!(users[0].name, "alice");
    assert_eq!(users[0].path, "/u/1000");
    assert!(session_infos_from_rows(&vec![]).is_empty());
}
