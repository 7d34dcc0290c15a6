use russessin::logind::props::{
    build_session_props_from_map, build_user_props_from_map, prop_bool, prop_sessions_list,
    prop_string, prop_struct_first_string, prop_struct_first_u32, prop_u32, prop_u64,
    session_status_from_props, user_status_from_props, Field, PropMap, PropValue,
};

fn entry(key: &str, value: PropValue) -> (String, PropValue) {
    (key.to_string(), value)
}

fn map_of(entries: Vec<(String, PropValue)>) -> PropMap {
    let mut map = PropMap::new();
    for (name, value) in entries {
        map.insert(name, value);
    }
    map
}

fn text(s: &str) -> PropValue {
    PropValue::Str(s.to_string())
}

fn session_map() -> PropMap {
    map_of(vec![
            entry("Id", text("42")),
            entry("User", PropValue::Struct(vec![Field::U32(1000), Field::Str("/u".to_string())])),
            entry("Name", text("testuser")),
            entry("Seat", PropValue::Struct(vec![Field::Str("seat0".to_string()), Field::Other])),
            entry("Type", text("x11")),
            entry("Class", text("user")),
            entry("Active", PropValue::Bool(true)),
            entry("State", text("active")),
            entry("Remote", PropValue::Bool(false)),
            entry("Service", text("gdm-password")),
            entry("Desktop", text("gnome")),
            entry("Scope", text("session-42.scope")),
            entry("Leader", PropValue::U32(1234)),
            entry("Audit", PropValue::U32(42)),
            entry("VTNr", PropValue::U32(2)),
            entry("Display", text(":1")),
            entry("Timestamp", PropValue::U64(1700000000)),
    ])
}

#[test]
fn session_properties_are_decoded() {
    let p = build_session_props_from_map(&session_map());
    assert_eq!(p.id, "42");
    assert_eq!(p.uid, 1000);
    assert_eq!(p.user, "testuser");
    assert_eq!(p.seat, "seat0");
    assert_eq!(p.session_type, "x11");
    assert_eq!(p.class, "user");
    assert!(p.active);
    assert_eq!(p.state, "active");
    assert!(!p.remote);
    assert_eq!(p.remote_host, "");
    assert_eq!(p.remote_user, "");
    assert_eq!(p.service, "gdm-password");
    assert_eq!(p.desktop, "gnome");
    assert_eq!(p.scope, "session-42.scope");
    assert_eq!(p.leader, 1234);
    assert_eq!(p.audit, 42);
    assert_eq!(p.vt_nr, 2);
    assert_eq!(p.tty, "");
    assert_eq!(p.display, ":1");
    assert_eq!(p.timestamp, 1700000000);
}

#[test]
fn missing_or_mistyped_properties_take_defaults() {
    let map = map_of(vec![
            entry("Name", PropValue::U32(5)),
            entry("Active", text("yes")),
            entry("Leader", PropValue::U64(7)),
            entry("Timestamp", PropValue::U32(7)),
            entry("User", PropValue::Struct(vec![Field::Str("x".to_string())])),
            entry("Seat", PropValue::Struct(vec![])),
            entry("Sessions", PropValue::Other),
    ]);
    assert_eq!(prop_string(&map, "Name"), "");
    assert_eq!(prop_string(&map, "Absent"), "");
    assert!(!prop_bool(&map, "Active"));
    assert_eq!(prop_u32(&map, "Leader"), 0);
    assert_eq!(prop_u64(&map, "Timestamp"), 0);
    assert_eq!(prop_struct_first_u32(&map, "User"), 0);
    assert_eq!(prop_struct_first_string(&map, "User"), "x");
    assert_eq!(prop_struct_first_string(&map, "Seat"), "");
    assert!(prop_sessions_list(&map, "Sessions").is_empty());
    let p = build_session_props_from_map(&PropMap::new());
    assert_eq!(p.id, "");
    assert_eq!(p.uid, 0);
    assert!(!p.active);
    assert_eq!(p.timestamp, 0);
}

#[test]
fn inserting_a_name_again_replaces_its_value() {
    let map = map_of(vec![entry("Id", text("first")), entry("Id", text("second"))]);
    assert_eq!(prop_string(&map, "Id"), "second");
}

fn user_map() -> PropMap {
    map_of(vec![
            entry("UID", PropValue::U32(1000)),
            entry("Name", text("testuser")),
            entry("State", text("active")),
            entry("Linger", PropValue::Bool(true)),
            entry("RuntimePath", text("/run/user/1000")),
            entry("Service", text("user@1000.service")),
            entry("Slice", text("user-1000.slice")),
            entry(
                "Display",
                PropValue::Struct(vec![
                    Field::Str("42".to_string()),
                    Field::Str("/org/freedesktop/login1/session/_342".to_string()),
                ]),
            ),
            entry("Timestamp", PropValue::U64(1700000000)),
            entry(
                "Sessions",
                PropValue::SessionRefs(vec![
                    ("42".to_string(), "/org/freedesktop/login1/session/_342".to_string()),
                    ("7".to_string(), "/org/freedesktop/login1/session/_37".to_string()),
                ]),
            ),
    ])
}

#[test]
fn user_properties_are_decoded() {
    let p = build_user_props_from_map(&user_map());
    assert_eq!(p.uid, 1000);
    assert_eq!(p.name, "testuser");
    assert_eq!(p.state, "active");
    assert!(p.linger);
    assert_eq!(p.runtime_path, "/run/user/1000");
    assert_eq!(p.service, "user@1000.service");
    assert_eq!(p.slice, "user-1000.slice");
    assert_eq!(p.display, "42");
    assert_eq!(p.timestamp, 1700000000);
    assert_eq!(p.sessions, vec!["42".to_string(), "7".to_string()]);
}

#[test]
fn status_keeps_the_requested_id_and_uid() {
    let s = session_status_from_props("99", &session_map());
    assert_eq!(s.id, "99");
    assert_eq!(s.properties.id, "42");
    let u = user_status_from_props(2000, &user_map());
    assert_eq!(u.uid, 2000);
    assert_eq!(u.name, "testuser");
    assert_eq!(u.properties.name, u.name);
    assert_eq!(u.properties.uid, 1000);
}
