use vstd::prelude::*;

use crate::logind::types::{SessionProperties, SessionStatus, UserProperties, UserStatus};
use crate::text::same_text;

verus! {

/// One field of a D-Bus structure, as far as property decoding reads it.
#[derive(Debug)]
pub enum Field {
    /// A string field.
    Str(String),
    /// A `u32` field.
    U32(u32),
    /// A field of any other D-Bus type.
    Other,
}

/// A D-Bus property value, as far as property decoding reads it. Each
/// variant stands for one D-Bus type; a value of any type not listed is
/// `Other`.
#[derive(Debug)]
pub enum PropValue {
    Str(String),
    Bool(bool),
    U32(u32),
    U64(u64),
    /// A structure, with its fields in order.
    Struct(Vec<Field>),
    /// An array of `(id, object path)` structures, such as a user's sessions.
    SessionRefs(Vec<(String, String)>),
    Other,
}

/// All properties of a logind object, as `org.freedesktop.DBus.Properties.GetAll`
/// returns them: property names with their values, no name twice.
#[derive(Debug)]
pub struct PropMap {
    entries: Vec<(String, PropValue)>,
}

/// Whether no two entries carry the same name.
pub open spec fn names_distinct(entries: Seq<(String, PropValue)>) -> bool {
    forall|i: int, j: int|
        0 <= i < entries.len() && 0 <= j < entries.len() && i != j ==> entries[i].0@
            != entries[j].0@
}

/// The value of the first entry named `key`, if any.
pub open spec fn prop_lookup(entries: Seq<(String, PropValue)>, key: Seq<char>) -> Option<PropValue>
    decreases entries.len(),
{
    if entries.len() == 0 {
        None
    } else if entries[0].0@ == key {
        Some(entries[0].1)
    } else {
        prop_lookup(entries.drop_first(), key)
    }
}

proof fn lemma_lookup_first(entries: Seq<(String, PropValue)>, key: Seq<char>, i: int)
    requires
        0 <= i < entries.len(),
        entries[i].0@ == key,
        forall|j: int| 0 <= j < i ==> entries[j].0@ != key,
    ensures
        prop_lookup(entries, key) == Some(entries[i].1),
    decreases i,
{
    if i > 0 {
        assert(entries[0].0@ != key);
        lemma_lookup_first(entries.drop_first(), key, i - 1);
    }
}

proof fn lemma_lookup_absent(entries: Seq<(String, PropValue)>, key: Seq<char>)
    requires
        forall|j: int| 0 <= j < entries.len() ==> entries[j].0@ != key,
    ensures
        prop_lookup(entries, key) is None,
    decreases entries.len(),
{
    if entries.len() > 0 {
        assert(entries[0].0@ != key);
        lemma_lookup_absent(entries.drop_first(), key);
    }
}

/// With distinct names, the entry named `key` at index `i` is what a
/// lookup of `key` finds.
proof fn lemma_lookup_at(entries: Seq<(String, PropValue)>, key: Seq<char>, i: int)
    requires
        names_distinct(entries),
        0 <= i < entries.len(),
        entries[i].0@ == key,
    ensures
        prop_lookup(entries, key) == Some(entries[i].1),
{
    assert forall|j: int| 0 <= j < i implies entries[j].0@ != key by {
        assert(entries[j].0@ != entries[i].0@);
    }
    lemma_lookup_first(entries, key, i);
}

fn position(entries: &Vec<(String, PropValue)>, name: &str) -> (r: Option<usize>)
    ensures
        match r {
            Some(i) => i < entries@.len() && entries@[i as int].0@ == name@,
            None => forall|j: int| 0 <= j < entries@.len() ==> entries@[j].0@ != name@,
        },
{
    let n = entries.len();
    let mut i: usize = 0;
    while i < n
        invariant
            n == entries@.len(),
            i <= n,
            forall|j: int| 0 <= j < i ==> entries@[j].0@ != name@,
        decreases n - i,
    {
        if same_text(entries[i].0.as_str(), name) {
            return Some(i);
        }
        i = i + 1;
    }
    None
}

impl PropMap {
    #[verifier::type_invariant]
    spec fn has_distinct_names(self) -> bool {
        names_distinct(self.entries@)
    }

    /// The entries, in order.
    pub closed spec fn entries(self) -> Seq<(String, PropValue)> {
        self.entries@
    }

    /// A map with no properties.
    pub fn new() -> (m: Self)
        ensures
            m.entries().len() == 0,
            names_distinct(m.entries()),
    {
        PropMap { entries: Vec::new() }
    }

    /// Sets property `name` to `value`: the entry of that name is replaced
    /// when there is one, else a new entry is added. Names stay distinct.
    pub fn insert(&mut self, name: String, value: PropValue)
        ensures
            names_distinct(final(self).entries()),
            forall|k: Seq<char>|
                #[trigger] prop_lookup(final(self).entries(), k) == if k == name@ {
                    Some(value)
                } else {
                    prop_lookup(old(self).entries(), k)
                },
    {
        proof {
            use_type_invariant(&*self);
        }
        let mut entries: Vec<(String, PropValue)> = Vec::new();
        std::mem::swap(&mut entries, &mut self.entries);
        let ghost before = entries@;
        let ghost key = name@;
        match position(&entries, name.as_str()) {
            Some(i) => {
                entries.set(i, (name, value));
                proof {
                    let after = entries@;
                    assert(names_distinct(after)) by {
                        assert forall|a: int, b: int|
                            0 <= a < after.len() && 0 <= b < after.len() && a != b implies after[a].0@
                            != after[b].0@ by {
                            assert(before[a].0@ != before[b].0@);
                        }
                    }
                    assert forall|k: Seq<char>|
                        #[trigger] prop_lookup(after, k) == if k == key {
                            Some(value)
                        } else {
                            prop_lookup(before, k)
                        } by {
                        if k == key {
                            lemma_lookup_at(after, k, i as int);
                        } else if exists|j: int| 0 <= j < before.len() && before[j].0@ == k {
                            let j = choose|j: int| 0 <= j < before.len() && before[j].0@ == k;
                            lemma_lookup_at(before, k, j);
                            lemma_lookup_at(after, k, j);
                        } else {
                            lemma_lookup_absent(before, k);
                            lemma_lookup_absent(after, k);
                        }
                    }
                }
            },
            None => {
                entries.push((name, value));
                proof {
                    let after = entries@;
                    assert(names_distinct(after)) by {
                        assert forall|a: int, b: int|
                            0 <= a < after.len() && 0 <= b < after.len() && a != b implies after[a].0@
                            != after[b].0@ by {
                            if a < before.len() && b < before.len() {
                                assert(before[a].0@ != before[b].0@);
                            }
                        }
                    }
                    assert forall|k: Seq<char>|
                        #[trigger] prop_lookup(after, k) == if k == key {
                            Some(value)
                        } else {
                            prop_lookup(before, k)
                        } by {
                        if k == key {
                            lemma_lookup_at(after, k, before.len() as int);
                        } else if exists|j: int| 0 <= j < before.len() && before[j].0@ == k {
                            let j = choose|j: int| 0 <= j < before.len() && before[j].0@ == k;
                            lemma_lookup_at(before, k, j);
                            lemma_lookup_at(after, k, j);
                        } else {
                            lemma_lookup_absent(before, k);
                            lemma_lookup_absent(after, k);
                        }
                    }
                }
            },
        }
        self.entries = entries;
    }
}

/// A string property; empty when missing or not a string.
pub open spec fn string_prop(props: PropMap, key: Seq<char>) -> Seq<char> {
    match prop_lookup(props.entries(), key) {
        Some(PropValue::Str(s)) => s@,
        _ => Seq::empty(),
    }
}

/// A boolean property; false when missing or not a boolean.
pub open spec fn bool_prop(props: PropMap, key: Seq<char>) -> bool {
    match prop_lookup(props.entries(), key) {
        Some(PropValue::Bool(b)) => b,
        _ => false,
    }
}

/// A `u32` property; 0 when missing or not a `u32`.
pub open spec fn u32_prop(props: PropMap, key: Seq<char>) -> u32 {
    match prop_lookup(props.entries(), key) {
        Some(PropValue::U32(n)) => n,
        _ => 0,
    }
}

/// A `u64` property; 0 when missing or not a `u64`.
pub open spec fn u64_prop(props: PropMap, key: Seq<char>) -> u64 {
    match prop_lookup(props.entries(), key) {
        Some(PropValue::U64(n)) => n,
        _ => 0,
    }
}

/// The first field of a structure property when it is a `u32`; else 0.
pub open spec fn struct_first_u32_prop(props: PropMap, key: Seq<char>) -> u32 {
    match prop_lookup(props.entries(), key) {
        Some(PropValue::Struct(fields)) => if fields@.len() > 0 {
            match fields@[0] {
                Field::U32(n) => n,
                _ => 0,
            }
        } else {
            0
        },
        _ => 0,
    }
}

/// The first field of a structure property when it is a string; else empty.
pub open spec fn struct_first_string_prop(props: PropMap, key: Seq<char>) -> Seq<char> {
    match prop_lookup(props.entries(), key) {
        Some(PropValue::Struct(fields)) => if fields@.len() > 0 {
            match fields@[0] {
                Field::Str(s) => s@,
                _ => Seq::empty(),
            }
        } else {
            Seq::empty()
        },
        _ => Seq::empty(),
    }
}

/// The ids of a session-list property, in order; empty when missing or of
/// another type.
pub open spec fn session_ids_prop(props: PropMap, key: Seq<char>) -> Seq<Seq<char>> {
    match prop_lookup(props.entries(), key) {
        Some(PropValue::SessionRefs(refs)) => refs@.map_values(|r: (String, String)| r.0@),
        _ => Seq::empty(),
    }
}

fn find<'a>(props: &'a PropMap, key: &str) -> (r: Option<&'a PropValue>)
    ensures
        match r {
            Some(v) => prop_lookup(props.entries@, key@) == Some(*v),
            None => prop_lookup(props.entries@, key@) is None,
        },
{
    let n = props.entries.len();
    let mut i: usize = 0;
    assert(props.entries@.skip(0) =~= props.entries@);
    while i < n
        invariant
            n == props.entries@.len(),
            i <= n,
            prop_lookup(props.entries@, key@) == prop_lookup(props.entries@.skip(i as int), key@),
        decreases n - i,
    {
        let entry = &props.entries[i];
        if same_text(entry.0.as_str(), key) {
            return Some(&entry.1);
        }
        assert(props.entries@.skip(i as int).drop_first() =~= props.entries@.skip(i + 1));
        i = i + 1;
    }
    None
}

/// Reads a string property: the string itself, or "" when the property is
/// missing or holds another type.
pub fn prop_string(props: &PropMap, key: &str) -> (r: String)
    ensures
        r@ == string_prop(*props, key@),
{
    match find(props, key) {
        Some(PropValue::Str(s)) => s.clone(),
        _ => String::new(),
    }
}

/// Reads a boolean property: false when missing or of another type.
pub fn prop_bool(props: &PropMap, key: &str) -> (r: bool)
    ensures
        r == bool_prop(*props, key@),
{
    match find(props, key) {
        Some(PropValue::Bool(b)) => *b,
        _ => false,
    }
}

/// Reads a `u32` property: 0 when missing or of another type.
pub fn prop_u32(props: &PropMap, key: &str) -> (r: u32)
    ensures
        r == u32_prop(*props, key@),
{
    match find(props, key) {
        Some(PropValue::U32(n)) => *n,
        _ => 0,
    }
}

/// Reads a `u64` property: 0 when missing or of another type.
pub fn prop_u64(props: &PropMap, key: &str) -> (r: u64)
    ensures
        r == u64_prop(*props, key@),
{
    match find(props, key) {
        Some(PropValue::U64(n)) => *n,
        _ => 0,
    }
}

/// Reads the first field of a structure property as a `u32` (such as the
/// uid in a session's `User` property): 0 when the property is missing, is
/// not a structure, is empty, or starts with a field of another type.
pub fn prop_struct_first_u32(props: &PropMap, key: &str) -> (r: u32)
    ensures
        r == struct_first_u32_prop(*props, key@),
{
    match find(props, key) {
        Some(PropValue::Struct(fields)) => {
            if fields.len() > 0 {
                match &fields[0] {
                    Field::U32(n) => *n,
                    _ => 0,
                }
            } else {
                0
            }
        },
        _ => 0,
    }
}

/// Reads the first field of a structure property as a string (such as the
/// seat id in a session's `Seat` property): "" in every other case.
pub fn prop_struct_first_string(props: &PropMap, key: &str) -> (r: String)
    ensures
        r@ == struct_first_string_prop(*props, key@),
{
    match find(props, key) {
        Some(PropValue::Struct(fields)) => {
            if fields.len() > 0 {
                match &fields[0] {
                    Field::Str(s) => s.clone(),
                    _ => String::new(),
                }
            } else {
                String::new()
            }
        },
        _ => String::new(),
    }
}

/// Reads a list of `(session id, object path)` pairs and keeps the ids, in
/// order: empty when the property is missing or of another type.
pub fn prop_sessions_list(props: &PropMap, key: &str) -> (r: Vec<String>)
    ensures
        r@.map_values(|s: String| s@) == session_ids_prop(*props, key@),
{
    let mut out: Vec<String> = Vec::new();
    match find(props, key) {
        Some(PropValue::SessionRefs(refs)) => {
            let n = refs.len();
            let mut i: usize = 0;
            while i < n
                invariant
                    n == refs@.len(),
                    i <= n,
                    out@.map_values(|s: String| s@) =~= refs@.take(i as int).map_values(
                        |p: (String, String)| p.0@,
                    ),
                decreases n - i,
            {
                let id = refs[i].0.clone();
                let ghost prev = out@;
                out.push(id);
                proof {
                    assert(refs@.take(i + 1) =~= refs@.take(i as int).push(refs@[i as int]));
                    assert(out@ =~= prev.push(id));
                    assert(out@.map_values(|s: String| s@) =~= prev.map_values(|s: String| s@).push(
                        id@,
                    ));
                }
                i = i + 1;
            }
            assert(refs@.take(n as int) =~= refs@);
        },
        _ => {},
    }
    out
}

/// Whether `p` holds the session properties decoded from `props`: each
/// field read from its logind property, with its default when that property
/// is missing or of another type.
pub open spec fn decodes_session(props: PropMap, p: SessionProperties) -> bool {
    &&& p.id@ == string_prop(props, "Id"@)
    &&& p.uid == struct_first_u32_prop(props, "User"@)
    &&& p.user@ == string_prop(props, "Name"@)
    &&& p.seat@ == struct_first_string_prop(props, "Seat"@)
    &&& p.session_type@ == string_prop(props, "Type"@)
    &&& p.class@ == string_prop(props, "Class"@)
    &&& p.active == bool_prop(props, "Active"@)
    &&& p.state@ == string_prop(props, "State"@)
    &&& p.remote == bool_prop(props, "Remote"@)
    &&& p.remote_host@ == string_prop(props, "RemoteHost"@)
    &&& p.remote_user@ == string_prop(props, "RemoteUser"@)
    &&& p.service@ == string_prop(props, "Service"@)
    &&& p.desktop@ == string_prop(props, "Desktop"@)
    &&& p.scope@ == string_prop(props, "Scope"@)
    &&& p.leader == u32_prop(props, "Leader"@)
    &&& p.audit == u32_prop(props, "Audit"@)
    &&& p.vt_nr == u32_prop(props, "VTNr"@)
    &&& p.tty@ == string_prop(props, "TTY"@)
    &&& p.display@ == string_prop(props, "Display"@)
    &&& p.timestamp == u64_prop(props, "Timestamp"@)
}

/// Decodes a session's properties. Each field is read from its logind
/// property (`Id`, `User`, `Name`, `Seat`, `Type`, `Class`, `Active`,
/// `State`, `Remote`, `RemoteHost`, `RemoteUser`, `Service`, `Desktop`,
/// `Scope`, `Leader`, `Audit`, `VTNr`, `TTY`, `Display`, `Timestamp`), and
/// takes its default when that property is missing or of another type.
pub fn build_session_props_from_map(props: &PropMap) -> (r: SessionProperties)
    ensures
        decodes_session(*props, r),
{
    SessionProperties {
        id: prop_string(props, "Id"),
        uid: prop_struct_first_u32(props, "User"),
        user: prop_string(props, "Name"),
        seat: prop_struct_first_string(props, "Seat"),
        session_type: prop_string(props, "Type"),
        class: prop_string(props, "Class"),
        active: prop_bool(props, "Active"),
        state: prop_string(props, "State"),
        remote: prop_bool(props, "Remote"),
        remote_host: prop_string(props, "RemoteHost"),
        remote_user: prop_string(props, "RemoteUser"),
        service: prop_string(props, "Service"),
        desktop: prop_string(props, "Desktop"),
        scope: prop_string(props, "Scope"),
        leader: prop_u32(props, "Leader"),
        audit: prop_u32(props, "Audit"),
        vt_nr: prop_u32(props, "VTNr"),
        tty: prop_string(props, "TTY"),
        display: prop_string(props, "Display"),
        timestamp: prop_u64(props, "Timestamp"),
    }
}

/// Whether `p` holds the user properties decoded from `props`, each field
/// with its default when its property is missing or of another type.
pub open spec fn decodes_user(props: PropMap, p: UserProperties) -> bool {
    &&& p.uid == u32_prop(props, "UID"@)
    &&& p.name@ == string_prop(props, "Name"@)
    &&& p.state@ == string_prop(props, "State"@)
    &&& p.linger == bool_prop(props, "Linger"@)
    &&& p.runtime_path@ == string_prop(props, "RuntimePath"@)
    &&& p.service@ == string_prop(props, "Service"@)
    &&& p.slice@ == string_prop(props, "Slice"@)
    &&& p.display@ == struct_first_string_prop(props, "Display"@)
    &&& p.timestamp == u64_prop(props, "Timestamp"@)
    &&& p.sessions@.map_values(|s: String| s@) == session_ids_prop(props, "Sessions"@)
}

/// Decodes a user's properties from `UID`, `Name`, `State`, `Linger`,
/// `RuntimePath`, `Service`, `Slice`, `Display` (the session id in that
/// structure), `Timestamp` and `Sessions` (the ids only), each with its
/// default when missing or of another type.
pub fn build_user_props_from_map(props: &PropMap) -> (r: UserProperties)
    ensures
        decodes_user(*props, r),
{
    UserProperties {
        uid: prop_u32(props, "UID"),
        name: prop_string(props, "Name"),
        state: prop_string(props, "State"),
        linger: prop_bool(props, "Linger"),
        runtime_path: prop_string(props, "RuntimePath"),
        service: prop_string(props, "Service"),
        slice: prop_string(props, "Slice"),
        display: prop_struct_first_string(props, "Display"),
        timestamp: prop_u64(props, "Timestamp"),
        sessions: prop_sessions_list(props, "Sessions"),
    }
}

/// The status of session `id`: the id as asked for, with the properties
/// decoded from `props`.
pub fn session_status_from_props(id: &str, props: &PropMap) -> (r: SessionStatus)
    ensures
        r.id@ == id@,
        decodes_session(*props, r.properties),
{
    SessionStatus { id: id.to_owned(), properties: build_session_props_from_map(props) }
}

/// The status of user `uid`: the uid as asked for, the name taken from the
/// decoded properties, and those properties.
pub fn user_status_from_props(uid: u32, props: &PropMap) -> (r: UserStatus)
    ensures
        r.uid == uid,
        r.name@ == r.properties.name@,
        decodes_user(*props, r.properties),
{
    let properties = build_user_props_from_map(props);
    UserStatus { uid, name: properties.name.clone(), properties }
}

/// The first field of a structure when it is a `u32`, else 0.
pub open spec fn first_u32_field(fs: Seq<Field>) -> u32 {
    if fs.len() > 0 && fs[0] is U32 {
        fs[0]->U32_0
    } else {
        0
    }
}

/// The first field of a structure when it is a string, else empty.
pub open spec fn first_text_field(fs: Seq<Field>) -> Seq<char> {
    if fs.len() > 0 && fs[0] is Str {
        fs[0]->Str_0@
    } else {
        Seq::empty()
    }
}

/// The ids of a list of `(id, object path)` pairs, in order.
pub open spec fn ids_of(refs: Seq<(String, String)>) -> Seq<Seq<char>> {
    Seq::new(refs.len(), |i: int| refs[i].0@)
}

/// Each decoded session field comes from the logind property of its own
/// name (`id` from `Id`, the uid from the first field of `User`, `user`
/// from `Name`, the seat from the first field of `Seat`, `session_type`
/// from `Type`, `remote_host` from `RemoteHost`, `remote_user` from
/// `RemoteUser`, `vt_nr` from `VTNr`, `tty` from `TTY`, ...), and takes its
/// default (empty, false or 0) when that property is absent.
pub proof fn session_fields_come_from_their_properties(props: PropMap, p: SessionProperties)
    requires
        decodes_session(props, p),
    ensures
        prop_lookup(props.entries(), "Id"@) matches Some(PropValue::Str(v)) ==> p.id@ == v@,
        prop_lookup(props.entries(), "Id"@) is None ==> p.id@ == Seq::<char>::empty(),
        prop_lookup(props.entries(), "User"@) matches Some(PropValue::Struct(fs)) ==> p.uid == first_u32_field(fs@),
        prop_lookup(props.entries(), "User"@) is None ==> p.uid == 0,
        prop_lookup(props.entries(), "Name"@) matches Some(PropValue::Str(v)) ==> p.user@ == v@,
        prop_lookup(props.entries(), "Name"@) is None ==> p.user@ == Seq::<char>::empty(),
        prop_lookup(props.entries(), "Seat"@) matches Some(PropValue::Struct(fs)) ==> p.seat@ == first_text_field(fs@),
        prop_lookup(props.entries(), "Seat"@) is None ==> p.seat@ == Seq::<char>::empty(),
        prop_lookup(props.entries(), "Type"@) matches Some(PropValue::Str(v)) ==> p.session_type@ == v@,
        prop_lookup(props.entries(), "Type"@) is None ==> p.session_type@ == Seq::<char>::empty(),
        prop_lookup(props.entries(), "Class"@) matches Some(PropValue::Str(v)) ==> p.class@ == v@,
        prop_lookup(props.entries(), "Class"@) is None ==> p.class@ == Seq::<char>::empty(),
        prop_lookup(props.entries(), "Active"@) matches Some(PropValue::Bool(v)) ==> p.active == v,
        prop_lookup(props.entries(), "Active"@) is None ==> !p.active,
        prop_lookup(props.entries(), "State"@) matches Some(PropValue::Str(v)) ==> p.state@ == v@,
        prop_lookup(props.entries(), "State"@) is None ==> p.state@ == Seq::<char>::empty(),
        prop_lookup(props.entries(), "Remote"@) matches Some(PropValue::Bool(v)) ==> p.remote == v,
        prop_lookup(props.entries(), "Remote"@) is None ==> !p.remote,
        prop_lookup(props.entries(), "RemoteHost"@) matches Some(PropValue::Str(v)) ==> p.remote_host@ == v@,
        prop_lookup(props.entries(), "RemoteHost"@) is None ==> p.remote_host@ == Seq::<char>::empty(),
        prop_lookup(props.entries(), "RemoteUser"@) matches Some(PropValue::Str(v)) ==> p.remote_user@ == v@,
        prop_lookup(props.entries(), "RemoteUser"@) is None ==> p.remote_user@ == Seq::<char>::empty(),
        prop_lookup(props.entries(), "Service"@) matches Some(PropValue::Str(v)) ==> p.service@ == v@,
        prop_lookup(props.entries(), "Service"@) is None ==> p.service@ == Seq::<char>::empty(),
        prop_lookup(props.entries(), "Desktop"@) matches Some(PropValue::Str(v)) ==> p.desktop@ == v@,
        prop_lookup(props.entries(), "Desktop"@) is None ==> p.desktop@ == Seq::<char>::empty(),
        prop_lookup(props.entries(), "Scope"@) matches Some(PropValue::Str(v)) ==> p.scope@ == v@,
        prop_lookup(props.entries(), "Scope"@) is None ==> p.scope@ == Seq::<char>::empty(),
        prop_lookup(props.entries(), "Leader"@) matches Some(PropValue::U32(v)) ==> p.leader == v,
        prop_lookup(props.entries(), "Leader"@) is None ==> p.leader == 0,
        prop_lookup(props.entries(), "Audit"@) matches Some(PropValue::U32(v)) ==> p.audit == v,
        prop_lookup(props.entries(), "Audit"@) is None ==> p.audit == 0,
        prop_lookup(props.entries(), "VTNr"@) matches Some(PropValue::U32(v)) ==> p.vt_nr == v,
        prop_lookup(props.entries(), "VTNr"@) is None ==> p.vt_nr == 0,
        prop_lookup(props.entries(), "TTY"@) matches Some(PropValue::Str(v)) ==> p.tty@ == v@,
        prop_lookup(props.entries(), "TTY"@) is None ==> p.tty@ == Seq::<char>::empty(),
        prop_lookup(props.entries(), "Display"@) matches Some(PropValue::Str(v)) ==> p.display@ == v@,
        prop_lookup(props.entries(), "Display"@) is None ==> p.display@ == Seq::<char>::empty(),
        prop_lookup(props.entries(), "Timestamp"@) matches Some(PropValue::U64(v)) ==> p.timestamp == v,
        prop_lookup(props.entries(), "Timestamp"@) is None ==> p.timestamp == 0,
{
}

/// Each decoded user field comes from the logind property of its own name
/// (`uid` from `UID`, `runtime_path` from `RuntimePath`, the display from
/// the first field of `Display`, the session ids from `Sessions`, ...), and
/// takes its default when that property is absent.
pub proof fn user_fields_come_from_their_properties(props: PropMap, p: UserProperties)
    requires
        decodes_user(props, p),
    ensures
        prop_lookup(props.entries(), "UID"@) matches Some(PropValue::U32(v)) ==> p.uid == v,
        prop_lookup(props.entries(), "UID"@) is None ==> p.uid == 0,
        prop_lookup(props.entries(), "Name"@) matches Some(PropValue::Str(v)) ==> p.name@ == v@,
        prop_lookup(props.entries(), "Name"@) is None ==> p.name@ == Seq::<char>::empty(),
        prop_lookup(props.entries(), "State"@) matches Some(PropValue::Str(v)) ==> p.state@ == v@,
        prop_lookup(props.entries(), "State"@) is None ==> p.state@ == Seq::<char>::empty(),
        prop_lookup(props.entries(), "Linger"@) matches Some(PropValue::Bool(v)) ==> p.linger == v,
        prop_lookup(props.entries(), "Linger"@) is None ==> !p.linger,
        prop_lookup(props.entries(), "RuntimePath"@) matches Some(PropValue::Str(v)) ==> p.runtime_path@ == v@,
        prop_lookup(props.entries(), "RuntimePath"@) is None ==> p.runtime_path@ == Seq::<char>::empty(),
        prop_lookup(props.entries(), "Service"@) matches Some(PropValue::Str(v)) ==> p.service@ == v@,
        prop_lookup(props.entries(), "Service"@) is None ==> p.service@ == Seq::<char>::empty(),
        prop_lookup(props.entries(), "Slice"@) matches Some(PropValue::Str(v)) ==> p.slice@ == v@,
        prop_lookup(props.entries(), "Slice"@) is None ==> p.slice@ == Seq::<char>::empty(),
        prop_lookup(props.entries(), "Display"@) matches Some(PropValue::Struct(fs)) ==> p.display@ == first_text_field(fs@),
        prop_lookup(props.entries(), "Display"@) is None ==> p.display@ == Seq::<char>::empty(),
        prop_lookup(props.entries(), "Timestamp"@) matches Some(PropValue::U64(v)) ==> p.timestamp == v,
        prop_lookup(props.entries(), "Timestamp"@) is None ==> p.timestamp == 0,
        prop_lookup(props.entries(), "Sessions"@) matches Some(PropValue::SessionRefs(refs))
            ==> p.sessions@.map_values(|s: String| s@) == ids_of(refs@),
        prop_lookup(props.entries(), "Sessions"@) is None ==> p.sessions@.len() == 0,
{
    assert(p.sessions@.map_values(|s: String| s@).len() == p.sessions@.len());
    if let Some(PropValue::SessionRefs(refs)) = prop_lookup(props.entries(), "Sessions"@) {
        assert(ids_of(refs@) =~= refs@.map_values(|r: (String, String)| r.0@));
    }
}

} // verus!
