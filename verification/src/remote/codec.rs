//! The persisted form of the remote settings: one JSON document, here
//! as a JSON tree of plain values.  The surrounding application turns
//! the tree into text and back; the tree-level encoding and decoding,
//! and the law that decoding an encoded document gives back the same
//! settings, live here.
//!
//! Encoding is canonical (one field order, every field present).
//! Decoding is tolerant, as a JSON object is unordered and stores from
//! older versions lack the newer fields: fields are found by key in
//! any order, unknown keys are ignored, and the optional fields
//! (passwords, names, the cached model, the probe status and time, the
//! sharing memory) take their defaults when missing.

use vstd::prelude::*;

use crate::remote::server::RemoteServerConfig;
use crate::remote::settings::ConnectionStatus;
use crate::remote::settings::RemoteSettings;
use crate::remote::settings::SavedConnection;

verus! {

/// A JSON value, as stored in the settings document.
#[derive(Debug, PartialEq)]
pub enum Json {
    Null,
    Bool(bool),
    UInt(u64),
    Str(String),
    Arr(Vec<Json>),
    Obj(Vec<(String, Json)>),
}

/// An optional string encoded as `Null` or a string value.
pub open spec fn opt_str_encoded(j: Json, v: Option<String>) -> bool {
    match v {
        Option::None => j == Json::Null,
        Option::Some(s) => j matches Json::Str(t) && t@ == s@,
    }
}

/// The wire name of a connection status.
pub open spec fn spec_status_name(s: ConnectionStatus) -> Seq<char> {
    match s {
        ConnectionStatus::Unknown => "Unknown"@,
        ConnectionStatus::Online => "Online"@,
        ConnectionStatus::Offline => "Offline"@,
        ConnectionStatus::AuthFailed => "AuthFailed"@,
        ConnectionStatus::SelfConnection => "SelfConnection"@,
    }
}

/// A JSON value encodes one saved connection: an object with its nine
/// fields in their canonical order.
pub open spec fn conn_encoded(j: Json, c: SavedConnection) -> bool {
    &&& j matches Json::Obj(pairs)
    &&& pairs@.len() == 9
    &&& pairs@[0].0@ == "id"@ && (pairs@[0].1 matches Json::Str(v) && v@ == c.id@)
    &&& pairs@[1].0@ == "host"@ && (pairs@[1].1 matches Json::Str(v) && v@ == c.host@)
    &&& pairs@[2].0@ == "port"@ && pairs@[2].1 == Json::UInt(c.port as u64)
    &&& pairs@[3].0@ == "password"@ && opt_str_encoded(pairs@[3].1, c.password)
    &&& pairs@[4].0@ == "name"@ && opt_str_encoded(pairs@[4].1, c.name)
    &&& pairs@[5].0@ == "created_at"@ && pairs@[5].1 == Json::UInt(c.created_at)
    &&& pairs@[6].0@ == "model"@ && opt_str_encoded(pairs@[6].1, c.model)
    &&& pairs@[7].0@ == "status"@ && (pairs@[7].1 matches Json::Str(v) && v@ == spec_status_name(
        c.status,
    ))
    &&& pairs@[8].0@ == "last_checked"@ && pairs@[8].1 == Json::UInt(c.last_checked)
}

/// A JSON value encodes the server configuration: an object with its
/// three fields in their canonical order.
pub open spec fn config_encoded(j: Json, c: RemoteServerConfig) -> bool {
    &&& j matches Json::Obj(pairs)
    &&& pairs@.len() == 3
    &&& pairs@[0].0@ == "port"@ && pairs@[0].1 == Json::UInt(c.port as u64)
    &&& pairs@[1].0@ == "password"@ && opt_str_encoded(pairs@[1].1, c.password)
    &&& pairs@[2].0@ == "enabled"@ && pairs@[2].1 == Json::Bool(c.enabled)
}

/// A JSON value encodes the whole remote settings document.
pub open spec fn settings_encoded(j: Json, s: RemoteSettings) -> bool {
    &&& j matches Json::Obj(pairs)
    &&& pairs@.len() == 4
    &&& pairs@[0].0@ == "server_config"@ && config_encoded(pairs@[0].1, s.server_config)
    &&& pairs@[1].0@ == "saved_connections"@ && (pairs@[1].1 matches Json::Arr(items)
        && items@.len() == s.saved_connections@.len() && (forall|k: int|
        0 <= k < items@.len() ==> conn_encoded(
            #[trigger] items@[k],
            s.saved_connections@[k],
        )))
    &&& pairs@[2].0@ == "active_connection_id"@ && opt_str_encoded(
        pairs@[2].1,
        s.active_connection_id,
    )
    &&& pairs@[3].0@ == "sharing_was_active"@ && pairs@[3].1 == Json::Bool(s.sharing_was_active)
}

fn encode_opt_str(v: &Option<String>) -> (r: Json)
    ensures
        opt_str_encoded(r, *v),
{
    match v {
        Option::None => Json::Null,
        Option::Some(s) => Json::Str(s.clone()),
    }
}

fn status_name(s: ConnectionStatus) -> (r: &'static str)
    ensures
        r@ == spec_status_name(s),
{
    match s {
        ConnectionStatus::Unknown => "Unknown",
        ConnectionStatus::Online => "Online",
        ConnectionStatus::Offline => "Offline",
        ConnectionStatus::AuthFailed => "AuthFailed",
        ConnectionStatus::SelfConnection => "SelfConnection",
    }
}

fn encode_conn(c: &SavedConnection) -> (r: Json)
    ensures
        conn_encoded(r, *c),
{
    let mut pairs: Vec<(String, Json)> = Vec::new();
    pairs.push(("id".to_owned(), Json::Str(c.id.clone())));
    pairs.push(("host".to_owned(), Json::Str(c.host.clone())));
    pairs.push(("port".to_owned(), Json::UInt(c.port as u64)));
    pairs.push(("password".to_owned(), encode_opt_str(&c.password)));
    pairs.push(("name".to_owned(), encode_opt_str(&c.name)));
    pairs.push(("created_at".to_owned(), Json::UInt(c.created_at)));
    pairs.push(("model".to_owned(), encode_opt_str(&c.model)));
    pairs.push(("status".to_owned(), Json::Str(status_name(c.status).to_owned())));
    pairs.push(("last_checked".to_owned(), Json::UInt(c.last_checked)));
    Json::Obj(pairs)
}

fn encode_config(c: &RemoteServerConfig) -> (r: Json)
    ensures
        config_encoded(r, *c),
{
    let mut pairs: Vec<(String, Json)> = Vec::new();
    pairs.push(("port".to_owned(), Json::UInt(c.port as u64)));
    pairs.push(("password".to_owned(), encode_opt_str(&c.password)));
    pairs.push(("enabled".to_owned(), Json::Bool(c.enabled)));
    Json::Obj(pairs)
}

/// Encode the settings as their persisted JSON document.
pub fn settings_to_json(s: &RemoteSettings) -> (r: Json)
    ensures
        settings_encoded(r, *s),
{
    let n = s.saved_connections.len();
    let mut items: Vec<Json> = Vec::new();
    let mut i: usize = 0;
    while i < n
        invariant
            n == s.saved_connections@.len(),
            i <= n,
            items@.len() == i,
            forall|k: int|
                0 <= k < i ==> conn_encoded(#[trigger] items@[k], s.saved_connections@[k]),
        decreases n - i,
    {
        items.push(encode_conn(&s.saved_connections[i]));
        i += 1;
    }
    let mut pairs: Vec<(String, Json)> = Vec::new();
    pairs.push(("server_config".to_owned(), encode_config(&s.server_config)));
    pairs.push(("saved_connections".to_owned(), Json::Arr(items)));
    pairs.push(("active_connection_id".to_owned(), encode_opt_str(&s.active_connection_id)));
    pairs.push(("sharing_was_active".to_owned(), Json::Bool(s.sharing_was_active)));
    Json::Obj(pairs)
}

/// The first value an object's entries carry under a key, if any.
pub open spec fn spec_lookup(pairs: Seq<(String, Json)>, key: Seq<char>) -> Option<Json>
    decreases pairs.len(),
{
    if pairs.len() == 0 {
        Option::None
    } else if pairs.first().0@ == key {
        Option::Some(pairs.first().1)
    } else {
        spec_lookup(pairs.drop_first(), key)
    }
}

fn lookup<'a>(pairs: &'a Vec<(String, Json)>, key: &str) -> (r: Option<&'a Json>)
    ensures
        match r {
            Option::Some(f) => spec_lookup(pairs@, key@) == Option::Some(*f),
            Option::None => spec_lookup(pairs@, key@) is None,
        },
{
    let owned = key.to_owned();
    let n = pairs.len();
    let mut i: usize = 0;
    assert(pairs@.skip(0) =~= pairs@);
    while i < n
        invariant
            n == pairs@.len(),
            i <= n,
            owned@ == key@,
            spec_lookup(pairs@, key@) == spec_lookup(pairs@.skip(i as int), key@),
        decreases n - i,
    {
        assert(pairs@.skip(i as int).first() == pairs@[i as int]);
        if pairs[i].0.eq(&owned) {
            return Option::Some(&pairs[i].1);
        }
        assert(pairs@.skip(i as int).drop_first() =~= pairs@.skip(i + 1));
        i += 1;
    }
    assert(pairs@.skip(n as int) =~= Seq::<(String, Json)>::empty());
    Option::None
}

/// An optional string field: missing means none, `Null` means none, a
/// string value carries it.
pub open spec fn opt_str_field_decodes(field: Option<Json>, v: Option<String>) -> bool {
    match field {
        Option::None => v is None,
        Option::Some(f) => opt_str_encoded(f, v),
    }
}

/// A JSON value decodes to this saved connection: an object, in any
/// key order and with unknown keys ignored, whose required fields
/// (`id`, `host`, `port`, `created_at`) are present and whose other
/// fields default when missing.
pub open spec fn conn_decodes(j: Json, c: SavedConnection) -> bool {
    &&& j matches Json::Obj(pairs)
    &&& (spec_lookup(pairs@, "id"@) matches Some(f) && f matches Json::Str(v) && v@ == c.id@)
    &&& (spec_lookup(pairs@, "host"@) matches Some(f) && f matches Json::Str(v) && v@ == c.host@)
    &&& spec_lookup(pairs@, "port"@) == Option::Some(Json::UInt(c.port as u64))
    &&& opt_str_field_decodes(spec_lookup(pairs@, "password"@), c.password)
    &&& opt_str_field_decodes(spec_lookup(pairs@, "name"@), c.name)
    &&& spec_lookup(pairs@, "created_at"@) == Option::Some(Json::UInt(c.created_at))
    &&& opt_str_field_decodes(spec_lookup(pairs@, "model"@), c.model)
    &&& match spec_lookup(pairs@, "status"@) {
        Option::None => c.status == ConnectionStatus::Unknown,
        Option::Some(f) => f matches Json::Str(v) && v@ == spec_status_name(c.status),
    }
    &&& match spec_lookup(pairs@, "last_checked"@) {
        Option::None => c.last_checked == 0,
        Option::Some(f) => f == Json::UInt(c.last_checked),
    }
}

/// A JSON value decodes to this server configuration: `port` and
/// `enabled` are required, the password defaults to none.
pub open spec fn config_decodes(j: Json, c: RemoteServerConfig) -> bool {
    &&& j matches Json::Obj(pairs)
    &&& spec_lookup(pairs@, "port"@) == Option::Some(Json::UInt(c.port as u64))
    &&& opt_str_field_decodes(spec_lookup(pairs@, "password"@), c.password)
    &&& spec_lookup(pairs@, "enabled"@) == Option::Some(Json::Bool(c.enabled))
}

/// A JSON value decodes to these settings: the configuration and the
/// connection list are required, the active selection defaults to none
/// and the sharing memory to off.
pub open spec fn settings_decodes(j: Json, s: RemoteSettings) -> bool {
    &&& j matches Json::Obj(pairs)
    &&& (spec_lookup(pairs@, "server_config"@) matches Some(f) && config_decodes(
        f,
        s.server_config,
    ))
    &&& (spec_lookup(pairs@, "saved_connections"@) matches Some(f) && f matches Json::Arr(items)
        && items@.len() == s.saved_connections@.len() && (forall|k: int|
        0 <= k < items@.len() ==> conn_decodes(
            #[trigger] items@[k],
            s.saved_connections@[k],
        )))
    &&& opt_str_field_decodes(
        spec_lookup(pairs@, "active_connection_id"@),
        s.active_connection_id,
    )
    &&& match spec_lookup(pairs@, "sharing_was_active"@) {
        Option::None => !s.sharing_was_active,
        Option::Some(f) => f == Json::Bool(s.sharing_was_active),
    }
}

fn decode_opt_str(j: &Json) -> (r: Option<Option<String>>)
    ensures
        r matches Some(v) ==> opt_str_encoded(*j, v),
        r is None ==> forall|v: Option<String>| !#[trigger] opt_str_encoded(*j, v),
{
    match j {
        Json::Null => Option::Some(Option::None),
        Json::Str(s) => Option::Some(Option::Some(s.clone())),
        _ => Option::None,
    }
}

/// Dereference an optional borrowed value, for contracts.
pub open spec fn opt_json_deref(field: Option<&Json>) -> Option<Json> {
    match field {
        Option::Some(f) => Option::Some(*f),
        Option::None => Option::None,
    }
}

fn decode_opt_str_field(field: Option<&Json>) -> (r: Option<Option<String>>)
    ensures
        r matches Some(v) ==> opt_str_field_decodes(opt_json_deref(field), v),
        r is None ==> forall|v: Option<String>|
            !#[trigger] opt_str_field_decodes(opt_json_deref(field), v),
{
    match field {
        Option::None => Option::Some(Option::None),
        Option::Some(f) => decode_opt_str(f),
    }
}

fn decode_status(j: &Json) -> (r: Option<ConnectionStatus>)
    ensures
        r matches Some(st) ==> (j matches Json::Str(v) && v@ == spec_status_name(st)),
        r is None ==> forall|st: ConnectionStatus|
            !(j matches Json::Str(v) && v@ == #[trigger] spec_status_name(st)),
{
    match j {
        Json::Str(s) => {
            if s.eq(&"Unknown".to_owned()) {
                Option::Some(ConnectionStatus::Unknown)
            } else if s.eq(&"Online".to_owned()) {
                Option::Some(ConnectionStatus::Online)
            } else if s.eq(&"Offline".to_owned()) {
                Option::Some(ConnectionStatus::Offline)
            } else if s.eq(&"AuthFailed".to_owned()) {
                Option::Some(ConnectionStatus::AuthFailed)
            } else if s.eq(&"SelfConnection".to_owned()) {
                Option::Some(ConnectionStatus::SelfConnection)
            } else {
                Option::None
            }
        },
        _ => Option::None,
    }
}

fn decode_conn(j: &Json) -> (r: Option<SavedConnection>)
    ensures
        r matches Some(c) ==> conn_decodes(*j, c),
        r is None ==> forall|c: SavedConnection| !#[trigger] conn_decodes(*j, c),
{
    let pairs = match j {
        Json::Obj(pairs) => pairs,
        _ => {
            return Option::None;
        },
    };
    let id = match lookup(pairs, "id") {
        Option::Some(Json::Str(v)) => v.clone(),
        _ => {
            return Option::None;
        },
    };
    let host = match lookup(pairs, "host") {
        Option::Some(Json::Str(v)) => v.clone(),
        _ => {
            return Option::None;
        },
    };
    let port = match lookup(pairs, "port") {
        Option::Some(Json::UInt(v)) => {
            if *v > 65535 {
                return Option::None;
            }
            *v as u16
        },
        _ => {
            return Option::None;
        },
    };
    let password_field = lookup(pairs, "password");
    proof {
        assert(opt_json_deref(password_field) == spec_lookup(pairs@, "password"@));
    }
    let password = match decode_opt_str_field(password_field) {
        Option::Some(v) => v,
        Option::None => {
            return Option::None;
        },
    };
    let name_field = lookup(pairs, "name");
    proof {
        assert(opt_json_deref(name_field) == spec_lookup(pairs@, "name"@));
    }
    let name = match decode_opt_str_field(name_field) {
        Option::Some(v) => v,
        Option::None => {
            return Option::None;
        },
    };
    let created_at = match lookup(pairs, "created_at") {
        Option::Some(Json::UInt(v)) => *v,
        _ => {
            return Option::None;
        },
    };
    let model_field = lookup(pairs, "model");
    proof {
        assert(opt_json_deref(model_field) == spec_lookup(pairs@, "model"@));
    }
    let model = match decode_opt_str_field(model_field) {
        Option::Some(v) => v,
        Option::None => {
            return Option::None;
        },
    };
    let status = match lookup(pairs, "status") {
        Option::None => ConnectionStatus::Unknown,
        Option::Some(f) => match decode_status(f) {
            Option::Some(st) => st,
            Option::None => {
                return Option::None;
            },
        },
    };
    let last_checked = match lookup(pairs, "last_checked") {
        Option::None => 0,
        Option::Some(Json::UInt(v)) => *v,
        Option::Some(_) => {
            return Option::None;
        },
    };
    Option::Some(
        SavedConnection {
            id,
            host,
            port,
            password,
            name,
            created_at,
            model,
            status,
            last_checked,
        },
    )
}

fn decode_config(j: &Json) -> (r: Option<RemoteServerConfig>)
    ensures
        r matches Some(c) ==> config_decodes(*j, c),
        r is None ==> forall|c: RemoteServerConfig| !#[trigger] config_decodes(*j, c),
{
    let pairs = match j {
        Json::Obj(pairs) => pairs,
        _ => {
            return Option::None;
        },
    };
    let port = match lookup(pairs, "port") {
        Option::Some(Json::UInt(v)) => {
            if *v > 65535 {
                return Option::None;
            }
            *v as u16
        },
        _ => {
            return Option::None;
        },
    };
    let password_field = lookup(pairs, "password");
    proof {
        assert(opt_json_deref(password_field) == spec_lookup(pairs@, "password"@));
    }
    let password = match decode_opt_str_field(password_field) {
        Option::Some(v) => v,
        Option::None => {
            return Option::None;
        },
    };
    let enabled = match lookup(pairs, "enabled") {
        Option::Some(Json::Bool(v)) => *v,
        _ => {
            return Option::None;
        },
    };
    Option::Some(RemoteServerConfig { port, password, enabled })
}

fn decode_conns(items: &Vec<Json>) -> (r: Result<Vec<SavedConnection>, usize>)
    ensures
        r matches Ok(cs) ==> cs@.len() == items@.len() && (forall|k: int|
            0 <= k < items@.len() ==> conn_decodes(#[trigger] items@[k], cs@[k])),
        r matches Err(i) ==> i < items@.len() && (forall|c: SavedConnection| !conn_decodes(
            items@[i as int],
            c,
        )),
{
    let n = items.len();
    let mut conns: Vec<SavedConnection> = Vec::new();
    let mut i: usize = 0;
    while i < n
        invariant
            n == items@.len(),
            i <= n,
            conns@.len() == i,
            forall|k: int| 0 <= k < i ==> conn_decodes(#[trigger] items@[k], conns@[k]),
        decreases n - i,
    {
        match decode_conn(&items[i]) {
            Option::Some(c) => {
                conns.push(c);
            },
            Option::None => {
                return Result::Err(i);
            },
        }
        i += 1;
    }
    Result::Ok(conns)
}

/// Decode a persisted JSON document back into settings, in any key
/// order, ignoring unknown keys and defaulting the optional fields.
/// Exactly the documents some settings value decodes from decode; the
/// caller falls back to the default settings otherwise.
pub fn settings_from_json(j: &Json) -> (r: Option<RemoteSettings>)
    ensures
        r matches Some(s) ==> settings_decodes(*j, s),
        r is None ==> forall|s: RemoteSettings| !#[trigger] settings_decodes(*j, s),
{
    let pairs = match j {
        Json::Obj(pairs) => pairs,
        _ => {
            return Option::None;
        },
    };
    let server_config = match lookup(pairs, "server_config") {
        Option::Some(f) => match decode_config(f) {
            Option::Some(c) => c,
            Option::None => {
                return Option::None;
            },
        },
        Option::None => {
            return Option::None;
        },
    };
    let items = match lookup(pairs, "saved_connections") {
        Option::Some(Json::Arr(items)) => items,
        _ => {
            return Option::None;
        },
    };
    let conns = match decode_conns(items) {
        Result::Ok(cs) => cs,
        Result::Err(bad) => {
            proof {
                let its = spec_lookup(j->Obj_0@, "saved_connections"@)->Some_0->Arr_0;
                assert(its == *items);
                assert forall|s: RemoteSettings| !#[trigger] settings_decodes(*j, s) by {
                    if settings_decodes(*j, s) {
                        assert(conn_decodes(its@[bad as int], s.saved_connections@[bad as int]));
                        assert(!conn_decodes(
                            items@[bad as int],
                            s.saved_connections@[bad as int],
                        ));
                    }
                }
            }
            return Option::None;
        },
    };
    let active_field = lookup(pairs, "active_connection_id");
    proof {
        assert(opt_json_deref(active_field) == spec_lookup(pairs@, "active_connection_id"@));
    }
    let active_connection_id = match decode_opt_str_field(active_field) {
        Option::Some(v) => v,
        Option::None => {
            return Option::None;
        },
    };
    let sharing_was_active = match lookup(pairs, "sharing_was_active") {
        Option::None => false,
        Option::Some(Json::Bool(v)) => *v,
        Option::Some(_) => {
            return Option::None;
        },
    };
    Option::Some(
        RemoteSettings {
            server_config,
            saved_connections: conns,
            active_connection_id,
            sharing_was_active,
        },
    )
}

/// Two optional strings with equal encodings agree.
pub open spec fn opt_str_equiv(a: Option<String>, b: Option<String>) -> bool {
    match (a, b) {
        (Option::None, Option::None) => true,
        (Option::Some(x), Option::Some(y)) => x@ == y@,
        _ => false,
    }
}

/// Two connections an entry decodes to agree in every field.
pub open spec fn conns_equiv(a: SavedConnection, b: SavedConnection) -> bool {
    a.id@ == b.id@ && a.host@ == b.host@ && a.port == b.port && opt_str_equiv(a.password, b.password)
        && opt_str_equiv(a.name, b.name) && a.created_at == b.created_at && opt_str_equiv(
        a.model,
        b.model,
    ) && a.status == b.status && a.last_checked == b.last_checked
}

/// Distinct connection statuses have distinct wire names.
pub proof fn lemma_status_name_injective(a: ConnectionStatus, b: ConnectionStatus)
    requires
        spec_status_name(a) == spec_status_name(b),
    ensures
        a == b,
{
    reveal_strlit("Unknown");
    reveal_strlit("Online");
    reveal_strlit("Offline");
    reveal_strlit("AuthFailed");
    reveal_strlit("SelfConnection");
    assert(("Unknown"@).len() == 7);
    assert(("Online"@).len() == 6);
    assert(("Offline"@).len() == 7);
    assert(("AuthFailed"@).len() == 10);
    assert(("SelfConnection"@).len() == 14);
    assert(("Unknown"@)[0] == 'U');
    assert(("Offline"@)[0] == 'O');
}

/// A canonically encoded connection entry also decodes, to the same
/// connection: each key of the canonical order is found by lookup.
pub proof fn lemma_conn_encoding_decodes(j: Json, c: SavedConnection)
    requires
        conn_encoded(j, c),
    ensures
        conn_decodes(j, c),
{
    reveal_strlit("id");
    reveal_strlit("host");
    reveal_strlit("port");
    reveal_strlit("password");
    reveal_strlit("name");
    reveal_strlit("created_at");
    reveal_strlit("model");
    reveal_strlit("status");
    reveal_strlit("last_checked");
    assert(("id"@).len() == 2);
    assert(("host"@).len() == 4);
    assert(("port"@).len() == 4);
    assert(("password"@).len() == 8);
    assert(("name"@).len() == 4);
    assert(("created_at"@).len() == 10);
    assert(("model"@).len() == 5);
    assert(("status"@).len() == 6);
    assert(("last_checked"@).len() == 12);
    assert(("host"@)[0] == 'h');
    assert(("port"@)[0] == 'p');
    assert(("name"@)[0] == 'n');
    let pairs = j->Obj_0;
    reveal_with_fuel(spec_lookup, 10);
    assert(pairs@.skip(0) =~= pairs@);
    assert forall|k: int| 0 <= k < 9 implies #[trigger] pairs@.skip(k).drop_first() =~= pairs@.skip(
        k + 1,
    ) by {
    }
    assert(spec_lookup(pairs@, "id"@) == Option::Some(pairs@[0].1));
    assert(spec_lookup(pairs@, "host"@) == Option::Some(pairs@[1].1));
    assert(spec_lookup(pairs@, "port"@) == Option::Some(pairs@[2].1));
    assert(spec_lookup(pairs@, "password"@) == Option::Some(pairs@[3].1));
    assert(spec_lookup(pairs@, "name"@) == Option::Some(pairs@[4].1));
    assert(spec_lookup(pairs@, "created_at"@) == Option::Some(pairs@[5].1));
    assert(spec_lookup(pairs@, "model"@) == Option::Some(pairs@[6].1));
    assert(spec_lookup(pairs@, "status"@) == Option::Some(pairs@[7].1));
    assert(spec_lookup(pairs@, "last_checked"@) == Option::Some(pairs@[8].1));
}

/// A canonically encoded configuration also decodes, to the same
/// configuration.
pub proof fn lemma_config_encoding_decodes(j: Json, c: RemoteServerConfig)
    requires
        config_encoded(j, c),
    ensures
        config_decodes(j, c),
{
    reveal_strlit("port");
    reveal_strlit("password");
    reveal_strlit("enabled");
    assert(("port"@).len() == 4);
    assert(("password"@).len() == 8);
    assert(("enabled"@).len() == 7);
    let pairs = j->Obj_0;
    reveal_with_fuel(spec_lookup, 4);
    assert(pairs@.skip(0) =~= pairs@);
    assert forall|k: int| 0 <= k < 3 implies #[trigger] pairs@.skip(k).drop_first() =~= pairs@.skip(
        k + 1,
    ) by {
    }
    assert(spec_lookup(pairs@, "port"@) == Option::Some(pairs@[0].1));
    assert(spec_lookup(pairs@, "password"@) == Option::Some(pairs@[1].1));
    assert(spec_lookup(pairs@, "enabled"@) == Option::Some(pairs@[2].1));
}

/// A canonically encoded settings document also decodes, to the same
/// settings: the tolerant reader accepts everything the writer emits.
pub proof fn lemma_settings_encoding_decodes(j: Json, s: RemoteSettings)
    requires
        settings_encoded(j, s),
    ensures
        settings_decodes(j, s),
{
    reveal_strlit("server_config");
    reveal_strlit("saved_connections");
    reveal_strlit("active_connection_id");
    reveal_strlit("sharing_was_active");
    assert(("server_config"@).len() == 13);
    assert(("saved_connections"@).len() == 17);
    assert(("active_connection_id"@).len() == 20);
    assert(("sharing_was_active"@).len() == 18);
    let pairs = j->Obj_0;
    reveal_with_fuel(spec_lookup, 5);
    assert(pairs@.skip(0) =~= pairs@);
    assert forall|k: int| 0 <= k < 4 implies #[trigger] pairs@.skip(k).drop_first() =~= pairs@.skip(
        k + 1,
    ) by {
    }
    assert(spec_lookup(pairs@, "server_config"@) == Option::Some(pairs@[0].1));
    assert(spec_lookup(pairs@, "saved_connections"@) == Option::Some(pairs@[1].1));
    assert(spec_lookup(pairs@, "active_connection_id"@) == Option::Some(pairs@[2].1));
    assert(spec_lookup(pairs@, "sharing_was_active"@) == Option::Some(pairs@[3].1));
    lemma_config_encoding_decodes(pairs@[0].1, s.server_config);
    let items = pairs@[1].1->Arr_0;
    assert forall|k: int| 0 <= k < items@.len() implies conn_decodes(
        #[trigger] items@[k],
        s.saved_connections@[k],
    ) by {
        lemma_conn_encoding_decodes(items@[k], s.saved_connections@[k]);
    }
}

/// The round trip: a settings value, once encoded, decodes back to a
/// value that agrees with it in every observable part.  Encoding is a
/// document that decodes (`lemma_settings_encoding_decodes`), and any
/// two values one document decodes to agree, field by field.
pub proof fn lemma_settings_encoding_roundtrip(j: Json, s: RemoteSettings, t: RemoteSettings)
    requires
        settings_decodes(j, s),
        settings_decodes(j, t),
    ensures
        s.server_config.port == t.server_config.port,
        opt_str_equiv(s.server_config.password, t.server_config.password),
        s.server_config.enabled == t.server_config.enabled,
        s.saved_connections@.len() == t.saved_connections@.len(),
        forall|k: int|
            0 <= k < s.saved_connections@.len() ==> conns_equiv(
                #[trigger] s.saved_connections@[k],
                t.saved_connections@[k],
            ),
        opt_str_equiv(s.active_connection_id, t.active_connection_id),
        s.sharing_was_active == t.sharing_was_active,
{
    let pairs = j->Obj_0;
    let items = spec_lookup(pairs@, "saved_connections"@)->Some_0->Arr_0;
    assert forall|k: int| 0 <= k < s.saved_connections@.len() implies conns_equiv(
        #[trigger] s.saved_connections@[k],
        t.saved_connections@[k],
    ) by {
        assert(conn_decodes(items@[k], s.saved_connections@[k]));
        assert(conn_decodes(items@[k], t.saved_connections@[k]));
        let st = s.saved_connections@[k].status;
        let tt = t.saved_connections@[k].status;
        if spec_lookup(items@[k]->Obj_0@, "status"@) is Some {
            lemma_status_name_injective(st, tt);
        }
    }
}

} // verus!
