//! Decision cores of the remote-transcription commands: starting and
//! stopping sharing, the mutual exclusion between sharing and an
//! active remote connection, registry updates driven by probes, the
//! classification of client responses, and the local-address display.

use vstd::prelude::*;
use vstd::string::*;

use crate::remote::client::spec_host_port;
use crate::remote::lifecycle::InterfaceIp;
use crate::remote::lifecycle::Ipv4Address;
use crate::remote::lifecycle::NetInterface;
use crate::remote::lifecycle::spec_ipv4_str;
use crate::remote::server::StatusResponse;
use crate::remote::settings::ConnectionStatus;
use crate::remote::settings::RemoteSettings;
use crate::remote::settings::SavedConnection;
use crate::remote::settings::current_timestamp;
use crate::remote::settings::has_conn;
use crate::remote::settings::spec_active_after_remove;
use crate::remote::settings::spec_conn_not_found_msg;
use crate::remote::settings::spec_connections_without;
use crate::remote::settings::spec_first_conn_idx;
use crate::text::spec_dec_seq;
use crate::text::u64_to_string;
use crate::whisper::manager::WhisperManager;
use vstd::utf8::encode_utf8;

verus! {

/// Default port for remote transcription.
pub const DEFAULT_PORT: u16 = 47842;

/// Mark sharing as enabled on this port, with this password, so it
/// auto-starts on the next launch.
pub fn record_sharing_started(settings: &mut RemoteSettings, port: u16, password: Option<String>)
    ensures
        final(settings).server_config.enabled,
        final(settings).server_config.port == port,
        final(settings).server_config.password == password,
        final(settings).saved_connections@ == old(settings).saved_connections@,
        final(settings).active_connection_id == old(settings).active_connection_id,
        final(settings).sharing_was_active == old(settings).sharing_was_active,
{
    settings.server_config.enabled = true;
    settings.server_config.port = port;
    settings.server_config.password = password;
}

/// Mark sharing as disabled.
pub fn record_sharing_stopped(settings: &mut RemoteSettings)
    ensures
        !final(settings).server_config.enabled,
        final(settings).server_config.port == old(settings).server_config.port,
        final(settings).server_config.password == old(settings).server_config.password,
        final(settings).saved_connections@ == old(settings).saved_connections@,
        final(settings).active_connection_id == old(settings).active_connection_id,
        final(settings).sharing_was_active == old(settings).sharing_was_active,
{
    settings.server_config.enabled = false;
}

/// The server name to announce: the one the caller provided, else the
/// machine's hostname, else a fixed default.
pub fn resolve_server_name(provided: Option<String>, hostname: Option<String>) -> (r: String)
    ensures
        provided matches Some(p) ==> r == p,
        provided is None ==> match hostname {
            Option::Some(h) => r == h,
            Option::None => r@ == "VoiceTypr Server"@,
        },
{
    match provided {
        Option::Some(p) => p,
        Option::None => match hostname {
            Option::Some(h) => h,
            Option::None => "VoiceTypr Server".to_owned(),
        },
    }
}

/// What the runtime must do about the sharing server after the active
/// remote connection changed.
#[derive(Debug, Clone, PartialEq)]
pub enum SharingTransition {
    /// Leave the server as it is.
    Keep,
    /// Stop the sharing server: a remote connection takes over.
    StopSharing,
    /// Restart the sharing server that was auto-disabled earlier.
    RestoreSharing { port: u16, password: Option<String> },
}

/// Decide the active-remote-server change: selecting a server while
/// sharing runs stops sharing and remembers it for restoration;
/// clearing the selection while that memory is set restores sharing
/// on the stored port.  A selection naming an unknown id is rejected;
/// sharing is still stopped first, before the id is validated.
pub fn set_active_server_transition(
    settings: &mut RemoteSettings,
    server_id: Option<String>,
    sharing_enabled: bool,
    stored_port: Option<u16>,
    stored_password: Option<String>,
) -> (r: Result<SharingTransition, String>)
    ensures
        final(settings).server_config == old(settings).server_config,
        final(settings).saved_connections@ == old(settings).saved_connections@,
        match server_id {
            Option::Some(cid) => {
                let flagged = old(settings).sharing_was_active || sharing_enabled;
                if has_conn(old(settings).saved_connections@, cid@) {
                    &&& r == Result::<SharingTransition, String>::Ok(
                        if sharing_enabled {
                            SharingTransition::StopSharing
                        } else {
                            SharingTransition::Keep
                        },
                    )
                    &&& final(settings).active_connection_id == Option::Some(cid)
                    &&& final(settings).sharing_was_active == flagged
                } else {
                    &&& (r matches Err(m) && m@ == spec_conn_not_found_msg(cid@))
                    &&& final(settings).active_connection_id == old(
                        settings,
                    ).active_connection_id
                    &&& final(settings).sharing_was_active == flagged
                }
            },
            Option::None => {
                &&& final(settings).active_connection_id is None
                &&& !final(settings).sharing_was_active
                &&& r == Result::<SharingTransition, String>::Ok(
                    if old(settings).sharing_was_active {
                        SharingTransition::RestoreSharing {
                            port: match stored_port {
                                Option::Some(p) => p,
                                Option::None => DEFAULT_PORT,
                            },
                            password: stored_password,
                        }
                    } else {
                        SharingTransition::Keep
                    },
                )
            },
        },
{
    match server_id {
        Option::Some(cid) => {
            let action = if sharing_enabled {
                settings.sharing_was_active = true;
                SharingTransition::StopSharing
            } else {
                SharingTransition::Keep
            };
            match settings.set_active_connection(Option::Some(cid)) {
                Result::Ok(()) => Result::Ok(action),
                Result::Err(m) => Result::Err(m),
            }
        },
        Option::None => {
            let restore = settings.sharing_was_active;
            let res = settings.set_active_connection(Option::None);
            proof {
                assert(res is Ok);
            }
            if restore {
                settings.sharing_was_active = false;
                Result::Ok(
                    SharingTransition::RestoreSharing {
                        port: match stored_port {
                            Option::Some(p) => p,
                            Option::None => DEFAULT_PORT,
                        },
                        password: stored_password,
                    },
                )
            } else {
                Result::Ok(SharingTransition::Keep)
            }
        },
    }
}

/// Choose the model a sharing server announces: the stored selection,
/// or the best downloaded model when nothing is selected; for the
/// whisper engine the model must be downloaded and its path is
/// served, other engines resolve their model at transcription time.
pub fn choose_shared_model(stored_model: &str, stored_engine: String, whisper: &WhisperManager)
    -> (r: Result<(String, String, String), String>)
    ensures
        stored_model@.len() == 0 && !(exists|i: int|
            0 <= i < whisper.models@.len() && whisper.models@[i].downloaded) ==> (r matches Err(m)
            && m@ == "No model downloaded. Please download a model first."@),
        r matches Ok(t) ==> t.2 == stored_engine && (stored_model@.len() > 0 ==> t.0@
            == stored_model@) && (stored_engine@ != "whisper"@ ==> t.1@.len() == 0) && (
        stored_engine@ == "whisper"@ ==> (
        crate::whisper::manager::spec_get_model(whisper.models@, t.0@) matches Some(m)
            && m.downloaded && t.1@ == crate::whisper::manager::spec_model_path(
            whisper.models_dir@,
            t.0@,
        ))),
        stored_model@.len() > 0 && stored_engine@ == "whisper"@ && !(
        crate::whisper::manager::spec_get_model(whisper.models@, stored_model@) matches Some(m)
            && m.downloaded && crate::whisper::manager::spec_safe_model_name(
            stored_model.spec_bytes(),
        )) ==> (r matches Err(msg) && msg@ == "Model '"@ + stored_model@
            + "' not found or not downloaded"@),
        stored_model@.len() > 0 && stored_engine@ != "whisper"@ ==> r is Ok,
        stored_model@.len() > 0 && stored_engine@ == "whisper"@ && (
        crate::whisper::manager::spec_get_model(whisper.models@, stored_model@) matches Some(m)
            && m.downloaded) && crate::whisper::manager::spec_safe_model_name(
            stored_model.spec_bytes(),
        ) ==> r is Ok,
        stored_model@.len() == 0 && stored_engine@ != "whisper"@ && (exists|i: int|
            0 <= i < whisper.models@.len() && whisper.models@[i].downloaded) ==> r is Ok,
        stored_model@.len() == 0 ==> match r {
            Result::Ok(t) => exists|i: int|
                0 <= i < whisper.models@.len() && #[trigger] whisper.models@[i].downloaded && t.0
                    == whisper.models@[i].name && (forall|k: int|
                    0 <= k < whisper.models@.len() && whisper.models@[k].downloaded
                        ==> crate::whisper::manager::spec_selection_key(whisper.models@[k])
                        <= crate::whisper::manager::spec_selection_key(whisper.models@[i])),
            Result::Err(_) => true,
        },
        stored_model@.len() == 0 && stored_engine@ == "whisper"@ && (exists|i: int|
            0 <= i < whisper.models@.len() && whisper.models@[i].downloaded) && (forall|i: int|
            0 <= i < whisper.models@.len() && #[trigger] whisper.models@[i].downloaded ==> {
                &&& crate::whisper::manager::spec_safe_model_name(
                    encode_utf8(whisper.models@[i].name@),
                )
                &&& (crate::whisper::manager::spec_get_model(
                    whisper.models@,
                    whisper.models@[i].name@,
                ) matches Some(f) && f.downloaded)
            }) ==> r is Ok,
{
    let model_name: String = if stored_model.is_empty() {
        match whisper.get_first_downloaded_model() {
            Option::Some(name) => name,
            Option::None => {
                return Result::Err(
                    "No model downloaded. Please download a model first.".to_owned(),
                );
            },
        }
    } else {
        stored_model.to_owned()
    };
    let is_whisper = stored_engine.eq(&"whisper".to_owned());
    let path: String = if is_whisper {
        proof {
            crate::whisper::manager::lemma_get_model_some(whisper.models@, model_name@);
        }
        match whisper.get_model_path(model_name.as_str()) {
            Option::Some(p) => p,
            Option::None => {
                let mut m = String::new();
                m.append("Model '");
                m.append(model_name.as_str());
                m.append("' not found or not downloaded");
                assert(m@ =~= "Model '"@ + model_name@ + "' not found or not downloaded"@);
                return Result::Err(m);
            },
        }
    } else {
        String::new()
    };
    Result::Ok((model_name, path, stored_engine))
}

/// Add a server to the registry, using what a probe of it reported:
/// the probe's server name stands in for a missing custom name and
/// its model is cached; an unreachable server is still added, under
/// `host:port`, with no cached model.
pub fn add_server_with_probe(
    settings: &mut RemoteSettings,
    host: String,
    port: u16,
    password: Option<String>,
    name: Option<String>,
    probe: Option<StatusResponse>,
) -> (r: SavedConnection)
    ensures
        final(settings).saved_connections@ == old(settings).saved_connections@.push(r),
        !has_conn(old(settings).saved_connections@, r.id@),
        r.host == host,
        r.port == port,
        r.password == password,
        r.status == ConnectionStatus::Unknown,
        match probe {
            Option::Some(st) => r.model == Option::Some(st.model) && r.name == Option::Some(
                match name {
                    Option::Some(n) => n,
                    Option::None => st.name,
                },
            ),
            Option::None => r.model is None && (r.name matches Some(dn) && dn@ == (match name {
                Option::Some(n) => n@,
                Option::None => spec_host_port(host@, port),
            })),
        },
        final(settings).server_config == old(settings).server_config,
        final(settings).active_connection_id == old(settings).active_connection_id,
        final(settings).sharing_was_active == old(settings).sharing_was_active,
{
    match probe {
        Option::Some(st) => {
            let display_name = match name {
                Option::Some(n) => n,
                Option::None => st.name,
            };
            settings.add_connection_with_model(
                host,
                port,
                password,
                Option::Some(display_name),
                Option::Some(st.model),
            )
        },
        Option::None => {
            let display_name = match name {
                Option::Some(n) => n,
                Option::None => {
                    let mut dn = String::new();
                    dn.append(host.as_str());
                    dn.append(":");
                    dn.append(u64_to_string(port as u64).as_str());
                    assert(dn@ =~= spec_host_port(host@, port));
                    dn
                },
            };
            settings.add_connection_with_model(
                host,
                port,
                password,
                Option::Some(display_name),
                Option::None,
            )
        },
    }
}

/// Replace a saved server's address and credentials, keeping its id:
/// the old entry is removed and a fresh one with the same id is
/// appended; a probe's model is cached, else the old cached model is
/// kept.  An unknown id is rejected and nothing changes.
pub fn update_server_with_probe(
    settings: &mut RemoteSettings,
    server_id: &str,
    host: String,
    port: u16,
    password: Option<String>,
    name: Option<String>,
    probe: Option<StatusResponse>,
) -> (r: Result<SavedConnection, String>)
    ensures
        !has_conn(old(settings).saved_connections@, server_id@) ==> *final(settings) == *old(
            settings,
        ) && (r matches Err(m) && m@ == spec_conn_not_found_msg(server_id@)),
        has_conn(old(settings).saved_connections@, server_id@) ==> (r matches Ok(c) && {
            &&& final(settings).saved_connections@ == spec_connections_without(
                old(settings).saved_connections@,
                server_id@,
            ).push(c)
            &&& c.id@ == server_id@
            &&& c.host == host
            &&& c.port == port
            &&& c.password == password
            &&& c.status == ConnectionStatus::Unknown
            &&& (c.name matches Some(dn) && dn@ == (match name {
                Option::Some(n) => n@,
                Option::None => spec_host_port(host@, port),
            }))
            &&& final(settings).active_connection_id == spec_active_after_remove(
                old(settings).active_connection_id,
                server_id@,
            )
            &&& final(settings).server_config == old(settings).server_config
            &&& final(settings).sharing_was_active == old(settings).sharing_was_active
        }),
{
    let existing_model = match settings.get_connection(server_id) {
        Option::Some(c) => match &c.model {
            Option::Some(m) => Option::Some(m.clone()),
            Option::None => Option::None,
        },
        Option::None => {
            proof {
                crate::remote::settings::lemma_get_conn_some(
                    settings.saved_connections@,
                    server_id@,
                );
            }
            return Result::Err(crate::remote::settings::conn_not_found_msg(server_id));
        },
    };
    proof {
        crate::remote::settings::lemma_get_conn_some(settings.saved_connections@, server_id@);
    }
    let model = match probe {
        Option::Some(st) => Option::Some(st.model),
        Option::None => existing_model,
    };
    match settings.remove_connection(server_id) {
        Result::Ok(()) => {},
        Result::Err(m) => {
            return Result::Err(m);
        },
    }
    let display_name = match name {
        Option::Some(n) => n,
        Option::None => {
            let mut dn = String::new();
            dn.append(host.as_str());
            dn.append(":");
            dn.append(u64_to_string(port as u64).as_str());
            assert(dn@ =~= spec_host_port(host@, port));
            dn
        },
    };
    let updated = SavedConnection {
        id: server_id.to_owned(),
        host,
        port,
        password,
        name: Option::Some(display_name),
        created_at: current_timestamp(),
        model,
        status: ConnectionStatus::Unknown,
        last_checked: 0,
    };
    let r = updated.clone();
    settings.saved_connections.push(updated);
    Result::Ok(r)
}

/// A client-side error classified from the response status: an
/// authentication failure reads differently from a server error, so
/// the UI can tell "wrong password" from "unreachable".
pub fn classify_response_status(status: u16) -> (r: Option<String>)
    ensures
        status == 401 ==> (r matches Some(m) && m@ == "Authentication failed"@),
        200 <= status <= 299 ==> r is None,
        !(200 <= status <= 299) && status != 401 ==> (r matches Some(m) && m@ == "Server error: "@
            + spec_dec_seq(status as int)),
{
    if status == 401 {
        return Option::Some("Authentication failed".to_owned());
    }
    if 200 <= status && status <= 299 {
        return Option::None;
    }
    let mut m = String::new();
    m.append("Server error: ");
    m.append(u64_to_string(status as u64).as_str());
    assert(m@ =~= "Server error: "@ + spec_dec_seq(status as int));
    Option::Some(m)
}

/// The body text parses as a JSON document; a function of the text
/// alone.
pub uninterp spec fn spec_json_parses(body: Seq<char>) -> bool;

/// Relies on serde_json::from_str::<serde_json::Value>: parses a JSON
/// document, or reports the parse error under this wrapper's own
/// fixed message prefix.
#[verifier::external_body]
fn parse_json(body: &str) -> (r: Result<serde_json::Value, String>)
    ensures
        (r is Ok) == spec_json_parses(body@),
        r matches Err(m) ==> m@.len() >= 26 && m@.subrange(0, 26)
            == "Failed to parse response: "@,
{
    serde_json::from_str(body).map_err(|e| format!("Failed to parse response: {}", e))
}

#[verifier::external_type_specification]
#[verifier::external_body]
pub struct ExJsonValue(serde_json::Value);

/// The string under `key` when `body` decodes as a JSON object whose
/// `key` field is a string; nothing otherwise.  A function of the two
/// texts alone.
pub uninterp spec fn spec_str_field(body: Seq<char>, key: Seq<char>) -> Option<Seq<char>>;

/// Relies on serde_json::from_str::<serde_json::Value>, Value::get
/// and Value::as_str: the string field a JSON body carries under a
/// key, which depends on the two texts alone.
#[verifier::external_body]
fn str_field(body: &str, key: &str) -> (r: Option<String>)
    ensures
        r matches Some(s) ==> spec_str_field(body@, key@) == Some(s@),
        r is None ==> spec_str_field(body@, key@) is None,
{
    let parsed: serde_json::Value = match serde_json::from_str(body) {
        Ok(v) => v,
        Err(_) => return None,
    };
    match parsed.get(key) {
        Some(field) => match field.as_str() {
            Some(s) => Some(s.to_string()),
            None => None,
        },
        None => None,
    }
}

/// Interpret a transcribe response: a 401 is an authentication
/// failure, any other non-success status a server error with its
/// code; a success body must decode as JSON carrying a string `text`
/// field, which is the transcription, else the response violates the
/// protocol.
pub fn interpret_transcribe_response(status: u16, body: &str) -> (r: Result<String, String>)
    ensures
        status == 401 ==> (r matches Err(m) && m@ == "Authentication failed"@),
        !(200 <= status <= 299) && status != 401 ==> (r matches Err(m) && m@ == "Server error: "@
            + spec_dec_seq(status as int)),
        200 <= status <= 299 ==> match spec_str_field(body@, "text"@) {
            Option::Some(t) => r matches Ok(s) && s@ == t,
            Option::None => r matches Err(m) && (if spec_json_parses(body@) {
                m@ == "Invalid response: missing 'text' field"@
            } else {
                m@.len() >= 26 && m@.subrange(0, 26) == "Failed to parse response: "@
            }),
        },
{
    match classify_response_status(status) {
        Option::Some(err) => Result::Err(err),
        Option::None => match str_field(body, "text") {
            Option::Some(t) => Result::Ok(t),
            Option::None => match parse_json(body) {
                Result::Ok(_) => Result::Err(
                    "Invalid response: missing 'text' field".to_owned(),
                ),
                Result::Err(m) => Result::Err(m),
            },
        },
    }
}

/// Interpret a status-probe response: a 401 is an authentication
/// failure, any other non-success status a server error with its
/// code; a success body must decode as JSON carrying the four string
/// fields of a status report, which are returned exactly.
pub fn interpret_status_response(status: u16, body: &str) -> (r: Result<StatusResponse, String>)
    ensures
        status == 401 ==> (r matches Err(m) && m@ == "Authentication failed"@),
        !(200 <= status <= 299) && status != 401 ==> (r matches Err(m) && m@ == "Server error: "@
            + spec_dec_seq(status as int)),
        200 <= status <= 299 ==> match (
            spec_str_field(body@, "status"@),
            spec_str_field(body@, "version"@),
            spec_str_field(body@, "model"@),
            spec_str_field(body@, "name"@),
        ) {
            (Option::Some(st), Option::Some(ver), Option::Some(mo), Option::Some(na)) => (
            r matches Ok(resp) && resp.status@ == st && resp.version@ == ver && resp.model@ == mo
                && resp.name@ == na),
            _ => r matches Err(m) && (if spec_json_parses(body@) {
                m@ == "Failed to parse response: invalid status body"@
            } else {
                m@.len() >= 26 && m@.subrange(0, 26) == "Failed to parse response: "@
            }),
        },
{
    match classify_response_status(status) {
        Option::Some(err) => Result::Err(err),
        Option::None => {
            let st = str_field(body, "status");
            let version = str_field(body, "version");
            let model = str_field(body, "model");
            let name = str_field(body, "name");
            match (st, version, model, name) {
                (
                    Option::Some(status_text),
                    Option::Some(version),
                    Option::Some(model),
                    Option::Some(name),
                ) => Result::Ok(StatusResponse { status: status_text, version, model, name }),
                _ => match parse_json(body) {
                    Result::Ok(_) => Result::Err(
                        "Failed to parse response: invalid status body".to_owned(),
                    ),
                    Result::Err(m) => Result::Err(m),
                },
            }
        },
    }
}

/// One registry entry after a cached-model refresh: either untouched,
/// or, for the probed id, the same entry with the new cached model.
pub open spec fn spec_model_refreshed(
    o: SavedConnection,
    c: SavedConnection,
    model: String,
    id: Seq<char>,
) -> bool {
    c == o || (c.id == o.id && c.host == o.host && c.port == o.port && c.password == o.password
        && c.name == o.name && c.created_at == o.created_at && c.status == o.status
        && c.last_checked == o.last_checked && c.model == Option::Some(model) && o.id@ == id)
}

/// The cached model already names what a probe reported.
pub open spec fn spec_model_matches(cached: Option<String>, probed: String) -> bool {
    match cached {
        Option::Some(x) => x@ == probed@,
        Option::None => false,
    }
}

/// Refresh a saved server's cached model from a fresh probe.  Reports
/// whether the cached model changed: true exactly when the id names a
/// saved connection whose cached model differs from the probed one,
/// and then that connection caches the probed model afterwards; the
/// registry is untouched otherwise.
pub fn refresh_cached_model(settings: &mut RemoteSettings, server_id: &str, probed_model: &String)
    -> (r: bool)
    ensures
        final(settings).server_config == old(settings).server_config,
        final(settings).active_connection_id == old(settings).active_connection_id,
        final(settings).sharing_was_active == old(settings).sharing_was_active,
        final(settings).saved_connections@.len() == old(settings).saved_connections@.len(),
        !r ==> final(settings).saved_connections@ == old(settings).saved_connections@,
        forall|k: int|
            0 <= k < old(settings).saved_connections@.len() ==> spec_model_refreshed(
                old(settings).saved_connections@[k],
                final(settings).saved_connections@[k],
                *probed_model,
                server_id@,
            ),
        r == (has_conn(old(settings).saved_connections@, server_id@) && !spec_model_matches(
            old(settings).saved_connections@[spec_first_conn_idx(
                old(settings).saved_connections@,
                server_id@,
            )].model,
            *probed_model,
        )),
        r ==> spec_model_matches(
            final(settings).saved_connections@[spec_first_conn_idx(
                old(settings).saved_connections@,
                server_id@,
            )].model,
            *probed_model,
        ),
{
    let owned = server_id.to_owned();
    let n = settings.saved_connections.len();
    let mut i: usize = 0;
    while i < n
        invariant
            n == settings.saved_connections@.len(),
            i <= n,
            owned@ == server_id@,
            *settings == *old(settings),
            forall|k: int| 0 <= k < i ==> settings.saved_connections@[k].id@ != server_id@,
        decreases n - i,
    {
        if settings.saved_connections[i].id.eq(&owned) {
            proof {
                crate::remote::settings::lemma_first_idx_at(
                    settings.saved_connections@,
                    server_id@,
                    i as int,
                );
            }
            let changed = match &settings.saved_connections[i].model {
                Option::Some(m) => !m.eq(probed_model),
                Option::None => true,
            };
            if changed {
                let o = settings.saved_connections[i].clone();
                settings.saved_connections[i] = SavedConnection {
                    id: o.id,
                    host: o.host,
                    port: o.port,
                    password: o.password,
                    name: o.name,
                    created_at: o.created_at,
                    model: Option::Some(probed_model.clone()),
                    status: o.status,
                    last_checked: o.last_checked,
                };
            }
            return changed;
        }
        i += 1;
    }
    proof {
        crate::remote::settings::lemma_has_conn_exists(settings.saved_connections@, server_id@);
    }
    false
}

/// The displayed form of one interface: `a.b.c.d (name)`.
pub open spec fn spec_ip_display(ip: Ipv4Address, name: Seq<char>) -> Seq<char> {
    spec_ipv4_str(ip) + " ("@ + name + ")"@
}

/// The displayable interfaces, in order: IPv4, not loopback, not
/// link-local.
pub open spec fn spec_displayable_ips(ifs: Seq<NetInterface>) -> Seq<Seq<char>>
    decreases ifs.len(),
{
    if ifs.len() == 0 {
        Seq::empty()
    } else {
        spec_displayable_ips(ifs.drop_last()) + (match ifs.last().ip {
            InterfaceIp::V4(ip) => if !ip.spec_is_loopback() && !ip.spec_is_link_local() {
                seq![spec_ip_display(ip, ifs.last().name@)]
            } else {
                Seq::<Seq<char>>::empty()
            },
            InterfaceIp::V6 => Seq::<Seq<char>>::empty(),
        })
    }
}

/// The views of rendered strings.
pub open spec fn spec_string_views(strs: Seq<String>) -> Seq<Seq<char>> {
    strs.map_values(|s: String| s@)
}

/// Format the local addresses for the sharing UI: every IPv4,
/// non-loopback, non-link-local interface as `a.b.c.d (name)`, or a
/// single notice when the machine has none.
pub fn format_local_ips(interfaces: &Vec<NetInterface>) -> (r: Vec<String>)
    ensures
        spec_displayable_ips(interfaces@).len() > 0 ==> spec_string_views(r@)
            == spec_displayable_ips(interfaces@),
        spec_displayable_ips(interfaces@).len() == 0 ==> r@.len() == 1 && r@[0]@
            == "No network connection"@,
{
    let n = interfaces.len();
    let mut r: Vec<String> = Vec::new();
    let mut i: usize = 0;
    assert(interfaces@.take(0) =~= Seq::<NetInterface>::empty());
    assert(spec_string_views(r@) =~= spec_displayable_ips(interfaces@.take(0)));
    while i < n
        invariant
            n == interfaces@.len(),
            i <= n,
            spec_string_views(r@) == spec_displayable_ips(interfaces@.take(i as int)),
        decreases n - i,
    {
        match &interfaces[i].ip {
            InterfaceIp::V4(ip) => {
                if !ip.is_loopback() && !ip.is_link_local() {
                    let mut line = ip.to_display();
                    line.append(" (");
                    line.append(interfaces[i].name.as_str());
                    line.append(")");
                    assert(line@ =~= spec_ip_display(*ip, interfaces@[i as int].name@));
                    r.push(line);
                }
            },
            InterfaceIp::V6 => {},
        }
        proof {
            let t = interfaces@.take(i + 1);
            assert(t.drop_last() =~= interfaces@.take(i as int));
            assert(t.last() == interfaces@[i as int]);
            assert(spec_string_views(r@) =~= spec_displayable_ips(t));
        }
        i += 1;
    }
    assert(interfaces@.take(n as int) =~= interfaces@);
    if r.len() == 0 {
        let mut only: Vec<String> = Vec::new();
        only.push("No network connection".to_owned());
        assert(spec_displayable_ips(interfaces@).len() == spec_string_views(r@).len());
        return only;
    }
    assert(spec_displayable_ips(interfaces@).len() == spec_string_views(r@).len());
    r
}

/// Firewall standing for the sharing UI.
#[derive(Debug, Clone, PartialEq, Eq, Structural)]
pub struct FirewallStatus {
    /// Whether the system firewall is enabled.
    pub firewall_enabled: bool,
    /// Whether this application is allowed through it.
    pub app_allowed: bool,
    /// Whether incoming connections may be blocked.
    pub may_be_blocked: bool,
}

/// Combine what the platform reported into the firewall standing: no
/// firewall means nothing blocks; with one enabled, connections may
/// be blocked exactly when the application is not allowed through.
pub fn evaluate_firewall(firewall_enabled: bool, app_allowed: bool) -> (r: FirewallStatus)
    ensures
        !firewall_enabled ==> r == (FirewallStatus {
            firewall_enabled: false,
            app_allowed: true,
            may_be_blocked: false,
        }),
        firewall_enabled ==> r == (FirewallStatus {
            firewall_enabled: true,
            app_allowed,
            may_be_blocked: !app_allowed,
        }),
{
    if !firewall_enabled {
        FirewallStatus { firewall_enabled: false, app_allowed: true, may_be_blocked: false }
    } else {
        FirewallStatus { firewall_enabled: true, app_allowed, may_be_blocked: !app_allowed }
    }
}

/// Whether a firewall state report says the firewall is on: it names
/// `enabled` or `State = 1`.
pub fn firewall_state_enabled(output: &str) -> (r: bool)
    ensures
        r == (crate::text::contains_bytes(
            output.spec_bytes(),
            encode_utf8("enabled"@),
        ) || crate::text::contains_bytes(output.spec_bytes(), encode_utf8("State = 1"@))),
{
    let b = output.as_bytes();
    crate::text::bytes_contains(b, "enabled".as_bytes()) || crate::text::bytes_contains(
        b,
        "State = 1".as_bytes(),
    )
}

} // verus!
