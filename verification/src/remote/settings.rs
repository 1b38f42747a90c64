//! Persisted registry of known remote servers: saved connections,
//! one optional "active" selection, the local server configuration,
//! and a flag remembering that sharing was auto-disabled.

use vstd::prelude::*;

use crate::remote::server::RemoteServerConfig;
use crate::remote::client::spec_host_port;

verus! {

/// Connection status from the last probe of a saved server.
#[derive(Debug, Clone, Copy, PartialEq, Eq, Structural)]
pub enum ConnectionStatus {
    /// Never probed.
    Unknown,
    /// Last probe succeeded.
    Online,
    /// Last probe could not reach the server.
    Offline,
    /// Last probe was rejected with an authentication failure.
    AuthFailed,
    /// The server is this very machine; it cannot be used remotely.
    SelfConnection,
}

impl Default for ConnectionStatus {
    fn default() -> (r: Self)
        ensures
            r == ConnectionStatus::Unknown,
    {
        ConnectionStatus::Unknown
    }
}

/// A saved remote server with its metadata.
#[derive(Debug, PartialEq)]
pub struct SavedConnection {
    /// Unique identifier of this connection.
    pub id: String,
    /// Hostname or IP address.
    pub host: String,
    /// Port number.
    pub port: u16,
    /// Optional password for authentication.
    pub password: Option<String>,
    /// Optional friendly name.
    pub name: Option<String>,
    /// When this connection was added (Unix timestamp, milliseconds).
    pub created_at: u64,
    /// Model served by this server, cached from the last probe.
    pub model: Option<String>,
    /// Connection status from the last probe.
    pub status: ConnectionStatus,
    /// When the last probe happened (Unix timestamp, milliseconds).
    pub last_checked: u64,
}

fn clone_opt_string(s: &Option<String>) -> (r: Option<String>)
    ensures
        r == *s,
{
    match s {
        Option::None => Option::None,
        Option::Some(x) => Option::Some(x.clone()),
    }
}

impl Clone for SavedConnection {
    fn clone(&self) -> (r: Self)
        ensures
            r == *self,
    {
        SavedConnection {
            id: self.id.clone(),
            host: self.host.clone(),
            port: self.port,
            password: clone_opt_string(&self.password),
            name: clone_opt_string(&self.name),
            created_at: self.created_at,
            model: clone_opt_string(&self.model),
            status: self.status,
            last_checked: self.last_checked,
        }
    }
}

impl SavedConnection {
    /// A display name: the friendly name if one was given, else `host:port`.
    pub fn display_name(&self) -> (r: String)
        ensures
            match self.name {
                Option::Some(n) => r@ == n@,
                Option::None => r@ == spec_host_port(self.host@, self.port),
            },
    {
        match &self.name {
            Option::Some(n) => n.clone(),
            Option::None => {
                let mut r = String::new();
                r.append(self.host.as_str());
                r.append(":");
                r.append(crate::text::u64_to_string(self.port as u64).as_str());
                assert(r@ =~= spec_host_port(self.host@, self.port));
                r
            },
        }
    }
}

/// Some saved connection carries this id.
pub open spec fn has_conn(conns: Seq<SavedConnection>, id: Seq<char>) -> bool
    decreases conns.len(),
{
    if conns.len() == 0 {
        false
    } else {
        conns.first().id@ == id || has_conn(conns.drop_first(), id)
    }
}

pub proof fn lemma_has_conn_exists(conns: Seq<SavedConnection>, id: Seq<char>)
    ensures
        has_conn(conns, id) <==> exists|k: int| 0 <= k < conns.len() && conns[k].id@ == id,
    decreases conns.len(),
{
    if conns.len() > 0 {
        lemma_has_conn_exists(conns.drop_first(), id);
        if conns.first().id@ == id {
            assert(conns[0].id@ == id);
        } else if has_conn(conns.drop_first(), id) {
            let k = choose|k: int| 0 <= k < conns.drop_first().len() && conns.drop_first()[k].id@
                == id;
            assert(conns[k + 1].id@ == id);
        } else {
            assert(forall|k: int|
                0 <= k < conns.len() && conns[k].id@ == id ==> {
                    if k == 0 {
                        false
                    } else {
                        conns.drop_first()[k - 1].id@ == id
                    }
                });
        }
    }
}

/// The first saved connection carrying this id, if any.
pub open spec fn spec_get_conn(conns: Seq<SavedConnection>, id: Seq<char>) -> Option<
    SavedConnection,
>
    decreases conns.len(),
{
    if conns.len() == 0 {
        Option::None
    } else if conns.first().id@ == id {
        Option::Some(conns.first())
    } else {
        spec_get_conn(conns.drop_first(), id)
    }
}

pub proof fn lemma_get_conn_some(conns: Seq<SavedConnection>, id: Seq<char>)
    ensures
        (spec_get_conn(conns, id) is Some) == has_conn(conns, id),
        match spec_get_conn(conns, id) {
            Option::Some(c) => c.id@ == id,
            Option::None => true,
        },
    decreases conns.len(),
{
    if conns.len() > 0 {
        lemma_get_conn_some(conns.drop_first(), id);
    }
}

/// The connections left after removing every one carrying this id.
pub open spec fn spec_connections_without(conns: Seq<SavedConnection>, id: Seq<char>) -> Seq<
    SavedConnection,
>
    decreases conns.len(),
{
    if conns.len() == 0 {
        conns
    } else if conns.first().id@ == id {
        spec_connections_without(conns.drop_first(), id)
    } else {
        seq![conns.first()] + spec_connections_without(conns.drop_first(), id)
    }
}

pub proof fn lemma_without_len(conns: Seq<SavedConnection>, id: Seq<char>)
    ensures
        spec_connections_without(conns, id).len() <= conns.len(),
        (spec_connections_without(conns, id).len() == conns.len()) <==> !has_conn(conns, id),
    decreases conns.len(),
{
    if conns.len() > 0 {
        lemma_without_len(conns.drop_first(), id);
    }
}

/// Removing an id that no existing connection carries, right after a
/// connection with that id was appended, restores the original list.
pub proof fn lemma_remove_fresh_push(conns: Seq<SavedConnection>, c: SavedConnection)
    requires
        !has_conn(conns, c.id@),
    ensures
        spec_connections_without(conns.push(c), c.id@) == conns,
    decreases conns.len(),
{
    let pushed = conns.push(c);
    if conns.len() == 0 {
        assert(pushed.first().id@ == c.id@);
        assert(pushed.drop_first() =~= Seq::<SavedConnection>::empty());
        assert(conns =~= Seq::<SavedConnection>::empty());
        assert(spec_connections_without(pushed, c.id@) == spec_connections_without(
            pushed.drop_first(),
            c.id@,
        ));
        assert(spec_connections_without(Seq::<SavedConnection>::empty(), c.id@)
            =~= Seq::<SavedConnection>::empty());
    } else {
        assert(pushed.first() == conns.first());
        assert(conns.first().id@ != c.id@);
        assert(pushed.drop_first() =~= conns.drop_first().push(c));
        lemma_remove_fresh_push(conns.drop_first(), c);
        assert(spec_connections_without(pushed, c.id@) == seq![conns.first()]
            + spec_connections_without(pushed.drop_first(), c.id@));
        assert(seq![conns.first()] + conns.drop_first() =~= conns);
    }
}

/// The active selection after removing a connection: cleared when it
/// referenced the removed id, kept otherwise.
pub open spec fn spec_active_after_remove(active: Option<String>, id: Seq<char>) -> Option<
    String,
> {
    match active {
        Option::None => Option::None,
        Option::Some(a) => if a@ == id {
            Option::None
        } else {
            Option::Some(a)
        },
    }
}

/// `Connection '<id>' not found`.
pub open spec fn spec_conn_not_found_msg(id: Seq<char>) -> Seq<char> {
    "Connection '"@ + id + "' not found"@
}

pub(crate) fn conn_not_found_msg(id: &str) -> (r: String)
    ensures
        r@ == spec_conn_not_found_msg(id@),
{
    let mut r = String::new();
    r.append("Connection '");
    r.append(id);
    r.append("' not found");
    assert(r@ =~= spec_conn_not_found_msg(id@));
    r
}

/// All ids of the given connections, concatenated.
pub open spec fn spec_concat_ids(conns: Seq<SavedConnection>) -> Seq<char>
    decreases conns.len(),
{
    if conns.len() == 0 {
        Seq::empty()
    } else {
        spec_concat_ids(conns.drop_last()) + conns.last().id@
    }
}

proof fn lemma_concat_ids_len(conns: Seq<SavedConnection>, j: int)
    requires
        0 <= j < conns.len(),
    ensures
        spec_concat_ids(conns).len() >= conns[j].id@.len(),
    decreases conns.len(),
{
    if j < conns.len() - 1 {
        lemma_concat_ids_len(conns.drop_last(), j);
        assert(conns.drop_last()[j] == conns[j]);
    }
}

/// All remote-transcription settings, persisted as one document.
#[derive(Debug, PartialEq)]
pub struct RemoteSettings {
    /// Configuration of this instance's own sharing server.
    pub server_config: RemoteServerConfig,
    /// Saved remote server connections.
    pub saved_connections: Vec<SavedConnection>,
    /// Id of the currently active connection, if remote transcription
    /// is in use.  When set it references a saved connection.
    pub active_connection_id: Option<String>,
    /// Sharing was auto-disabled when a remote connection was
    /// activated, and should be restored once it is cleared.
    pub sharing_was_active: bool,
}

impl Default for RemoteSettings {
    /// No saved connections, no active selection, default server
    /// configuration, sharing not remembered as active.
    fn default() -> (r: Self)
        ensures
            r.server_config.port == crate::remote::server::DEFAULT_SHARING_PORT,
            r.server_config.password is None,
            !r.server_config.enabled,
            r.saved_connections@ =~= Seq::<SavedConnection>::empty(),
            r.active_connection_id is None,
            !r.sharing_was_active,
    {
        RemoteSettings {
            server_config: RemoteServerConfig::default(),
            saved_connections: Vec::new(),
            active_connection_id: Option::None,
            sharing_was_active: false,
        }
    }
}

/// Dereference an optional borrowed connection, for contracts.
pub open spec fn opt_deref(r: Option<&SavedConnection>) -> Option<SavedConnection> {
    match r {
        Option::None => Option::None,
        Option::Some(c) => Option::Some(*c),
    }
}

impl Clone for RemoteSettings {
    fn clone(&self) -> (r: Self)
        ensures
            r.server_config == self.server_config,
            r.saved_connections@ == self.saved_connections@,
            r.active_connection_id == self.active_connection_id,
            r.sharing_was_active == self.sharing_was_active,
    {
        RemoteSettings {
            server_config: self.server_config.clone(),
            saved_connections: clone_connections(&self.saved_connections),
            active_connection_id: clone_opt_string(&self.active_connection_id),
            sharing_was_active: self.sharing_was_active,
        }
    }
}

fn clone_connections(conns: &Vec<SavedConnection>) -> (r: Vec<SavedConnection>)
    ensures
        r@ == conns@,
{
    let n = conns.len();
    let mut r: Vec<SavedConnection> = Vec::new();
    let mut i: usize = 0;
    while i < n
        invariant
            n == conns@.len(),
            i <= n,
            r@ =~= conns@.take(i as int),
        decreases n - i,
    {
        r.push(conns[i].clone());
        assert(r@ =~= conns@.take(i + 1));
        i += 1;
    }
    assert(conns@.take(n as int) =~= conns@);
    r
}

impl RemoteSettings {
    /// Whether a saved connection with this id exists.
    pub fn has_connection(&self, id: &str) -> (r: bool)
        ensures
            r == has_conn(self.saved_connections@, id@),
    {
        let owned = id.to_owned();
        let n = self.saved_connections.len();
        let mut i: usize = 0;
        assert(self.saved_connections@.skip(0) =~= self.saved_connections@);
        while i < n
            invariant
                n == self.saved_connections@.len(),
                i <= n,
                owned@ == id@,
                has_conn(self.saved_connections@, id@) == has_conn(
                    self.saved_connections@.skip(i as int),
                    id@,
                ),
            decreases n - i,
        {
            let conns = &self.saved_connections;
            assert(conns@.skip(i as int).first() == conns@[i as int]);
            if conns[i].id.eq(&owned) {
                assert(has_conn(conns@.skip(i as int), id@));
                return true;
            }
            proof {
                let s = conns@.skip(i as int);
                assert(s.len() > 0);
                assert(s.first().id@ != id@);
                assert(has_conn(s, id@) == has_conn(s.drop_first(), id@));
                assert(s.drop_first() =~= conns@.skip(i + 1));
            }
            i += 1;
        }
        assert(self.saved_connections@.skip(n as int) =~= Seq::<SavedConnection>::empty());
        false
    }

    /// Get the first saved connection with this id.
    pub fn get_connection(&self, id: &str) -> (r: Option<&SavedConnection>)
        ensures
            opt_deref(r) == spec_get_conn(self.saved_connections@, id@),
    {
        let owned = id.to_owned();
        let n = self.saved_connections.len();
        let mut i: usize = 0;
        assert(self.saved_connections@.skip(0) =~= self.saved_connections@);
        while i < n
            invariant
                n == self.saved_connections@.len(),
                i <= n,
                owned@ == id@,
                spec_get_conn(self.saved_connections@, id@) == spec_get_conn(
                    self.saved_connections@.skip(i as int),
                    id@,
                ),
            decreases n - i,
        {
            let conns = &self.saved_connections;
            assert(conns@.skip(i as int).first() == conns@[i as int]);
            if conns[i].id.eq(&owned) {
                assert(spec_get_conn(conns@.skip(i as int), id@) == Option::Some(conns@[i as int]));
                return Option::Some(&conns[i]);
            }
            proof {
                let s = conns@.skip(i as int);
                assert(s.len() > 0);
                assert(s.first().id@ != id@);
                assert(spec_get_conn(s, id@) == spec_get_conn(s.drop_first(), id@));
                assert(s.drop_first() =~= conns@.skip(i + 1));
            }
            i += 1;
        }
        assert(self.saved_connections@.skip(n as int) =~= Seq::<SavedConnection>::empty());
        Option::None
    }

    /// List all saved connections.
    pub fn list_connections(&self) -> (r: Vec<SavedConnection>)
        ensures
            r@ == self.saved_connections@,
    {
        clone_connections(&self.saved_connections)
    }
}

/// The position of the first saved connection carrying this id, or -1.
pub open spec fn spec_first_conn_idx(conns: Seq<SavedConnection>, id: Seq<char>) -> int
    decreases conns.len(),
{
    if conns.len() == 0 {
        -1
    } else if conns.first().id@ == id {
        0
    } else if spec_first_conn_idx(conns.drop_first(), id) == -1 {
        -1
    } else {
        1 + spec_first_conn_idx(conns.drop_first(), id)
    }
}

pub proof fn lemma_first_idx_at(conns: Seq<SavedConnection>, id: Seq<char>, i: int)
    requires
        0 <= i < conns.len(),
        conns[i].id@ == id,
        forall|k: int| 0 <= k < i ==> conns[k].id@ != id,
    ensures
        spec_first_conn_idx(conns, id) == i,
        has_conn(conns, id),
    decreases conns.len(),
{
    if i > 0 {
        assert(conns[0].id@ != id);
        assert(conns.drop_first()[i - 1].id@ == id);
        assert(forall|k: int| 0 <= k < i - 1 ==> conns.drop_first()[k].id@ != id);
        lemma_first_idx_at(conns.drop_first(), id, i - 1);
    }
}

/// Relies on std::time::SystemTime::now for the wall clock, read as
/// milliseconds since the Unix epoch (zero if the clock is before it).
/// Nothing is assumed of the value: the clock can move arbitrarily.
#[verifier::external_body]
pub(crate) fn current_timestamp() -> u64 {
    match std::time::SystemTime::now().duration_since(std::time::UNIX_EPOCH) {
        Ok(d) => d.as_millis() as u64,
        Err(_) => 0,
    }
}

/// Relies on uuid::Uuid::new_v4 for a random component beside the
/// timestamp, giving ids of the shape `conn_<timestamp>_<random>`.
/// Only nonemptiness is assumed; freshness against a registry is
/// checked by the caller.  Like every user of the OS randomness
/// source, this panics if that source is unavailable, independent of
/// any input.
#[verifier::external_body]
pub fn generate_id() -> (r: String)
    ensures
        r@.len() > 0,
{
    format!("conn_{}_{}", current_timestamp(), uuid::Uuid::new_v4())
}

/// Every connection except those carrying this id, in order.
fn connections_without(conns: &Vec<SavedConnection>, id: &str) -> (r: Vec<SavedConnection>)
    ensures
        r@ == spec_connections_without(conns@, id@),
{
    let owned = id.to_owned();
    let n = conns.len();
    let mut kept: Vec<SavedConnection> = Vec::new();
    let mut i: usize = 0;
    assert(conns@.skip(0) =~= conns@);
    while i < n
        invariant
            n == conns@.len(),
            i <= n,
            owned@ == id@,
            spec_connections_without(conns@, id@) == kept@ + spec_connections_without(
                conns@.skip(i as int),
                id@,
            ),
        decreases n - i,
    {
        assert(conns@.skip(i as int).first() == conns@[i as int]);
        if !conns[i].id.eq(&owned) {
            kept.push(conns[i].clone());
        }
        proof {
            let s = conns@.skip(i as int);
            assert(s.drop_first() =~= conns@.skip(i + 1));
            if s.first().id@ != id@ {
                assert(spec_connections_without(s, id@) == seq![s.first()]
                    + spec_connections_without(s.drop_first(), id@));
            }
        }
        i += 1;
    }
    assert(conns@.skip(n as int) =~= Seq::<SavedConnection>::empty());
    assert(spec_connections_without(conns@, id@) =~= kept@);
    kept
}

impl RemoteSettings {
    /// An id no saved connection carries.  Normally the generated
    /// timestamp-and-random id; if that collides, an id built longer
    /// than every saved one.
    fn fresh_connection_id(&self) -> (r: String)
        ensures
            !has_conn(self.saved_connections@, r@),
    {
        let cand = generate_id();
        if !self.has_connection(cand.as_str()) {
            return cand;
        }
        let conns = &self.saved_connections;
        let n = conns.len();
        let mut fid = String::new();
        fid.append("conn_");
        let mut i: usize = 0;
        assert(conns@.take(0) =~= Seq::<SavedConnection>::empty());
        while i < n
            invariant
                n == conns@.len(),
                i <= n,
                fid@ == "conn_"@ + spec_concat_ids(conns@.take(i as int)),
            decreases n - i,
        {
            fid.append(conns[i].id.as_str());
            proof {
                let t = conns@.take(i + 1);
                assert(t.drop_last() =~= conns@.take(i as int));
                assert(t.last() == conns@[i as int]);
            }
            i += 1;
        }
        fid.append("_0");
        proof {
            assert(conns@.take(n as int) =~= conns@);
            reveal_strlit("conn_");
            reveal_strlit("_0");
            assert(fid@.len() == 7 + spec_concat_ids(conns@).len());
            assert forall|j: int| 0 <= j < conns@.len() implies conns@[j].id@ != fid@ by {
                lemma_concat_ids_len(conns@, j);
            }
            lemma_has_conn_exists(conns@, fid@);
        }
        fid
    }

    /// Add a new connection and return it.  The connection gets a
    /// fresh id no existing connection carries, starts in the
    /// `Unknown` status with no cached model, and is appended to the
    /// saved list; nothing else changes.
    pub fn add_connection(
        &mut self,
        host: String,
        port: u16,
        password: Option<String>,
        name: Option<String>,
    ) -> (r: SavedConnection)
        ensures
            final(self).saved_connections@ == old(self).saved_connections@.push(r),
            !has_conn(old(self).saved_connections@, r.id@),
            r.host == host,
            r.port == port,
            r.password == password,
            r.name == name,
            r.model is None,
            r.status == ConnectionStatus::Unknown,
            r.last_checked == 0,
            final(self).server_config == old(self).server_config,
            final(self).active_connection_id == old(self).active_connection_id,
            final(self).sharing_was_active == old(self).sharing_was_active,
    {
        self.add_connection_with_model(host, port, password, name, Option::None)
    }

    /// Add a new connection whose served model is already known from a
    /// probe.  Same as `add_connection` otherwise.
    pub fn add_connection_with_model(
        &mut self,
        host: String,
        port: u16,
        password: Option<String>,
        name: Option<String>,
        model: Option<String>,
    ) -> (r: SavedConnection)
        ensures
            final(self).saved_connections@ == old(self).saved_connections@.push(r),
            !has_conn(old(self).saved_connections@, r.id@),
            r.host == host,
            r.port == port,
            r.password == password,
            r.name == name,
            r.model == model,
            r.status == ConnectionStatus::Unknown,
            r.last_checked == 0,
            final(self).server_config == old(self).server_config,
            final(self).active_connection_id == old(self).active_connection_id,
            final(self).sharing_was_active == old(self).sharing_was_active,
    {
        let id = self.fresh_connection_id();
        let created_at = current_timestamp();
        let saved = SavedConnection {
            id,
            host,
            port,
            password,
            name,
            created_at,
            model,
            status: ConnectionStatus::Unknown,
            last_checked: 0,
        };
        let r = saved.clone();
        self.saved_connections.push(saved);
        r
    }

    /// Remove every connection with this id.  When none carries it,
    /// an error is returned and nothing changes; otherwise the active
    /// selection is cleared if it referenced the removed id.
    pub fn remove_connection(&mut self, id: &str) -> (r: Result<(), String>)
        ensures
            has_conn(old(self).saved_connections@, id@) ==> r is Ok && final(self).saved_connections@ == spec_connections_without(old(self).saved_connections@, id@)
                && final(self).active_connection_id == spec_active_after_remove(
                old(self).active_connection_id,
                id@,
            ) && final(self).server_config == old(self).server_config && final(self).sharing_was_active == old(self).sharing_was_active,
            !has_conn(old(self).saved_connections@, id@) ==> *final(self) == *old(self) && (
            r matches Err(m) && m@ == spec_conn_not_found_msg(id@)),
    {
        let kept = connections_without(&self.saved_connections, id);
        proof {
            lemma_without_len(self.saved_connections@, id@);
        }
        if kept.len() == self.saved_connections.len() {
            return Result::Err(conn_not_found_msg(id));
        }
        self.saved_connections = kept;
        let owned = id.to_owned();
        let clear = match &self.active_connection_id {
            Option::Some(a) => a.eq(&owned),
            Option::None => false,
        };
        if clear {
            self.active_connection_id = Option::None;
        }
        Result::Ok(())
    }

    /// Set the active connection.  A concrete id must reference a
    /// saved connection, else an error is returned and nothing
    /// changes; clearing with `None` always succeeds.
    pub fn set_active_connection(&mut self, id: Option<String>) -> (r: Result<(), String>)
        ensures
            match id {
                Option::Some(cid) => if has_conn(old(self).saved_connections@, cid@) {
                    r is Ok && final(self).active_connection_id == Option::Some(cid) && final(self).saved_connections@ == old(self).saved_connections@ && final(self).server_config == old(self).server_config && final(self).sharing_was_active
                        == old(self).sharing_was_active
                } else {
                    *final(self) == *old(self) && (r matches Err(m) && m@
                        == spec_conn_not_found_msg(cid@))
                },
                Option::None => r is Ok && final(self).active_connection_id is None && final(self).saved_connections@ == old(self).saved_connections@ && final(self).server_config
                    == old(self).server_config && final(self).sharing_was_active == old(self).sharing_was_active,
            },
    {
        match &id {
            Option::Some(cid) => {
                if !self.has_connection(cid.as_str()) {
                    return Result::Err(conn_not_found_msg(cid.as_str()));
                }
            },
            Option::None => {},
        }
        self.active_connection_id = id;
        Result::Ok(())
    }

    /// Get the currently active connection, if an active id is set
    /// and references a saved connection.
    pub fn get_active_connection(&self) -> (r: Option<&SavedConnection>)
        ensures
            opt_deref(r) == match self.active_connection_id {
                Option::None => Option::<SavedConnection>::None,
                Option::Some(a) => spec_get_conn(self.saved_connections@, a@),
            },
    {
        match &self.active_connection_id {
            Option::None => Option::None,
            Option::Some(a) => self.get_connection(a.as_str()),
        }
    }

    /// Record the outcome of a probe on the first connection with
    /// this id: its status is replaced, its probe time refreshed, and
    /// its cached model replaced when the probe reported one.  When no
    /// connection carries the id, nothing changes.
    pub fn update_connection_status(
        &mut self,
        id: &str,
        status: ConnectionStatus,
        model: Option<String>,
    )
        ensures
            final(self).server_config == old(self).server_config,
            final(self).active_connection_id == old(self).active_connection_id,
            final(self).sharing_was_active == old(self).sharing_was_active,
            !has_conn(old(self).saved_connections@, id@) ==> final(self).saved_connections@ == old(self).saved_connections@,
            has_conn(old(self).saved_connections@, id@) ==> ({
                let conns = old(self).saved_connections@;
                let idx = spec_first_conn_idx(conns, id@);
                let c = final(self).saved_connections@[idx];
                let o = conns[idx];
                &&& final(self).saved_connections@.len() == conns.len()
                &&& forall|k: int|
                    0 <= k < conns.len() && k != idx ==> final(self).saved_connections@[k]
                        == conns[k]
                &&& c.id == o.id
                &&& c.host == o.host
                &&& c.port == o.port
                &&& c.password == o.password
                &&& c.name == o.name
                &&& c.created_at == o.created_at
                &&& c.status == status
                &&& c.model == (if model is Some {
                    model
                } else {
                    o.model
                })
            }),
    {
        let owned = id.to_owned();
        let n = self.saved_connections.len();
        let mut i: usize = 0;
        while i < n
            invariant
                n == self.saved_connections@.len(),
                i <= n,
                owned@ == id@,
                *self == *old(self),
                forall|k: int| 0 <= k < i ==> self.saved_connections@[k].id@ != id@,
            decreases n - i,
        {
            if self.saved_connections[i].id.eq(&owned) {
                proof {
                    lemma_first_idx_at(self.saved_connections@, id@, i as int);
                }
                let ts = current_timestamp();
                let o = self.saved_connections[i].clone();
                let updated = SavedConnection {
                    id: o.id,
                    host: o.host,
                    port: o.port,
                    password: o.password,
                    name: o.name,
                    created_at: o.created_at,
                    model: match model {
                        Option::Some(m) => Option::Some(m),
                        Option::None => o.model,
                    },
                    status,
                    last_checked: ts,
                };
                self.saved_connections[i] = updated;
                return ;
            }
            i += 1;
        }
        proof {
            lemma_has_conn_exists(self.saved_connections@, id@);
        }
    }
}

} // verus!
