//! Server lifecycle: which addresses to bind, the bind policy
//! (loopback is mandatory, other interfaces are best-effort), and the
//! manager owning zero or one running server with hot model swap.
//!
//! The manager is a state machine over plain values.  The surrounding
//! runtime enumerates interfaces, opens the listeners, and keeps one
//! shutdown signal per listener; it drives this state machine with the
//! outcomes and signals the listeners when `stop` clears the handle.

use vstd::prelude::*;

use crate::remote::transcription::SharedServerState;
use crate::remote::transcription::TranscriptionServerConfig;
use crate::text::spec_dec_seq;
use crate::text::u64_to_string;

verus! {

/// An IPv4 address as four octets.
#[derive(Debug, Clone, Copy, PartialEq, Eq, Structural)]
pub struct Ipv4Address {
    pub a: u8,
    pub b: u8,
    pub c: u8,
    pub d: u8,
}

/// `a.b.c.d`.
pub open spec fn spec_ipv4_str(ip: Ipv4Address) -> Seq<char> {
    spec_dec_seq(ip.a as int) + "."@ + spec_dec_seq(ip.b as int) + "."@ + spec_dec_seq(
        ip.c as int,
    ) + "."@ + spec_dec_seq(ip.d as int)
}

impl Ipv4Address {
    /// The loopback address.
    pub fn loopback() -> (r: Self)
        ensures
            r == (Ipv4Address { a: 127, b: 0, c: 0, d: 1 }),
    {
        Ipv4Address { a: 127, b: 0, c: 0, d: 1 }
    }

    /// Loopback addresses are those of the 127.0.0.0/8 block.
    pub open spec fn spec_is_loopback(self) -> bool {
        self.a == 127
    }

    /// Whether this is a loopback address.
    pub fn is_loopback(&self) -> (r: bool)
        ensures
            r == self.spec_is_loopback(),
    {
        self.a == 127
    }

    /// Link-local addresses are those of the 169.254.0.0/16 block.
    pub open spec fn spec_is_link_local(self) -> bool {
        self.a == 169 && self.b == 254
    }

    /// Whether this is a link-local address.
    pub fn is_link_local(&self) -> (r: bool)
        ensures
            r == self.spec_is_link_local(),
    {
        self.a == 169 && self.b == 254
    }

    /// Render the address as `a.b.c.d`.
    pub fn to_display(&self) -> (r: String)
        ensures
            r@ == spec_ipv4_str(*self),
    {
        let mut r = u64_to_string(self.a as u64);
        r.append(".");
        r.append(u64_to_string(self.b as u64).as_str());
        r.append(".");
        r.append(u64_to_string(self.c as u64).as_str());
        r.append(".");
        r.append(u64_to_string(self.d as u64).as_str());
        assert(r@ =~= spec_ipv4_str(*self));
        r
    }
}

/// The address of one local network interface: IPv4 with its octets,
/// or IPv6, which this subsystem does not bind.
#[derive(Debug, Clone, Copy, PartialEq, Eq, Structural)]
pub enum InterfaceIp {
    V4(Ipv4Address),
    V6,
}

/// One local network interface.
#[derive(Debug, PartialEq)]
pub struct NetInterface {
    /// Interface name.
    pub name: String,
    /// Its address.
    pub ip: InterfaceIp,
}

/// The non-loopback IPv4 addresses among the interfaces, in order.
pub open spec fn spec_bindable_ips(ifs: Seq<NetInterface>) -> Seq<Ipv4Address>
    decreases ifs.len(),
{
    if ifs.len() == 0 {
        Seq::empty()
    } else {
        spec_bindable_ips(ifs.drop_last()) + (match ifs.last().ip {
            InterfaceIp::V4(ip) => if !ip.spec_is_loopback() {
                seq![ip]
            } else {
                Seq::<Ipv4Address>::empty()
            },
            InterfaceIp::V6 => Seq::<Ipv4Address>::empty(),
        })
    }
}

/// The addresses a server on this machine binds: always the loopback
/// address, plus every non-loopback IPv4 interface address.  Binding
/// only the wildcard address is not enough on some network-adapter
/// configurations, so each address gets its own listener.
pub open spec fn spec_bind_plan(ifs: Seq<NetInterface>) -> Seq<Ipv4Address> {
    seq![Ipv4Address { a: 127, b: 0, c: 0, d: 1 }] + spec_bindable_ips(ifs)
}

/// Compute the bind plan from the machine's interfaces: loopback
/// first, then every non-loopback IPv4 interface address.
pub fn plan_bind_ips(interfaces: &Vec<NetInterface>) -> (r: Vec<Ipv4Address>)
    ensures
        r@ == spec_bind_plan(interfaces@),
        r@.len() >= 1,
        r@[0] == (Ipv4Address { a: 127, b: 0, c: 0, d: 1 }),
{
    let mut r: Vec<Ipv4Address> = Vec::new();
    r.push(Ipv4Address::loopback());
    let n = interfaces.len();
    let mut i: usize = 0;
    assert(interfaces@.take(0) =~= Seq::<NetInterface>::empty());
    while i < n
        invariant
            n == interfaces@.len(),
            i <= n,
            r@ == seq![Ipv4Address { a: 127, b: 0, c: 0, d: 1 }] + spec_bindable_ips(
                interfaces@.take(i as int),
            ),
        decreases n - i,
    {
        match &interfaces[i].ip {
            InterfaceIp::V4(ip) => {
                if !ip.is_loopback() {
                    r.push(*ip);
                }
            },
            InterfaceIp::V6 => {},
        }
        proof {
            let t = interfaces@.take(i + 1);
            assert(t.drop_last() =~= interfaces@.take(i as int));
            assert(t.last() == interfaces@[i as int]);
            assert(r@ =~= seq![Ipv4Address { a: 127, b: 0, c: 0, d: 1 }] + spec_bindable_ips(t));
        }
        i += 1;
    }
    assert(interfaces@.take(n as int) =~= interfaces@);
    r
}

/// The planned addresses that actually bound, given one success flag
/// per planned address.
pub open spec fn spec_bound_subset(plan: Seq<Ipv4Address>, bound: Seq<bool>) -> Seq<Ipv4Address>
    decreases plan.len(),
{
    if plan.len() == 0 || bound.len() == 0 {
        Seq::empty()
    } else {
        spec_bound_subset(plan.drop_last(), bound.drop_last()) + (if bound.last() {
            seq![plan.last()]
        } else {
            Seq::<Ipv4Address>::empty()
        })
    }
}

/// Apply the bind policy to the outcome of binding each planned
/// address: failing to bind the loopback address (the plan's first
/// entry) is fatal, failing any other interface only skips it.
pub fn bind_outcome(plan: &Vec<Ipv4Address>, bound: &Vec<bool>) -> (r: Result<
    Vec<Ipv4Address>,
    String,
>)
    requires
        plan@.len() == bound@.len(),
        plan@.len() >= 1,
    ensures
        !bound@[0] ==> (r matches Err(m) && m@ == "Failed to bind loopback address"@),
        bound@[0] ==> (r matches Ok(ips) && ips@ == spec_bound_subset(plan@, bound@)
            && ips@.len() >= 1),
{
    if !bound[0] {
        return Result::Err("Failed to bind loopback address".to_owned());
    }
    let n = plan.len();
    let mut ips: Vec<Ipv4Address> = Vec::new();
    let mut i: usize = 0;
    assert(plan@.take(0) =~= Seq::<Ipv4Address>::empty());
    assert(bound@.take(0) =~= Seq::<bool>::empty());
    while i < n
        invariant
            n == plan@.len(),
            n == bound@.len(),
            i <= n,
            ips@ == spec_bound_subset(plan@.take(i as int), bound@.take(i as int)),
            i >= 1 && bound@[0] ==> ips@.len() >= 1,
        decreases n - i,
    {
        if bound[i] {
            ips.push(plan[i]);
        }
        proof {
            let tp = plan@.take(i + 1);
            let tb = bound@.take(i + 1);
            assert(tp.drop_last() =~= plan@.take(i as int));
            assert(tb.drop_last() =~= bound@.take(i as int));
            assert(tp.last() == plan@[i as int]);
            assert(tb.last() == bound@[i as int]);
            assert(ips@ =~= spec_bound_subset(tp, tb));
        }
        i += 1;
    }
    assert(plan@.take(n as int) =~= plan@);
    assert(bound@.take(n as int) =~= bound@);
    Result::Ok(ips)
}

/// Handle to a running server: the listening port and the addresses
/// that bound.  The runtime holds one shutdown signal per bound
/// address and fires them all when this handle is dropped from the
/// manager.
#[derive(Debug, PartialEq)]
pub struct ServerHandle {
    /// The port the server listens on.
    pub port: u16,
    /// The addresses the server bound.
    pub bound_ips: Vec<Ipv4Address>,
}

/// A snapshot of the sharing state, for display.
#[derive(Debug, Clone, PartialEq)]
pub struct SharingStatus {
    /// Whether sharing is currently enabled.
    pub enabled: bool,
    /// Port the server listens on, when enabled.
    pub port: Option<u16>,
    /// Name of the shared model, when enabled.
    pub model_name: Option<String>,
    /// The server's display name, when enabled.
    pub server_name: Option<String>,
    /// Number of active connections (not yet tracked).
    pub active_connections: u32,
    /// The configured password, when enabled and set.
    pub password: Option<String>,
}

/// Owner of zero or one running server.
#[derive(Debug, PartialEq)]
pub struct RemoteServerManager {
    /// Handle of the running server, if any.
    pub handle: Option<ServerHandle>,
    /// Configuration of the running server, if any.
    pub config: Option<TranscriptionServerConfig>,
    /// Shared model state of the running server, if any; swapped by
    /// `update_model` without restarting listeners.
    pub shared_state: Option<SharedServerState>,
}

/// The status snapshot a manager reports: everything from the handle
/// and configuration, nothing else.
pub open spec fn spec_status(m: RemoteServerManager) -> SharingStatus {
    match m.handle {
        Option::Some(h) => SharingStatus {
            enabled: true,
            port: Option::Some(h.port),
            model_name: match m.config {
                Option::Some(c) => Option::Some(c.model_name),
                Option::None => Option::None,
            },
            server_name: match m.config {
                Option::Some(c) => Option::Some(c.server_name),
                Option::None => Option::None,
            },
            active_connections: 0,
            password: match m.config {
                Option::Some(c) => c.password,
                Option::None => Option::None,
            },
        },
        Option::None => SharingStatus {
            enabled: false,
            port: Option::None,
            model_name: Option::None,
            server_name: Option::None,
            active_connections: 0,
            password: Option::None,
        },
    }
}

/// The manager with nothing running: what `new` builds and `stop`
/// leaves behind.
pub open spec fn spec_idle_manager() -> RemoteServerManager {
    RemoteServerManager { handle: Option::None, config: Option::None, shared_state: Option::None }
}

impl RemoteServerManager {
    /// A manager with no running server.
    pub fn new() -> (r: Self)
        ensures
            r == spec_idle_manager(),
    {
        RemoteServerManager {
            handle: Option::None,
            config: Option::None,
            shared_state: Option::None,
        }
    }

    /// Whether a server is currently running.
    pub fn is_running(&self) -> (r: bool)
        ensures
            r == (self.handle is Some),
    {
        match &self.handle {
            Option::Some(_) => true,
            Option::None => false,
        }
    }

    /// The port the running server listens on, if any.
    pub fn get_port(&self) -> (r: Option<u16>)
        ensures
            r == match self.handle {
                Option::Some(h) => Option::Some(h.port),
                Option::None => Option::<u16>::None,
            },
    {
        match &self.handle {
            Option::Some(h) => Option::Some(h.port),
            Option::None => Option::None,
        }
    }

    /// The configuration of the running server, if any.
    pub fn get_config(&self) -> (r: Option<&TranscriptionServerConfig>)
        ensures
            match r {
                Option::Some(c) => self.config matches Option::Some(sc) && *c == sc,
                Option::None => self.config is None,
            },
    {
        match &self.config {
            Option::Some(c) => Option::Some(c),
            Option::None => Option::None,
        }
    }

    /// Stop the running server, if any: the handle, configuration and
    /// shared state are all cleared.  Idempotent; the runtime fires
    /// the shutdown signal of every listener of the dropped handle.
    pub fn stop(&mut self)
        ensures
            *final(self) == spec_idle_manager(),
            !final(self).is_running_spec(),
            spec_status(*final(self)).enabled == false,
    {
        self.handle = Option::None;
        self.config = Option::None;
        self.shared_state = Option::None;
    }

    /// Whether a server is running (specification view).
    pub open spec fn is_running_spec(self) -> bool {
        self.handle is Some
    }

    /// A well-formed manager: whenever a server runs, its
    /// configuration and shared state are present.  `new` builds a
    /// well-formed manager and every operation keeps it so; `start`'s
    /// two phases in particular install both before the handle.
    pub open spec fn spec_wf(self) -> bool {
        self.handle is Some ==> self.config is Some && self.shared_state is Some
    }

    /// First phase of `start`: stop whatever runs, remember the new
    /// configuration and build fresh shared state for it.  The runtime
    /// then binds the planned addresses and reports back through
    /// `commit_start` or `abort_start`.
    pub fn prepare_start(
        &mut self,
        password: Option<String>,
        server_name: String,
        model_path: String,
        model_name: String,
        engine: String,
    )
        ensures
            final(self).handle is None,
            final(self).config matches Option::Some(c) && c.server_name == server_name
                && c.password == password && c.model_path == model_path && c.model_name
                == model_name,
            final(self).shared_state matches Option::Some(s) && s.model_name == model_name
                && s.model_path == model_path && s.engine == engine,
            final(self).spec_wf(),
    {
        self.stop();
        let shared = SharedServerState::new(model_name.clone(), model_path.clone(), engine);
        self.config = Option::Some(
            TranscriptionServerConfig { server_name, password, model_path, model_name },
        );
        self.shared_state = Option::Some(shared);
    }

    /// Second phase of `start`, after binding succeeded at least on
    /// loopback: record the fresh handle.  The handle is independent
    /// of any earlier run.
    pub fn commit_start(&mut self, port: u16, bound_ips: Vec<Ipv4Address>)
        requires
            old(self).config is Some,
            old(self).shared_state is Some,
        ensures
            final(self).handle == Option::Some(ServerHandle { port, bound_ips }),
            final(self).config == old(self).config,
            final(self).shared_state == old(self).shared_state,
            spec_status(*final(self)).enabled,
            spec_status(*final(self)).port == Option::Some(port),
            final(self).spec_wf(),
    {
        self.handle = Option::Some(ServerHandle { port, bound_ips });
    }

    /// Failure path of `start`: binding the loopback address failed,
    /// so nothing is left running.
    pub fn abort_start(&mut self)
        ensures
            *final(self) == spec_idle_manager(),
    {
        self.stop();
    }

    /// Swap the served model without restarting listeners: the handle
    /// is untouched, the configuration keeps its identity and password
    /// but tracks the new model, and the shared state is replaced as
    /// one unit, so the very next request sees the new model.
    pub fn update_model(&mut self, model_path: String, model_name: String, engine: String)
        ensures
            final(self).handle == old(self).handle,
            old(self).config matches Option::Some(oc) ==> (final(self).config matches Option::Some(
                c,
            ) && c.server_name == oc.server_name && c.password == oc.password && c.model_path
                == model_path && c.model_name == model_name),
            old(self).config is None ==> final(self).config is None,
            old(self).shared_state is Some ==> final(self).shared_state == Option::Some(
                SharedServerState { model_name, model_path, engine },
            ),
            old(self).shared_state is None ==> final(self).shared_state is None,
            old(self).spec_wf() ==> final(self).spec_wf(),
    {
        let has_config = match &self.config {
            Option::Some(_) => true,
            Option::None => false,
        };
        if has_config {
            let oc = match &self.config {
                Option::Some(c) => c.clone(),
                Option::None => TranscriptionServerConfig {
                    server_name: String::new(),
                    password: Option::None,
                    model_path: String::new(),
                    model_name: String::new(),
                },
            };
            self.config = Option::Some(
                TranscriptionServerConfig {
                    server_name: oc.server_name,
                    password: oc.password,
                    model_path: model_path.clone(),
                    model_name: model_name.clone(),
                },
            );
        }
        let has_shared = match &self.shared_state {
            Option::Some(_) => true,
            Option::None => false,
        };
        if has_shared {
            self.shared_state = Option::Some(SharedServerState { model_name, model_path, engine });
        }
    }

    /// A pure snapshot of the sharing status; no side effects.
    pub fn get_status(&self) -> (r: SharingStatus)
        ensures
            r == spec_status(*self),
    {
        match &self.handle {
            Option::Some(h) => SharingStatus {
                enabled: true,
                port: Option::Some(h.port),
                model_name: match &self.config {
                    Option::Some(c) => Option::Some(c.model_name.clone()),
                    Option::None => Option::None,
                },
                server_name: match &self.config {
                    Option::Some(c) => Option::Some(c.server_name.clone()),
                    Option::None => Option::None,
                },
                active_connections: 0,
                password: match &self.config {
                    Option::Some(c) => match &c.password {
                        Option::Some(p) => Option::Some(p.clone()),
                        Option::None => Option::None,
                    },
                    Option::None => Option::None,
                },
            },
            Option::None => SharingStatus {
                enabled: false,
                port: Option::None,
                model_name: Option::None,
                server_name: Option::None,
                active_connections: 0,
                password: Option::None,
            },
        }
    }
}

/// A stopped manager reports sharing as disabled and no port, whatever
/// ran before; and a later `commit_start` produces a handle that
/// depends only on the new port and addresses.
pub proof fn lemma_stop_resets_status()
    ensures
        !spec_status(spec_idle_manager()).enabled,
        spec_status(spec_idle_manager()).port is None,
        spec_status(spec_idle_manager()).model_name is None,
        !spec_idle_manager().is_running_spec(),
{
}

/// For every well-formed manager with a running server, a hot model
/// swap changes what the status reports as the model and what the
/// very next request's snapshot reads, but neither the running handle
/// nor the port: the swap restarts nothing.
pub proof fn lemma_hot_swap_keeps_listeners(
    m: RemoteServerManager,
    path: String,
    name: String,
    engine: String,
)
    requires
        m.spec_wf(),
        m.is_running_spec(),
    ensures
        ({
            let swapped = RemoteServerManager {
                handle: m.handle,
                config: Option::Some(
                    TranscriptionServerConfig {
                        server_name: m.config->Some_0.server_name,
                        password: m.config->Some_0.password,
                        model_path: path,
                        model_name: name,
                    },
                ),
                shared_state: Option::Some(
                    SharedServerState { model_name: name, model_path: path, engine },
                ),
            };
            &&& spec_status(swapped).enabled == spec_status(m).enabled
            &&& spec_status(swapped).port == spec_status(m).port
            &&& spec_status(swapped).server_name == spec_status(m).server_name
            &&& spec_status(swapped).model_name == Option::Some(name)
            &&& swapped.shared_state->Some_0.model_name == name
            &&& swapped.shared_state->Some_0.model_path == path
        }),
{
}

} // verus!
