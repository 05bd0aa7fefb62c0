use vstd::prelude::*;

use crate::ipv4::Ipv4Address;
use crate::launch_options::{
    ClientLaunchOptions, LinkConditionerConfig, ServerLaunchOptions, SharedLaunchOptions,
};
use crate::time_span::TimeSpan;

verus! {

/// Which program the launcher starts.
#[derive(Clone, Copy, Debug, PartialEq, Eq, Structural)]
pub enum Mode {
    Client,
    Server,
}

/// An IPv4 address with a port.
#[derive(Clone, Copy, Debug, PartialEq, Eq, Structural)]
pub struct SocketAddress {
    pub ip: Ipv4Address,
    pub port: u16,
}

/// The timing settings both the client and the server run with.
#[derive(Clone, Copy, Debug, PartialEq, Eq)]
pub struct SharedTiming {
    pub server_replication_send_interval: TimeSpan,
    pub client_replication_send_interval: TimeSpan,
    pub tick_duration: TimeSpan,
}

/// The timing that shared options ask for: their replication intervals, and
/// their simulation update frequency as the tick duration.
pub open spec fn spec_shared_timing(o: SharedLaunchOptions) -> SharedTiming {
    SharedTiming {
        server_replication_send_interval: o.server_replication_send_interval,
        client_replication_send_interval: o.client_replication_send_interval,
        tick_duration: o.simulation_update_frequency,
    }
}

/// The timing keeps each replication interval in its own place and ticks at
/// the simulation update frequency.
pub proof fn lemma_shared_timing(o: SharedLaunchOptions)
    ensures
        spec_shared_timing(o).server_replication_send_interval == o.server_replication_send_interval,
        spec_shared_timing(o).client_replication_send_interval == o.client_replication_send_interval,
        spec_shared_timing(o).tick_duration == o.simulation_update_frequency,
{
}

impl SharedTiming {
    /// The timing that shared options ask for.
    pub fn from_options(o: &SharedLaunchOptions) -> (t: SharedTiming)
        ensures
            t == spec_shared_timing(*o),
            t.server_replication_send_interval == o.server_replication_send_interval,
            t.client_replication_send_interval == o.client_replication_send_interval,
            t.tick_duration == o.simulation_update_frequency,
    {
        SharedTiming {
            server_replication_send_interval: o.server_replication_send_interval,
            client_replication_send_interval: o.client_replication_send_interval,
            tick_duration: o.simulation_update_frequency,
        }
    }
}

/// How a client reaches its server.
#[derive(Clone, Copy, Debug, PartialEq, Eq, Structural)]
pub enum ClientTransportPlan {
    /// In-process channels to a server hosted by the same program.
    LocalChannel,
    /// A UDP socket bound to the given address.
    UdpSocket(SocketAddress),
}

/// A netcode client: its transport, its manual authentication (server
/// address, client id, private key, protocol id), its connection timeouts,
/// and its prediction and interpolation tuning. Settings not named here keep
/// the networking library's defaults.
#[derive(Clone, Copy, Debug, PartialEq, Eq)]
pub struct NetcodeClientPlan {
    pub transport: ClientTransportPlan,
    pub server_addr: SocketAddress,
    pub client_id: u64,
    pub private_key: [u8; 32],
    pub protocol_id: u64,
    pub token_expire_secs: i32,
    pub client_timeout_secs: i32,
    pub correction_ticks_factor_bits: u32,
    pub min_delay: TimeSpan,
    /// The IEEE-754 bit pattern of the interpolation send-interval ratio, a
    /// 32-bit float.
    pub send_interval_ratio_bits: u32,
}

/// The interpolation send-interval ratio clients use: `0.0`, as bits.
pub const SEND_INTERVAL_RATIO_BITS: u32 = 0;

/// Connect tokens never expire.
pub const TOKEN_EXPIRE_NEVER: i32 = -1;

/// A client gives up on a silent server after five seconds.
pub const CLIENT_TIMEOUT_SECS: i32 = 5;

/// The client that joins a server hosted by the same program: local
/// channels, and the loopback address with port 0 as the server address.
pub open spec fn spec_local_client(
    client_id: u64,
    shared: SharedLaunchOptions,
    client: ClientLaunchOptions,
) -> NetcodeClientPlan {
    NetcodeClientPlan {
        transport: ClientTransportPlan::LocalChannel,
        server_addr: SocketAddress { ip: Ipv4Address::spec_localhost(), port: 0 },
        client_id,
        private_key: shared.key,
        protocol_id: shared.protocol_id,
        token_expire_secs: TOKEN_EXPIRE_NEVER,
        client_timeout_secs: CLIENT_TIMEOUT_SECS,
        correction_ticks_factor_bits: client.correction_ticks_factor_bits,
        min_delay: client.min_delay,
        send_interval_ratio_bits: SEND_INTERVAL_RATIO_BITS,
    }
}

/// The client that joins a remote server: a UDP socket on the client's
/// listen address and port, and the configured server address and port.
pub open spec fn spec_remote_client(
    client_id: u64,
    shared: SharedLaunchOptions,
    client: ClientLaunchOptions,
) -> NetcodeClientPlan {
    NetcodeClientPlan {
        transport: ClientTransportPlan::UdpSocket(
            SocketAddress { ip: client.listen_addr, port: client.listen_port },
        ),
        server_addr: SocketAddress { ip: client.server_addr, port: client.server_port },
        client_id,
        private_key: shared.key,
        protocol_id: shared.protocol_id,
        token_expire_secs: TOKEN_EXPIRE_NEVER,
        client_timeout_secs: CLIENT_TIMEOUT_SECS,
        correction_ticks_factor_bits: client.correction_ticks_factor_bits,
        min_delay: client.min_delay,
        send_interval_ratio_bits: SEND_INTERVAL_RATIO_BITS,
    }
}

/// The two clients of a client launch authenticate alike, with the given
/// client id, the shared key and protocol id, never-expiring tokens and a
/// five-second timeout, and both predict and interpolate with the client
/// options' correction factor and minimum delay. The remote one binds a UDP
/// socket to the client options' listen address and port and joins the
/// server address and port they name; the self-hosting one uses in-process
/// channels.
pub proof fn lemma_client_plans(client_id: u64, shared: SharedLaunchOptions, client: ClientLaunchOptions)
    ensures
        ({
            let r = spec_remote_client(client_id, shared, client);
            let l = spec_local_client(client_id, shared, client);
            &&& r.transport == ClientTransportPlan::UdpSocket(
                SocketAddress { ip: client.listen_addr, port: client.listen_port },
            )
            &&& r.server_addr == (SocketAddress { ip: client.server_addr, port: client.server_port })
            &&& l.transport == ClientTransportPlan::LocalChannel
            &&& r.client_id == client_id && l.client_id == client_id
            &&& r.private_key == shared.key && l.private_key == shared.key
            &&& r.protocol_id == shared.protocol_id && l.protocol_id == shared.protocol_id
            &&& r.token_expire_secs == -1 && l.token_expire_secs == -1
            &&& r.client_timeout_secs == 5 && l.client_timeout_secs == 5
            &&& r.correction_ticks_factor_bits == client.correction_ticks_factor_bits
            &&& l.correction_ticks_factor_bits == client.correction_ticks_factor_bits
            &&& r.min_delay == client.min_delay && l.min_delay == client.min_delay
            &&& r.send_interval_ratio_bits == 0 && l.send_interval_ratio_bits == 0
        }),
{
}

fn local_client(
    client_id: u64,
    shared: &SharedLaunchOptions,
    client: &ClientLaunchOptions,
) -> (p: NetcodeClientPlan)
    ensures
        p == spec_local_client(client_id, *shared, *client),
        p.transport == ClientTransportPlan::LocalChannel,
        p.client_id == client_id,
        p.correction_ticks_factor_bits == client.correction_ticks_factor_bits,
        p.min_delay == client.min_delay,
{
    NetcodeClientPlan {
        transport: ClientTransportPlan::LocalChannel,
        server_addr: SocketAddress { ip: Ipv4Address::localhost(), port: 0 },
        client_id,
        private_key: shared.key,
        protocol_id: shared.protocol_id,
        token_expire_secs: TOKEN_EXPIRE_NEVER,
        client_timeout_secs: CLIENT_TIMEOUT_SECS,
        correction_ticks_factor_bits: client.correction_ticks_factor_bits,
        min_delay: client.min_delay,
        send_interval_ratio_bits: SEND_INTERVAL_RATIO_BITS,
    }
}

fn remote_client(
    client_id: u64,
    shared: &SharedLaunchOptions,
    client: &ClientLaunchOptions,
) -> (p: NetcodeClientPlan)
    ensures
        p == spec_remote_client(client_id, *shared, *client),
        p.transport == ClientTransportPlan::UdpSocket(
            SocketAddress { ip: client.listen_addr, port: client.listen_port },
        ),
        p.server_addr == (SocketAddress { ip: client.server_addr, port: client.server_port }),
        p.client_id == client_id,
        p.correction_ticks_factor_bits == client.correction_ticks_factor_bits,
        p.min_delay == client.min_delay,
{
    NetcodeClientPlan {
        transport: ClientTransportPlan::UdpSocket(
            SocketAddress { ip: client.listen_addr, port: client.listen_port },
        ),
        server_addr: SocketAddress { ip: client.server_addr, port: client.server_port },
        client_id,
        private_key: shared.key,
        protocol_id: shared.protocol_id,
        token_expire_secs: TOKEN_EXPIRE_NEVER,
        client_timeout_secs: CLIENT_TIMEOUT_SECS,
        correction_ticks_factor_bits: client.correction_ticks_factor_bits,
        min_delay: client.min_delay,
        send_interval_ratio_bits: SEND_INTERVAL_RATIO_BITS,
    }
}

/// One way clients reach the server.
#[derive(Clone, Copy, Debug, PartialEq, Eq, Structural)]
pub enum ServerTransportPlan {
    /// A UDP socket for desktop clients.
    UdpSocket(SocketAddress),
    /// In-process channels for a client hosting the server itself.
    Channels(SocketAddress),
    /// A WebTransport endpoint for browser clients.
    WebTransport(SocketAddress),
}

/// The server's netcode settings: protocol id and key, the transports it
/// listens on (each with the same simulated link conditions).
#[derive(Clone, Debug, PartialEq, Eq)]
pub struct ServerNetPlan {
    pub protocol_id: u64,
    pub key: [u8; 32],
    pub conditioner: LinkConditionerConfig,
    pub transports: Vec<ServerTransportPlan>,
}

/// The port of the in-process channel endpoint; channels do not use it.
pub const CHANNEL_PORT: u16 = 12027;

/// The UDP endpoint of a server.
pub open spec fn spec_udp_endpoint(server: ServerLaunchOptions) -> ServerTransportPlan {
    ServerTransportPlan::UdpSocket(
        SocketAddress { ip: server.listen_addr, port: server.udp_listen_port },
    )
}

/// The WebTransport endpoint of a server.
pub open spec fn spec_webtransport_endpoint(server: ServerLaunchOptions) -> ServerTransportPlan {
    ServerTransportPlan::WebTransport(
        SocketAddress { ip: server.listen_addr, port: server.webtransport_listen_port },
    )
}

/// The in-process channel endpoint for a client hosting its own server.
pub open spec fn spec_channel_endpoint() -> ServerTransportPlan {
    ServerTransportPlan::Channels(SocketAddress { ip: Ipv4Address::spec_localhost(), port: CHANNEL_PORT })
}

/// The transports a server listens on: UDP; then, for a client that hosts
/// it, in-process channels; then WebTransport where its certificate and key
/// could be loaded.
pub open spec fn spec_server_transports(
    server: ServerLaunchOptions,
    hosted_by_client: bool,
    webtransport_identity_loaded: bool,
) -> Seq<ServerTransportPlan> {
    let base = if hosted_by_client {
        seq![spec_udp_endpoint(server), spec_channel_endpoint()]
    } else {
        seq![spec_udp_endpoint(server)]
    };
    if webtransport_identity_loaded {
        base.push(spec_webtransport_endpoint(server))
    } else {
        base
    }
}

/// A server listens on UDP first, at its listen address and UDP port; a
/// client that hosts it joins over in-process channels, which no other
/// server has; and where its certificate and key could be loaded it listens
/// last on WebTransport at its listen address and WebTransport port, and
/// otherwise not on WebTransport at all. Every UDP endpoint is at the UDP
/// port and every WebTransport endpoint at the WebTransport port.
pub proof fn lemma_server_transports(
    server: ServerLaunchOptions,
    hosted_by_client: bool,
    webtransport_identity_loaded: bool,
)
    ensures
        ({
            let t = spec_server_transports(server, hosted_by_client, webtransport_identity_loaded);
            let udp = SocketAddress { ip: server.listen_addr, port: server.udp_listen_port };
            let web = SocketAddress { ip: server.listen_addr, port: server.webtransport_listen_port };
            &&& t.len() == 1 + (if hosted_by_client { 1int } else { 0int }) + (
            if webtransport_identity_loaded { 1int } else { 0int })
            &&& t[0] == ServerTransportPlan::UdpSocket(udp)
            &&& hosted_by_client ==> t[1] == ServerTransportPlan::Channels(
                SocketAddress { ip: Ipv4Address::spec_localhost(), port: CHANNEL_PORT },
            )
            &&& webtransport_identity_loaded ==> t.last() == ServerTransportPlan::WebTransport(web)
            &&& forall|i: int| 0 <= i < t.len() ==> {
                &&& (#[trigger] t[i] matches ServerTransportPlan::UdpSocket(a) ==> a == udp)
                &&& (t[i] matches ServerTransportPlan::WebTransport(a) ==> webtransport_identity_loaded
                    && a == web)
                &&& (t[i] matches ServerTransportPlan::Channels(a) ==> hosted_by_client && a
                    == SocketAddress { ip: Ipv4Address::spec_localhost(), port: CHANNEL_PORT })
            }
        }),
{
}

/// The server's netcode settings for the given options.
pub fn server_net_plan(
    shared: &SharedLaunchOptions,
    server: &ServerLaunchOptions,
    hosted_by_client: bool,
    webtransport_identity_loaded: bool,
) -> (p: ServerNetPlan)
    ensures
        p.protocol_id == shared.protocol_id,
        p.key == shared.key,
        p.conditioner == server.conditioner,
        p.transports@ == spec_server_transports(*server, hosted_by_client, webtransport_identity_loaded),
        p.transports@[0] == ServerTransportPlan::UdpSocket(
            SocketAddress { ip: server.listen_addr, port: server.udp_listen_port },
        ),
        webtransport_identity_loaded ==> p.transports@.last() == ServerTransportPlan::WebTransport(
            SocketAddress { ip: server.listen_addr, port: server.webtransport_listen_port },
        ),
        forall|i: int| 0 <= i < p.transports@.len() ==> {
            &&& (#[trigger] p.transports@[i] matches ServerTransportPlan::UdpSocket(a) ==> a
                == SocketAddress { ip: server.listen_addr, port: server.udp_listen_port })
            &&& (p.transports@[i] matches ServerTransportPlan::WebTransport(a)
                ==> webtransport_identity_loaded && a == SocketAddress {
                ip: server.listen_addr,
                port: server.webtransport_listen_port,
            })
            &&& (p.transports@[i] matches ServerTransportPlan::Channels(_) ==> hosted_by_client)
        },
{
    let mut transports: Vec<ServerTransportPlan> = Vec::new();
    transports.push(
        ServerTransportPlan::UdpSocket(
            SocketAddress { ip: server.listen_addr, port: server.udp_listen_port },
        ),
    );
    if hosted_by_client {
        transports.push(
            ServerTransportPlan::Channels(SocketAddress { ip: Ipv4Address::localhost(), port: CHANNEL_PORT }),
        );
    }
    if webtransport_identity_loaded {
        transports.push(
            ServerTransportPlan::WebTransport(
                SocketAddress { ip: server.listen_addr, port: server.webtransport_listen_port },
            ),
        );
    }
    let p = ServerNetPlan {
        protocol_id: shared.protocol_id,
        key: shared.key,
        conditioner: server.conditioner,
        transports,
    };
    assert(p.transports@ =~= spec_server_transports(*server, hosted_by_client, webtransport_identity_loaded));
    proof {
        lemma_server_transports(*server, hosted_by_client, webtransport_identity_loaded);
    }
    p
}

/// How a server app runs: in a window, headless, or hosted by the client
/// with the given client id.
#[derive(Clone, Copy, Debug, PartialEq, Eq, Structural)]
pub enum ServerMode {
    Windowed,
    Headless,
    ClientHost(u64),
}

impl ServerMode {
    /// The mode of the server that the self-hosting client `local` starts:
    /// hosted by that client's id.
    pub fn hosted_by(local: &NetcodeClientPlan) -> (m: ServerMode)
        ensures
            m == ServerMode::ClientHost(local.client_id),
    {
        ServerMode::ClientHost(local.client_id)
    }

    /// Whether a shutdown request sent by client `from` stops this server:
    /// only a server hosted by that very client stops.
    pub fn stops_on_request_from(&self, from: u64) -> (b: bool)
        ensures
            b == (*self matches ServerMode::ClientHost(owner) && owner == from),
    {
        match self {
            ServerMode::ClientHost(owner) => *owner == from,
            _ => false,
        }
    }

    /// Whether this frame's shutdown requests, by sender, stop this server:
    /// a server hosted by a client stops when that client asked.
    pub fn stops_on_requests(&self, senders: &Vec<u64>) -> (b: bool)
        ensures
            b == (*self matches ServerMode::ClientHost(owner) && senders@.contains(owner)),
    {
        let mut i: usize = 0;
        while i < senders.len()
            invariant
                i <= senders.len(),
                forall|j: int| 0 <= j < i ==> !(*self matches ServerMode::ClientHost(owner) && #[trigger] senders@[j] == owner),
            decreases senders.len() - i,
        {
            if self.stops_on_request_from(senders[i]) {
                return true;
            }
            i = i + 1;
        }
        false
    }

    /// Whether the whole app exits once its server stops: a server hosted by
    /// a client runs in an app of its own, which ends with it.
    pub fn exits_when_stopped(&self) -> (b: bool)
        ensures
            b == (*self is ClientHost),
    {
        match self {
            ServerMode::ClientHost(_) => true,
            _ => false,
        }
    }
}

/// The shape of a server app: a window with rendering, or a headless loop
/// ticking at a fixed period; and whether it installs its own logging.
#[derive(Clone, Copy, Debug, PartialEq, Eq)]
pub struct ServerAppPlan {
    pub windowed: bool,
    pub headless_tick: Option<TimeSpan>,
    pub logging: bool,
}

/// A headless server loop runs a hundred times a second.
pub const HEADLESS_TICK_MILLIS: u64 = 10;

/// The shape of a server app in the given mode: only a windowed server
/// renders; the others loop every 10 ms; a server hosted by a client leaves
/// logging to the client's app.
pub fn server_app_plan(mode: ServerMode) -> (p: ServerAppPlan)
    ensures
        p.windowed == (mode == ServerMode::Windowed),
        p.headless_tick == (if mode == ServerMode::Windowed {
            None
        } else {
            Some(TimeSpan::spec_from_millis(HEADLESS_TICK_MILLIS))
        }),
        p.logging == !(mode is ClientHost),
{
    match mode {
        ServerMode::Windowed => ServerAppPlan { windowed: true, headless_tick: None, logging: true },
        ServerMode::Headless => ServerAppPlan {
            windowed: false,
            headless_tick: Some(TimeSpan::from_millis(HEADLESS_TICK_MILLIS)),
            logging: true,
        },
        ServerMode::ClientHost(_) => ServerAppPlan {
            windowed: false,
            headless_tick: Some(TimeSpan::from_millis(HEADLESS_TICK_MILLIS)),
            logging: false,
        },
    }
}

/// Everything a client launch needs: the shared timing, the remote and the
/// self-hosting client, the server it may host, and its asset folder.
#[derive(Clone, Debug, PartialEq, Eq)]
pub struct ClientLaunchPlan {
    pub shared: SharedTiming,
    pub remote: NetcodeClientPlan,
    pub local: NetcodeClientPlan,
    pub server: ServerNetPlan,
    pub asset_path: String,
}

/// Everything a server launch needs: the shared timing, the server's
/// netcode settings, its mode, and its asset folder.
#[derive(Clone, Debug, PartialEq, Eq)]
pub struct ServerLaunchPlan {
    pub shared: SharedTiming,
    pub server: ServerNetPlan,
    pub mode: ServerMode,
    pub asset_path: String,
}

/// What the launcher starts.
#[derive(Clone, Debug, PartialEq, Eq)]
pub enum LaunchPlan {
    Client(ClientLaunchPlan),
    Server(ServerLaunchPlan),
}

/// Why the launcher refuses to start.
#[derive(Clone, Copy, Debug, PartialEq, Eq, Structural)]
pub enum LaunchError {
    /// Client mode without a client id (zero).
    MissingClientId,
}

impl LaunchError {
    /// The message the launcher stops with.
    pub fn message(&self) -> (s: &'static str)
        ensures
            s@ == "No --client_id specified. To connect with multiple clients, specify a unique client id with --client_id <id>"@,
    {
        match self {
            LaunchError::MissingClientId => "No --client_id specified. To connect with multiple clients, specify a unique client id with --client_id <id>",
        }
    }
}

/// `p` is the launch of a client with id `client_id`.
pub open spec fn is_client_launch(
    p: ClientLaunchPlan,
    client_id: u64,
    shared: SharedLaunchOptions,
    client: ClientLaunchOptions,
    server: ServerLaunchOptions,
    webtransport_identity_loaded: bool,
) -> bool {
    &&& p.shared == spec_shared_timing(shared)
    &&& p.remote == spec_remote_client(client_id, shared, client)
    &&& p.local == spec_local_client(client_id, shared, client)
    &&& p.server.protocol_id == shared.protocol_id
    &&& p.server.key == shared.key
    &&& p.server.conditioner == server.conditioner
    &&& p.server.transports@ == spec_server_transports(server, true, webtransport_identity_loaded)
    &&& p.asset_path == client.asset_path
}

/// `p` is the launch of a server; it is headless when the command line or
/// its options ask for it.
pub open spec fn is_server_launch(
    p: ServerLaunchPlan,
    headless_flag: bool,
    shared: SharedLaunchOptions,
    server: ServerLaunchOptions,
    webtransport_identity_loaded: bool,
) -> bool {
    &&& p.shared == spec_shared_timing(shared)
    &&& p.server.protocol_id == shared.protocol_id
    &&& p.server.key == shared.key
    &&& p.server.conditioner == server.conditioner
    &&& p.server.transports@ == spec_server_transports(server, false, webtransport_identity_loaded)
    &&& p.mode == (if headless_flag || server.headless {
        ServerMode::Headless
    } else {
        ServerMode::Windowed
    })
    &&& p.asset_path == server.asset_path
}

/// The server options a launch runs with: a client always runs the server it
/// may host headless; a server keeps its options.
pub fn server_options_for(mode: Mode, server: ServerLaunchOptions) -> (r: ServerLaunchOptions)
    ensures
        r.headless == (mode == Mode::Client || server.headless),
        r.listen_addr == server.listen_addr,
        r.udp_listen_port == server.udp_listen_port,
        r.webtransport_listen_port == server.webtransport_listen_port,
        r.conditioner == server.conditioner,
        r.webtransport_cert_path == server.webtransport_cert_path,
        r.webtransport_key_path == server.webtransport_key_path,
        r.asset_path == server.asset_path,
{
    let mut r = server;
    if mode == Mode::Client {
        r.headless = true;
    }
    r
}

/// Decides what the launcher starts from the command line (`mode`, the
/// `--headless` flag and `--client-id`), the loaded options, and whether the
/// WebTransport certificate and key could be loaded.
///
/// A client needs a nonzero client id; it runs a remote client, a
/// self-hosting client and the server it may host (which listens on UDP,
/// on in-process channels and, with a certificate, on WebTransport). A
/// server listens on UDP and, with a certificate, on WebTransport.
pub fn plan_launch(
    mode: Mode,
    headless_flag: bool,
    client_id: u64,
    shared: &SharedLaunchOptions,
    client: ClientLaunchOptions,
    server: ServerLaunchOptions,
    webtransport_identity_loaded: bool,
) -> (r: Result<LaunchPlan, LaunchError>)
    ensures
        r == Err::<LaunchPlan, LaunchError>(LaunchError::MissingClientId) <==> (mode == Mode::Client
            && client_id == 0),
        mode == Mode::Client && client_id != 0 ==> (r matches Ok(LaunchPlan::Client(p))
            && is_client_launch(p, client_id, *shared, client, server, webtransport_identity_loaded)),
        mode == Mode::Server ==> (r matches Ok(LaunchPlan::Server(p)) && is_server_launch(
            p,
            headless_flag,
            *shared,
            server,
            webtransport_identity_loaded,
        )),
        r matches Ok(LaunchPlan::Client(p)) ==> {
            &&& p.remote.transport == ClientTransportPlan::UdpSocket(
                SocketAddress { ip: client.listen_addr, port: client.listen_port },
            )
            &&& p.remote.server_addr == (SocketAddress { ip: client.server_addr, port: client.server_port })
            &&& p.local.transport == ClientTransportPlan::LocalChannel
            &&& p.remote.client_id == client_id && p.local.client_id == client_id
            &&& p.remote.correction_ticks_factor_bits == client.correction_ticks_factor_bits
            &&& p.local.correction_ticks_factor_bits == client.correction_ticks_factor_bits
            &&& p.remote.min_delay == client.min_delay && p.local.min_delay == client.min_delay
            &&& p.asset_path == client.asset_path
            &&& p.shared.server_replication_send_interval == shared.server_replication_send_interval
            &&& p.shared.client_replication_send_interval == shared.client_replication_send_interval
            &&& p.shared.tick_duration == shared.simulation_update_frequency
            &&& p.server.protocol_id == shared.protocol_id && p.server.key == shared.key
            &&& p.server.conditioner == server.conditioner
        },
        r matches Ok(LaunchPlan::Server(p)) ==> {
            &&& p.mode == (if headless_flag || server.headless {
                ServerMode::Headless
            } else {
                ServerMode::Windowed
            })
            &&& p.asset_path == server.asset_path
            &&& p.shared.server_replication_send_interval == shared.server_replication_send_interval
            &&& p.shared.client_replication_send_interval == shared.client_replication_send_interval
            &&& p.shared.tick_duration == shared.simulation_update_frequency
            &&& p.server.protocol_id == shared.protocol_id && p.server.key == shared.key
            &&& p.server.conditioner == server.conditioner
        },
        r matches Ok(p) ==> {
            let net = match p {
                LaunchPlan::Client(c) => c.server,
                LaunchPlan::Server(v) => v.server,
            };
            &&& net.transports@[0] == ServerTransportPlan::UdpSocket(
                SocketAddress { ip: server.listen_addr, port: server.udp_listen_port },
            )
            &&& webtransport_identity_loaded ==> net.transports@.last()
                == ServerTransportPlan::WebTransport(
                SocketAddress { ip: server.listen_addr, port: server.webtransport_listen_port },
            )
            &&& forall|i: int| 0 <= i < net.transports@.len() ==> {
                &&& (#[trigger] net.transports@[i] matches ServerTransportPlan::UdpSocket(a) ==> a
                    == SocketAddress { ip: server.listen_addr, port: server.udp_listen_port })
                &&& (net.transports@[i] matches ServerTransportPlan::WebTransport(a)
                    ==> webtransport_identity_loaded && a == SocketAddress {
                    ip: server.listen_addr,
                    port: server.webtransport_listen_port,
                })
            }
        },
{
    let timing = SharedTiming::from_options(shared);
    match mode {
        Mode::Client => {
            if client_id == 0 {
                return Err(LaunchError::MissingClientId);
            }
            let local = local_client(client_id, shared, &client);
            let remote = remote_client(client_id, shared, &client);
            let net = server_net_plan(shared, &server, true, webtransport_identity_loaded);
            Ok(
                LaunchPlan::Client(
                    ClientLaunchPlan {
                        shared: timing,
                        remote,
                        local,
                        server: net,
                        asset_path: client.asset_path,
                    },
                ),
            )
        },
        Mode::Server => {
            let headless = headless_flag || server.headless;
            let net = server_net_plan(shared, &server, false, webtransport_identity_loaded);
            let server_mode = if headless {
                ServerMode::Headless
            } else {
                ServerMode::Windowed
            };
            Ok(
                LaunchPlan::Server(
                    ServerLaunchPlan {
                        shared: timing,
                        server: net,
                        mode: server_mode,
                        asset_path: server.asset_path,
                    },
                ),
            )
        },
    }
}


/// Which settings file.
#[derive(Clone, Copy, Debug, PartialEq, Eq, Structural)]
pub enum ConfigKind {
    Shared,
    Client,
    Server,
}

/// Where a settings file is looked for when the command line names none.
pub open spec fn spec_default_config_path(kind: ConfigKind) -> Seq<char> {
    match kind {
        ConfigKind::Shared => "./crates/pha-launcher/options/shared_options.ron"@,
        ConfigKind::Client => "./crates/pha-launcher/options/client_options.ron"@,
        ConfigKind::Server => "./crates/pha-launcher/options/server_options.ron"@,
    }
}

/// Where a settings file is looked for when the command line names none.
pub fn default_config_path(kind: ConfigKind) -> (p: &'static str)
    ensures
        p@ == spec_default_config_path(kind),
{
    match kind {
        ConfigKind::Shared => "./crates/pha-launcher/options/shared_options.ron",
        ConfigKind::Client => "./crates/pha-launcher/options/client_options.ron",
        ConfigKind::Server => "./crates/pha-launcher/options/server_options.ron",
    }
}

/// The settings file to read: the one the command line names, else the
/// default one for its kind.
pub fn config_path(given: Option<String>, kind: ConfigKind) -> (p: String)
    ensures
        match given {
            Some(g) => p == g,
            None => p@ == spec_default_config_path(kind),
        },
{
    match given {
        Some(g) => g,
        None => String::from_str(default_config_path(kind)),
    }
}

/// The text of a certificate digest as a browser client takes it: the
/// certificate hash's text with its `:` separators left out.
pub open spec fn spec_digest_text(hash: Seq<char>) -> Seq<char> {
    hash.filter(|c: char| c != ':')
}

/// The certificate digest a server announces, from the text of its
/// certificate's hash.
pub fn certificate_digest_text(hash: &str) -> (d: String)
    ensures
        d@ == spec_digest_text(hash@),
        d@ == hash@.filter(|c: char| c != ':'),
        d@.len() <= hash@.len(),
        forall|i: int| 0 <= i < d@.len() ==> #[trigger] d@[i] != ':',
{
    let ghost kept = |c: char| c != ':';
    let n = hash.unicode_len();
    let mut d = String::new();
    proof {
        assert(hash@.take(0) =~= Seq::<char>::empty());
        assert(hash@.take(0).filter(kept) =~= Seq::<char>::empty());
    }
    let mut i: usize = 0;
    while i < n
        invariant
            i <= n,
            n == hash@.len(),
            kept == (|c: char| c != ':'),
            d@ == hash@.take(i as int).filter(kept),
        decreases n - i,
    {
        let c = hash.get_char(i);
        proof {
            assert(hash@.take(i + 1) =~= hash@.take(i as int).push(c));
            hash@.take(i as int).lemma_filter_push(c, kept);
        }
        if c != ':' {
            let one = hash.substring_char(i, i + 1);
            proof {
                assert(one@ =~= seq![c]);
            }
            d.append(one);
            proof {
                assert(d@ =~= hash@.take(i + 1).filter(kept));
            }
        }
        i = i + 1;
    }
    proof {
        assert(hash@.take(n as int) =~= hash@);
        hash@.lemma_filter_len(kept);
        assert forall|i: int| 0 <= i < d@.len() implies #[trigger] d@[i] != ':' by {
            hash@.lemma_filter_pred(kept, i);
        }
    }
    d
}

/// The digest text keeps every character of the hash text but `:`, in
/// order: the empty text gives the empty digest, a `:` added to the hash
/// text adds nothing, and any other character added to it is added to the
/// digest.
pub proof fn lemma_digest_text(hash: Seq<char>, c: char)
    ensures
        spec_digest_text(Seq::<char>::empty()) == Seq::<char>::empty(),
        spec_digest_text(hash.push(':')) == spec_digest_text(hash),
        c != ':' ==> spec_digest_text(hash.push(c)) == spec_digest_text(hash).push(c),
        spec_digest_text(hash).len() <= hash.len(),
{
    let kept = |x: char| x != ':';
    assert(Seq::<char>::empty().filter(kept) =~= Seq::<char>::empty());
    hash.lemma_filter_push(':', kept);
    hash.lemma_filter_push(c, kept);
    hash.lemma_filter_len(kept);
}

} // verus!
