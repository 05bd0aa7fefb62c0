use vstd::prelude::*;
use vstd::std_specs::convert::FromSpecImpl;

use crate::ipv4::{ipv4_text, parse_ipv4, Ipv4Address};
use crate::time_span::{millis_u64_of, TimeSpan, NANOS_PER_MILLI};

verus! {

/// Simulated network conditions on the incoming side of a link: added
/// latency, jitter, and a loss ratio.
///
/// The loss ratio is a 32-bit float that the launcher only carries from the
/// settings file to the network layer; it is held here as its IEEE-754 bit
/// pattern (`f32::to_bits`), which every conversion copies unchanged.
#[derive(Clone, Copy, Debug, PartialEq, Eq)]
pub struct LinkConditionerConfig {
    pub incoming_latency: TimeSpan,
    pub incoming_jitter: TimeSpan,
    pub incoming_loss_bits: u32,
}

/// The settings-file form of [`LinkConditionerConfig`]: spans as whole
/// milliseconds.
#[derive(Clone, Copy, Debug, PartialEq, Eq)]
pub struct SerializableLinkConditionerConfig {
    pub incoming_latency_ms: u64,
    pub incoming_jitter_ms: u64,
    pub incoming_loss_bits: u32,
}

/// The settings-file form of a conditioner: each span as its whole
/// milliseconds, wrapped to 64 bits.
pub open spec fn conditioner_to_serializable(c: LinkConditionerConfig) -> SerializableLinkConditionerConfig {
    SerializableLinkConditionerConfig {
        incoming_latency_ms: millis_u64_of(c.incoming_latency@),
        incoming_jitter_ms: millis_u64_of(c.incoming_jitter@),
        incoming_loss_bits: c.incoming_loss_bits,
    }
}

/// The conditioner that a settings-file conditioner describes.
pub open spec fn conditioner_from_serializable(s: SerializableLinkConditionerConfig) -> LinkConditionerConfig {
    LinkConditionerConfig {
        incoming_latency: TimeSpan::spec_from_millis(s.incoming_latency_ms),
        incoming_jitter: TimeSpan::spec_from_millis(s.incoming_jitter_ms),
        incoming_loss_bits: s.incoming_loss_bits,
    }
}

impl From<LinkConditionerConfig> for SerializableLinkConditionerConfig {
    fn from(config: LinkConditionerConfig) -> (s: Self)
        ensures
            s == conditioner_to_serializable(config),
            s.incoming_latency_ms as nat == (config.incoming_latency@ / (NANOS_PER_MILLI as nat)) % 0x1_0000_0000_0000_0000,
            s.incoming_jitter_ms as nat == (config.incoming_jitter@ / (NANOS_PER_MILLI as nat)) % 0x1_0000_0000_0000_0000,
            s.incoming_loss_bits == config.incoming_loss_bits,
    {
        SerializableLinkConditionerConfig {
            incoming_latency_ms: config.incoming_latency.millis_u64(),
            incoming_jitter_ms: config.incoming_jitter.millis_u64(),
            incoming_loss_bits: config.incoming_loss_bits,
        }
    }
}

impl FromSpecImpl<LinkConditionerConfig> for SerializableLinkConditionerConfig {
    open spec fn obeys_from_spec() -> bool {
        true
    }

    open spec fn from_spec(config: LinkConditionerConfig) -> Self {
        conditioner_to_serializable(config)
    }
}

impl From<SerializableLinkConditionerConfig> for LinkConditionerConfig {
    fn from(config: SerializableLinkConditionerConfig) -> (c: Self)
        ensures
            c == conditioner_from_serializable(config),
            c.incoming_latency@ == config.incoming_latency_ms * NANOS_PER_MILLI,
            c.incoming_jitter@ == config.incoming_jitter_ms * NANOS_PER_MILLI,
            c.incoming_loss_bits == config.incoming_loss_bits,
    {
        LinkConditionerConfig {
            incoming_latency: TimeSpan::from_millis(config.incoming_latency_ms),
            incoming_jitter: TimeSpan::from_millis(config.incoming_jitter_ms),
            incoming_loss_bits: config.incoming_loss_bits,
        }
    }
}

impl FromSpecImpl<SerializableLinkConditionerConfig> for LinkConditionerConfig {
    open spec fn obeys_from_spec() -> bool {
        true
    }

    open spec fn from_spec(config: SerializableLinkConditionerConfig) -> Self {
        conditioner_from_serializable(config)
    }
}

/// A span written as whole milliseconds and read back is the same span.
pub proof fn lemma_millis_roundtrip(ms: u64)
    ensures
        millis_u64_of(TimeSpan::spec_from_millis(ms)@) == ms,
{
    TimeSpan::lemma_spec_from_millis(ms);
    assert(((ms as nat) * (NANOS_PER_MILLI as nat)) / (NANOS_PER_MILLI as nat) == ms) by (nonlinear_arith);
}

/// A span read back from its whole milliseconds keeps its whole
/// milliseconds, as long as they fit in 64 bits.
pub proof fn lemma_span_roundtrip(d: TimeSpan)
    requires
        d@ / (NANOS_PER_MILLI as nat) <= u64::MAX,
    ensures
        TimeSpan::spec_from_millis(millis_u64_of(d@))@ == (d@ / (NANOS_PER_MILLI as nat)) * (
        NANOS_PER_MILLI as nat),
{
    TimeSpan::lemma_spec_from_millis(millis_u64_of(d@));
}

/// Reading a settings-file conditioner and writing it back gives the same
/// settings.
pub proof fn lemma_conditioner_file_roundtrip(s: SerializableLinkConditionerConfig)
    ensures
        conditioner_to_serializable(conditioner_from_serializable(s)) == s,
{
    lemma_millis_roundtrip(s.incoming_latency_ms);
    lemma_millis_roundtrip(s.incoming_jitter_ms);
}

/// Writing a conditioner to the settings file and reading it back keeps the
/// loss ratio and the whole milliseconds of each span (below 2^64 ms).
pub proof fn lemma_conditioner_roundtrip(c: LinkConditionerConfig)
    requires
        c.incoming_latency@ / (NANOS_PER_MILLI as nat) <= u64::MAX,
        c.incoming_jitter@ / (NANOS_PER_MILLI as nat) <= u64::MAX,
    ensures
        ({
            let r = conditioner_from_serializable(conditioner_to_serializable(c));
            &&& r.incoming_latency@ == (c.incoming_latency@ / (NANOS_PER_MILLI as nat)) * (
            NANOS_PER_MILLI as nat)
            &&& r.incoming_jitter@ == (c.incoming_jitter@ / (NANOS_PER_MILLI as nat)) * (
            NANOS_PER_MILLI as nat)
            &&& r.incoming_loss_bits == c.incoming_loss_bits
        }),
{
    lemma_span_roundtrip(c.incoming_latency);
    lemma_span_roundtrip(c.incoming_jitter);
}


/// Settings shared by the client and the server: the protocol identity, the
/// private key, and the simulation and replication rates.
#[derive(Clone, Copy, Debug, PartialEq, Eq)]
pub struct SharedLaunchOptions {
    pub protocol_id: u64,
    pub key: [u8; 32],
    pub simulation_update_frequency: TimeSpan,
    pub server_replication_send_interval: TimeSpan,
    pub client_replication_send_interval: TimeSpan,
}

impl Default for SharedLaunchOptions {
    /// Protocol 0, an all-zero key, a 16 ms simulation tick, and replication
    /// sent on every tick.
    fn default() -> (r: Self)
        ensures
            is_default_shared(r),
    {
        let r = SharedLaunchOptions {
            protocol_id: 0,
            key: [0u8; 32],
            simulation_update_frequency: TimeSpan::from_millis(16),
            server_replication_send_interval: TimeSpan::from_millis(0),
            client_replication_send_interval: TimeSpan::from_millis(0),
        };
        assert(r.key@ =~= Seq::new(32, |i: int| 0u8));
        r
    }
}

/// `o` holds the default shared options: protocol 0, an all-zero key, a
/// 16 ms simulation tick, and replication sent on every tick.
pub open spec fn is_default_shared(o: SharedLaunchOptions) -> bool {
    &&& o.protocol_id == 0
    &&& o.key@ == Seq::new(32, |i: int| 0u8)
    &&& o.simulation_update_frequency == TimeSpan::spec_from_millis(16)
    &&& o.server_replication_send_interval == TimeSpan::spec_from_millis(0)
    &&& o.client_replication_send_interval == TimeSpan::spec_from_millis(0)
}

impl SharedLaunchOptions {
    /// The shared options to launch with: those that the settings file
    /// describes, or the defaults where no settings could be read.
    pub fn from_loaded(loaded: Option<SerializableSharedLaunchOptions>) -> (o: Self)
        ensures
            match loaded {
                Some(s) => o == shared_from_serializable(s),
                None => is_default_shared(o),
            },
    {
        match loaded {
            Some(s) => SharedLaunchOptions::from(s),
            None => SharedLaunchOptions::default(),
        }
    }
}

/// The settings-file form of [`SharedLaunchOptions`]: spans as whole
/// milliseconds.
#[derive(Clone, Copy, Debug, PartialEq, Eq)]
pub struct SerializableSharedLaunchOptions {
    pub protocol_id: u64,
    pub key: [u8; 32],
    pub simulation_update_frequency_ms: u64,
    pub server_replication_send_interval_ms: u64,
    pub client_replication_send_interval_ms: u64,
}

/// The settings-file form of shared options: each span as its whole
/// milliseconds, wrapped to 64 bits.
pub open spec fn shared_to_serializable(o: SharedLaunchOptions) -> SerializableSharedLaunchOptions {
    SerializableSharedLaunchOptions {
        protocol_id: o.protocol_id,
        key: o.key,
        simulation_update_frequency_ms: millis_u64_of(o.simulation_update_frequency@),
        server_replication_send_interval_ms: millis_u64_of(o.server_replication_send_interval@),
        client_replication_send_interval_ms: millis_u64_of(o.client_replication_send_interval@),
    }
}

/// The shared options that settings-file shared options describe.
pub open spec fn shared_from_serializable(s: SerializableSharedLaunchOptions) -> SharedLaunchOptions {
    SharedLaunchOptions {
        protocol_id: s.protocol_id,
        key: s.key,
        simulation_update_frequency: TimeSpan::spec_from_millis(s.simulation_update_frequency_ms),
        server_replication_send_interval: TimeSpan::spec_from_millis(
            s.server_replication_send_interval_ms,
        ),
        client_replication_send_interval: TimeSpan::spec_from_millis(
            s.client_replication_send_interval_ms,
        ),
    }
}

impl From<SharedLaunchOptions> for SerializableSharedLaunchOptions {
    fn from(options: SharedLaunchOptions) -> (s: Self)
        ensures
            s == shared_to_serializable(options),
            s.protocol_id == options.protocol_id,
            s.key == options.key,
            s.simulation_update_frequency_ms as nat == (options.simulation_update_frequency@ / (NANOS_PER_MILLI as nat)) % 0x1_0000_0000_0000_0000,
            s.server_replication_send_interval_ms as nat == (options.server_replication_send_interval@ / (NANOS_PER_MILLI as nat)) % 0x1_0000_0000_0000_0000,
            s.client_replication_send_interval_ms as nat == (options.client_replication_send_interval@ / (NANOS_PER_MILLI as nat)) % 0x1_0000_0000_0000_0000,
    {
        SerializableSharedLaunchOptions {
            protocol_id: options.protocol_id,
            key: options.key,
            simulation_update_frequency_ms: options.simulation_update_frequency.millis_u64(),
            server_replication_send_interval_ms: options.server_replication_send_interval.millis_u64(),
            client_replication_send_interval_ms: options.client_replication_send_interval.millis_u64(),
        }
    }
}

impl FromSpecImpl<SharedLaunchOptions> for SerializableSharedLaunchOptions {
    open spec fn obeys_from_spec() -> bool {
        true
    }

    open spec fn from_spec(options: SharedLaunchOptions) -> Self {
        shared_to_serializable(options)
    }
}

impl From<SerializableSharedLaunchOptions> for SharedLaunchOptions {
    fn from(options: SerializableSharedLaunchOptions) -> (o: Self)
        ensures
            o == shared_from_serializable(options),
            o.protocol_id == options.protocol_id,
            o.key == options.key,
            o.simulation_update_frequency@ == options.simulation_update_frequency_ms * NANOS_PER_MILLI,
            o.server_replication_send_interval@ == options.server_replication_send_interval_ms
                * NANOS_PER_MILLI,
            o.client_replication_send_interval@ == options.client_replication_send_interval_ms
                * NANOS_PER_MILLI,
    {
        SharedLaunchOptions {
            protocol_id: options.protocol_id,
            key: options.key,
            simulation_update_frequency: TimeSpan::from_millis(options.simulation_update_frequency_ms),
            server_replication_send_interval: TimeSpan::from_millis(
                options.server_replication_send_interval_ms,
            ),
            client_replication_send_interval: TimeSpan::from_millis(
                options.client_replication_send_interval_ms,
            ),
        }
    }
}

impl FromSpecImpl<SerializableSharedLaunchOptions> for SharedLaunchOptions {
    open spec fn obeys_from_spec() -> bool {
        true
    }

    open spec fn from_spec(options: SerializableSharedLaunchOptions) -> Self {
        shared_from_serializable(options)
    }
}

/// Reading settings-file shared options and writing them back gives the
/// same settings.
pub proof fn lemma_shared_file_roundtrip(s: SerializableSharedLaunchOptions)
    ensures
        shared_to_serializable(shared_from_serializable(s)) == s,
{
    lemma_millis_roundtrip(s.simulation_update_frequency_ms);
    lemma_millis_roundtrip(s.server_replication_send_interval_ms);
    lemma_millis_roundtrip(s.client_replication_send_interval_ms);
}

/// Writing shared options to the settings file and reading them back keeps
/// the protocol, the key, and the whole milliseconds of each span (below
/// 2^64 ms).
pub proof fn lemma_shared_roundtrip(o: SharedLaunchOptions)
    requires
        o.simulation_update_frequency@ / (NANOS_PER_MILLI as nat) <= u64::MAX,
        o.server_replication_send_interval@ / (NANOS_PER_MILLI as nat) <= u64::MAX,
        o.client_replication_send_interval@ / (NANOS_PER_MILLI as nat) <= u64::MAX,
    ensures
        ({
            let r = shared_from_serializable(shared_to_serializable(o));
            &&& r.protocol_id == o.protocol_id
            &&& r.key == o.key
            &&& r.simulation_update_frequency@ == (o.simulation_update_frequency@ / (
            NANOS_PER_MILLI as nat)) * (NANOS_PER_MILLI as nat)
            &&& r.server_replication_send_interval@ == (o.server_replication_send_interval@ / (
            NANOS_PER_MILLI as nat)) * (NANOS_PER_MILLI as nat)
            &&& r.client_replication_send_interval@ == (o.client_replication_send_interval@ / (
            NANOS_PER_MILLI as nat)) * (NANOS_PER_MILLI as nat)
        }),
{
    lemma_span_roundtrip(o.simulation_update_frequency);
    lemma_span_roundtrip(o.server_replication_send_interval);
    lemma_span_roundtrip(o.client_replication_send_interval);
}


/// The address that a settings-file address text stands for: the parsed
/// address, or the loopback address where the text does not parse.
pub open spec fn address_or_localhost(text: Seq<char>) -> Ipv4Address {
    match parse_ipv4(text) {
        Some(a) => a,
        None => Ipv4Address::spec_localhost(),
    }
}

/// Parses a settings-file address, falling back to the loopback address.
fn parse_address_or_localhost(text: &String) -> (a: Ipv4Address)
    ensures
        a == address_or_localhost(text@),
{
    match Ipv4Address::parse(text.as_str()) {
        Some(a) => a,
        None => Ipv4Address::localhost(),
    }
}

/// The simulated conditions both default option sets use: 50 ms of latency,
/// no jitter, no loss.
fn default_conditioner() -> (c: LinkConditionerConfig)
    ensures
        c == default_conditioner_spec(),
{
    LinkConditionerConfig {
        incoming_latency: TimeSpan::from_millis(50),
        incoming_jitter: TimeSpan::from_millis(0),
        incoming_loss_bits: 0,
    }
}

/// 50 ms of latency, no jitter, and a loss ratio of `0.0`.
pub open spec fn default_conditioner_spec() -> LinkConditionerConfig {
    LinkConditionerConfig {
        incoming_latency: TimeSpan::spec_from_millis(50),
        incoming_jitter: TimeSpan::spec_from_millis(0),
        incoming_loss_bits: 0,
    }
}

/// The IEEE-754 bit pattern of the 32-bit float `2.0`.
pub const TWO_F32_BITS: u32 = 0x4000_0000;

/// Where the game's assets are looked up by default.
pub open spec fn default_asset_path() -> Seq<char> {
    "../pha-assets/assets"@
}

/// Settings of the client: where it listens and which server it joins, the
/// simulated link, prediction and interpolation tuning, the server
/// certificate digest for browsers, and the asset folder.
///
/// `correction_ticks_factor_bits` is the IEEE-754 bit pattern of a 32-bit
/// float that the launcher only carries through.
#[derive(Clone, Debug, PartialEq, Eq)]
pub struct ClientLaunchOptions {
    pub listen_addr: Ipv4Address,
    pub listen_port: u16,
    pub server_addr: Ipv4Address,
    pub server_port: u16,
    pub conditioner: LinkConditionerConfig,
    pub correction_ticks_factor_bits: u32,
    pub min_delay: TimeSpan,
    pub certificate_digest: Option<String>,
    pub asset_path: String,
}

impl Default for ClientLaunchOptions {
    /// Listens and connects on the loopback address with port 0, the
    /// default conditioner, a correction factor of 2.0, a minimum
    /// interpolation delay of 25 ms, no certificate digest, and the default
    /// asset folder.
    fn default() -> (r: Self)
        ensures
            is_default_client(r),
    {
        ClientLaunchOptions {
            listen_addr: Ipv4Address::localhost(),
            listen_port: 0,
            server_addr: Ipv4Address::localhost(),
            server_port: 0,
            conditioner: default_conditioner(),
            correction_ticks_factor_bits: TWO_F32_BITS,
            min_delay: TimeSpan::from_millis(25),
            certificate_digest: None,
            asset_path: String::from_str("../pha-assets/assets"),
        }
    }
}

/// `o` holds the default client options: listening and connecting on the
/// loopback address with port 0, the default conditioner, a correction
/// factor of 2.0, a minimum interpolation delay of 25 ms, no certificate
/// digest, and the default asset folder.
pub open spec fn is_default_client(o: ClientLaunchOptions) -> bool {
    &&& o.listen_addr == Ipv4Address::spec_localhost()
    &&& o.listen_port == 0
    &&& o.server_addr == Ipv4Address::spec_localhost()
    &&& o.server_port == 0
    &&& o.conditioner == default_conditioner_spec()
    &&& o.correction_ticks_factor_bits == TWO_F32_BITS
    &&& o.min_delay == TimeSpan::spec_from_millis(25)
    &&& o.certificate_digest is None
    &&& o.asset_path@ == default_asset_path()
}

impl ClientLaunchOptions {
    /// The client options to launch with: those that the settings file
    /// describes, or the defaults where no settings could be read.
    pub fn from_loaded(loaded: Option<SerializableClientLaunchOptions>) -> (o: Self)
        ensures
            match loaded {
                Some(s) => o == client_from_serializable(s),
                None => is_default_client(o),
            },
    {
        match loaded {
            Some(s) => ClientLaunchOptions::from(s),
            None => ClientLaunchOptions::default(),
        }
    }
}

/// The settings-file form of [`ClientLaunchOptions`]: addresses as
/// dotted-decimal text and spans as whole milliseconds.
#[derive(Clone, Debug, PartialEq, Eq)]
pub struct SerializableClientLaunchOptions {
    pub listen_addr: String,
    pub listen_port: u16,
    pub server_addr: String,
    pub server_port: u16,
    pub conditioner: SerializableLinkConditionerConfig,
    pub correction_ticks_factor_bits: u32,
    pub min_delay_ms: u64,
    pub certificate_digest: Option<String>,
    pub asset_path: String,
}

/// `s` is the settings-file form of `o`: addresses as their dotted-decimal
/// text, spans as whole milliseconds wrapped to 64 bits, everything else
/// unchanged.
pub open spec fn client_serialized_as(o: ClientLaunchOptions, s: SerializableClientLaunchOptions) -> bool {
    &&& s.listen_addr@ == ipv4_text(o.listen_addr)
    &&& s.listen_port == o.listen_port
    &&& s.server_addr@ == ipv4_text(o.server_addr)
    &&& s.server_port == o.server_port
    &&& s.conditioner == conditioner_to_serializable(o.conditioner)
    &&& s.correction_ticks_factor_bits == o.correction_ticks_factor_bits
    &&& s.min_delay_ms == millis_u64_of(o.min_delay@)
    &&& s.certificate_digest == o.certificate_digest
    &&& s.asset_path == o.asset_path
}

/// The client options that settings-file client options describe; an
/// address text that does not parse stands for the loopback address.
pub open spec fn client_from_serializable(s: SerializableClientLaunchOptions) -> ClientLaunchOptions {
    ClientLaunchOptions {
        listen_addr: address_or_localhost(s.listen_addr@),
        listen_port: s.listen_port,
        server_addr: address_or_localhost(s.server_addr@),
        server_port: s.server_port,
        conditioner: conditioner_from_serializable(s.conditioner),
        correction_ticks_factor_bits: s.correction_ticks_factor_bits,
        min_delay: TimeSpan::spec_from_millis(s.min_delay_ms),
        certificate_digest: s.certificate_digest,
        asset_path: s.asset_path,
    }
}

impl From<ClientLaunchOptions> for SerializableClientLaunchOptions {
    fn from(options: ClientLaunchOptions) -> (s: Self)
        ensures
            client_serialized_as(options, s),
            s.listen_addr@ == ipv4_text(options.listen_addr),
            s.listen_port == options.listen_port,
            s.server_addr@ == ipv4_text(options.server_addr),
            s.server_port == options.server_port,
            s.conditioner.incoming_latency_ms as nat == (options.conditioner.incoming_latency@ / (NANOS_PER_MILLI as nat)) % 0x1_0000_0000_0000_0000,
            s.conditioner.incoming_jitter_ms as nat == (options.conditioner.incoming_jitter@ / (NANOS_PER_MILLI as nat)) % 0x1_0000_0000_0000_0000,
            s.conditioner.incoming_loss_bits == options.conditioner.incoming_loss_bits,
            s.correction_ticks_factor_bits == options.correction_ticks_factor_bits,
            s.min_delay_ms as nat == (options.min_delay@ / (NANOS_PER_MILLI as nat)) % 0x1_0000_0000_0000_0000,
            s.certificate_digest == options.certificate_digest,
            s.asset_path == options.asset_path,
    {
        SerializableClientLaunchOptions {
            listen_addr: options.listen_addr.to_text(),
            listen_port: options.listen_port,
            server_addr: options.server_addr.to_text(),
            server_port: options.server_port,
            conditioner: SerializableLinkConditionerConfig::from(options.conditioner),
            correction_ticks_factor_bits: options.correction_ticks_factor_bits,
            min_delay_ms: options.min_delay.millis_u64(),
            certificate_digest: options.certificate_digest,
            asset_path: options.asset_path,
        }
    }
}

impl FromSpecImpl<ClientLaunchOptions> for SerializableClientLaunchOptions {
    /// The address texts are new strings, which no spec function can build,
    /// so the result is stated by `from`'s own `ensures` instead.
    open spec fn obeys_from_spec() -> bool {
        false
    }

    open spec fn from_spec(options: ClientLaunchOptions) -> Self {
        arbitrary()
    }
}

impl From<SerializableClientLaunchOptions> for ClientLaunchOptions {
    fn from(serializable: SerializableClientLaunchOptions) -> (o: Self)
        ensures
            o == client_from_serializable(serializable),
            o.listen_addr == address_or_localhost(serializable.listen_addr@),
            o.listen_port == serializable.listen_port,
            o.server_addr == address_or_localhost(serializable.server_addr@),
            o.server_port == serializable.server_port,
            o.conditioner.incoming_latency@ == serializable.conditioner.incoming_latency_ms
                * NANOS_PER_MILLI,
            o.conditioner.incoming_jitter@ == serializable.conditioner.incoming_jitter_ms
                * NANOS_PER_MILLI,
            o.conditioner.incoming_loss_bits == serializable.conditioner.incoming_loss_bits,
            o.correction_ticks_factor_bits == serializable.correction_ticks_factor_bits,
            o.min_delay@ == serializable.min_delay_ms * NANOS_PER_MILLI,
            o.certificate_digest == serializable.certificate_digest,
            o.asset_path == serializable.asset_path,
    {
        let listen_addr = parse_address_or_localhost(&serializable.listen_addr);
        let server_addr = parse_address_or_localhost(&serializable.server_addr);
        ClientLaunchOptions {
            listen_addr,
            listen_port: serializable.listen_port,
            server_addr,
            server_port: serializable.server_port,
            conditioner: LinkConditionerConfig::from(serializable.conditioner),
            correction_ticks_factor_bits: serializable.correction_ticks_factor_bits,
            min_delay: TimeSpan::from_millis(serializable.min_delay_ms),
            certificate_digest: serializable.certificate_digest,
            asset_path: serializable.asset_path,
        }
    }
}

impl FromSpecImpl<SerializableClientLaunchOptions> for ClientLaunchOptions {
    open spec fn obeys_from_spec() -> bool {
        true
    }

    open spec fn from_spec(serializable: SerializableClientLaunchOptions) -> Self {
        client_from_serializable(serializable)
    }
}

/// The text that a settings-file address text is written back as after it
/// is read: the same text where it parses, else the loopback address text.
pub open spec fn address_text_after_reading(text: Seq<char>) -> Seq<char> {
    if parse_ipv4(text) is Some {
        text
    } else {
        ipv4_text(Ipv4Address::spec_localhost())
    }
}

/// Reading an address text and writing the address back gives the text back
/// where it parses, else the loopback address text.
pub proof fn lemma_address_text_roundtrip(text: Seq<char>)
    ensures
        ipv4_text(address_or_localhost(text)) == address_text_after_reading(text),
{
    if parse_ipv4(text) is Some {
        crate::ipv4::lemma_ipv4_text_of_parse(text);
    }
}

/// Writing client options to the settings file and reading them back gives
/// the same options, except that each span keeps only its whole
/// milliseconds (below 2^64 ms).
pub proof fn lemma_client_roundtrip(o: ClientLaunchOptions, s: SerializableClientLaunchOptions)
    requires
        client_serialized_as(o, s),
        o.conditioner.incoming_latency@ / (NANOS_PER_MILLI as nat) <= u64::MAX,
        o.conditioner.incoming_jitter@ / (NANOS_PER_MILLI as nat) <= u64::MAX,
        o.min_delay@ / (NANOS_PER_MILLI as nat) <= u64::MAX,
    ensures
        ({
            let r = client_from_serializable(s);
            &&& r.listen_addr == o.listen_addr
            &&& r.listen_port == o.listen_port
            &&& r.server_addr == o.server_addr
            &&& r.server_port == o.server_port
            &&& r.conditioner.incoming_latency@ == (o.conditioner.incoming_latency@ / (
            NANOS_PER_MILLI as nat)) * (NANOS_PER_MILLI as nat)
            &&& r.conditioner.incoming_jitter@ == (o.conditioner.incoming_jitter@ / (
            NANOS_PER_MILLI as nat)) * (NANOS_PER_MILLI as nat)
            &&& r.conditioner.incoming_loss_bits == o.conditioner.incoming_loss_bits
            &&& r.correction_ticks_factor_bits == o.correction_ticks_factor_bits
            &&& r.min_delay@ == (o.min_delay@ / (NANOS_PER_MILLI as nat)) * (NANOS_PER_MILLI as nat)
            &&& r.certificate_digest == o.certificate_digest
            &&& r.asset_path == o.asset_path
        }),
{
    crate::ipv4::lemma_parse_ipv4_text(o.listen_addr);
    crate::ipv4::lemma_parse_ipv4_text(o.server_addr);
    lemma_conditioner_roundtrip(o.conditioner);
    lemma_span_roundtrip(o.min_delay);
}

/// Reading settings-file client options and writing them back gives the same
/// settings, except that an address text that does not parse comes back as
/// the loopback address text.
pub proof fn lemma_client_file_roundtrip(s: SerializableClientLaunchOptions, s2: SerializableClientLaunchOptions)
    requires
        client_serialized_as(client_from_serializable(s), s2),
    ensures
        s2.listen_addr@ == address_text_after_reading(s.listen_addr@),
        s2.server_addr@ == address_text_after_reading(s.server_addr@),
        s2.listen_port == s.listen_port,
        s2.server_port == s.server_port,
        s2.conditioner == s.conditioner,
        s2.correction_ticks_factor_bits == s.correction_ticks_factor_bits,
        s2.min_delay_ms == s.min_delay_ms,
        s2.certificate_digest == s.certificate_digest,
        s2.asset_path == s.asset_path,
{
    lemma_address_text_roundtrip(s.listen_addr@);
    lemma_address_text_roundtrip(s.server_addr@);
    lemma_conditioner_file_roundtrip(s.conditioner);
    lemma_millis_roundtrip(s.min_delay_ms);
}

/// Settings of the server: whether it opens a window, where it listens for
/// UDP and WebTransport clients, the simulated link, the WebTransport
/// certificate and key files, and the asset folder.
#[derive(Clone, Debug, PartialEq, Eq)]
pub struct ServerLaunchOptions {
    pub headless: bool,
    pub listen_addr: Ipv4Address,
    pub udp_listen_port: u16,
    pub webtransport_listen_port: u16,
    pub conditioner: LinkConditionerConfig,
    pub webtransport_cert_path: String,
    pub webtransport_key_path: String,
    pub asset_path: String,
}

/// Where the WebTransport certificate is read from by default.
pub open spec fn default_cert_path() -> Seq<char> {
    "./crates/pha-launcher/web/certs/cert.pem"@
}

/// Where the WebTransport private key is read from by default.
pub open spec fn default_key_path() -> Seq<char> {
    "./crates/pha-launcher/web/certs/key.pem"@
}

impl Default for ServerLaunchOptions {
    /// A windowed server on the loopback address with UDP port 12025 and
    /// WebTransport port 12026, the default conditioner, and the default
    /// certificate, key and asset locations.
    fn default() -> (r: Self)
        ensures
            is_default_server(r),
    {
        ServerLaunchOptions {
            headless: false,
            listen_addr: Ipv4Address::localhost(),
            udp_listen_port: 12025,
            webtransport_listen_port: 12026,
            conditioner: default_conditioner(),
            webtransport_cert_path: String::from_str("./crates/pha-launcher/web/certs/cert.pem"),
            webtransport_key_path: String::from_str("./crates/pha-launcher/web/certs/key.pem"),
            asset_path: String::from_str("../pha-assets/assets"),
        }
    }
}

/// `o` holds the default server options: a windowed server on the loopback
/// address with UDP port 12025 and WebTransport port 12026, the default
/// conditioner, and the default certificate, key and asset locations.
pub open spec fn is_default_server(o: ServerLaunchOptions) -> bool {
    &&& !o.headless
    &&& o.listen_addr == Ipv4Address::spec_localhost()
    &&& o.udp_listen_port == 12025
    &&& o.webtransport_listen_port == 12026
    &&& o.conditioner == default_conditioner_spec()
    &&& o.webtransport_cert_path@ == default_cert_path()
    &&& o.webtransport_key_path@ == default_key_path()
    &&& o.asset_path@ == default_asset_path()
}

impl ServerLaunchOptions {
    /// The server options to launch with: those that the settings file
    /// describes, or the defaults where no settings could be read.
    pub fn from_loaded(loaded: Option<SerializableServerLaunchOptions>) -> (o: Self)
        ensures
            match loaded {
                Some(s) => o == server_from_serializable(s),
                None => is_default_server(o),
            },
    {
        match loaded {
            Some(s) => ServerLaunchOptions::from(s),
            None => ServerLaunchOptions::default(),
        }
    }
}

/// The settings-file form of [`ServerLaunchOptions`]: the address as
/// dotted-decimal text and spans as whole milliseconds.
#[derive(Clone, Debug, PartialEq, Eq)]
pub struct SerializableServerLaunchOptions {
    pub headless: bool,
    pub listen_addr: String,
    pub udp_listen_port: u16,
    pub webtransport_listen_port: u16,
    pub conditioner: SerializableLinkConditionerConfig,
    pub webtransport_cert_path: String,
    pub webtransport_key_path: String,
    pub asset_path: String,
}

/// `s` is the settings-file form of `o`: the address as its dotted-decimal
/// text, spans as whole milliseconds wrapped to 64 bits, everything else
/// unchanged.
pub open spec fn server_serialized_as(o: ServerLaunchOptions, s: SerializableServerLaunchOptions) -> bool {
    &&& s.headless == o.headless
    &&& s.listen_addr@ == ipv4_text(o.listen_addr)
    &&& s.udp_listen_port == o.udp_listen_port
    &&& s.webtransport_listen_port == o.webtransport_listen_port
    &&& s.conditioner == conditioner_to_serializable(o.conditioner)
    &&& s.webtransport_cert_path == o.webtransport_cert_path
    &&& s.webtransport_key_path == o.webtransport_key_path
    &&& s.asset_path == o.asset_path
}

/// The server options that settings-file server options describe; an
/// address text that does not parse stands for the loopback address.
pub open spec fn server_from_serializable(s: SerializableServerLaunchOptions) -> ServerLaunchOptions {
    ServerLaunchOptions {
        headless: s.headless,
        listen_addr: address_or_localhost(s.listen_addr@),
        udp_listen_port: s.udp_listen_port,
        webtransport_listen_port: s.webtransport_listen_port,
        conditioner: conditioner_from_serializable(s.conditioner),
        webtransport_cert_path: s.webtransport_cert_path,
        webtransport_key_path: s.webtransport_key_path,
        asset_path: s.asset_path,
    }
}

impl From<ServerLaunchOptions> for SerializableServerLaunchOptions {
    fn from(options: ServerLaunchOptions) -> (s: Self)
        ensures
            server_serialized_as(options, s),
            s.headless == options.headless,
            s.listen_addr@ == ipv4_text(options.listen_addr),
            s.udp_listen_port == options.udp_listen_port,
            s.webtransport_listen_port == options.webtransport_listen_port,
            s.conditioner.incoming_latency_ms as nat == (options.conditioner.incoming_latency@ / (NANOS_PER_MILLI as nat)) % 0x1_0000_0000_0000_0000,
            s.conditioner.incoming_jitter_ms as nat == (options.conditioner.incoming_jitter@ / (NANOS_PER_MILLI as nat)) % 0x1_0000_0000_0000_0000,
            s.conditioner.incoming_loss_bits == options.conditioner.incoming_loss_bits,
            s.webtransport_cert_path == options.webtransport_cert_path,
            s.webtransport_key_path == options.webtransport_key_path,
            s.asset_path == options.asset_path,
    {
        SerializableServerLaunchOptions {
            headless: options.headless,
            listen_addr: options.listen_addr.to_text(),
            udp_listen_port: options.udp_listen_port,
            webtransport_listen_port: options.webtransport_listen_port,
            conditioner: SerializableLinkConditionerConfig::from(options.conditioner),
            webtransport_cert_path: options.webtransport_cert_path,
            webtransport_key_path: options.webtransport_key_path,
            asset_path: options.asset_path,
        }
    }
}

impl FromSpecImpl<ServerLaunchOptions> for SerializableServerLaunchOptions {
    /// The address text is a new string, which no spec function can build,
    /// so the result is stated by `from`'s own `ensures` instead.
    open spec fn obeys_from_spec() -> bool {
        false
    }

    open spec fn from_spec(options: ServerLaunchOptions) -> Self {
        arbitrary()
    }
}

impl From<SerializableServerLaunchOptions> for ServerLaunchOptions {
    fn from(serializable: SerializableServerLaunchOptions) -> (o: Self)
        ensures
            o == server_from_serializable(serializable),
            o.headless == serializable.headless,
            o.listen_addr == address_or_localhost(serializable.listen_addr@),
            o.udp_listen_port == serializable.udp_listen_port,
            o.webtransport_listen_port == serializable.webtransport_listen_port,
            o.conditioner.incoming_latency@ == serializable.conditioner.incoming_latency_ms
                * NANOS_PER_MILLI,
            o.conditioner.incoming_jitter@ == serializable.conditioner.incoming_jitter_ms
                * NANOS_PER_MILLI,
            o.conditioner.incoming_loss_bits == serializable.conditioner.incoming_loss_bits,
            o.webtransport_cert_path == serializable.webtransport_cert_path,
            o.webtransport_key_path == serializable.webtransport_key_path,
            o.asset_path == serializable.asset_path,
    {
        let listen_addr = parse_address_or_localhost(&serializable.listen_addr);
        ServerLaunchOptions {
            headless: serializable.headless,
            listen_addr,
            udp_listen_port: serializable.udp_listen_port,
            webtransport_listen_port: serializable.webtransport_listen_port,
            conditioner: LinkConditionerConfig::from(serializable.conditioner),
            webtransport_cert_path: serializable.webtransport_cert_path,
            webtransport_key_path: serializable.webtransport_key_path,
            asset_path: serializable.asset_path,
        }
    }
}

impl FromSpecImpl<SerializableServerLaunchOptions> for ServerLaunchOptions {
    open spec fn obeys_from_spec() -> bool {
        true
    }

    open spec fn from_spec(serializable: SerializableServerLaunchOptions) -> Self {
        server_from_serializable(serializable)
    }
}

/// Writing server options to the settings file and reading them back gives
/// the same options, except that each conditioner span keeps only its whole
/// milliseconds (below 2^64 ms).
pub proof fn lemma_server_roundtrip(o: ServerLaunchOptions, s: SerializableServerLaunchOptions)
    requires
        server_serialized_as(o, s),
        o.conditioner.incoming_latency@ / (NANOS_PER_MILLI as nat) <= u64::MAX,
        o.conditioner.incoming_jitter@ / (NANOS_PER_MILLI as nat) <= u64::MAX,
    ensures
        ({
            let r = server_from_serializable(s);
            &&& r.headless == o.headless
            &&& r.listen_addr == o.listen_addr
            &&& r.udp_listen_port == o.udp_listen_port
            &&& r.webtransport_listen_port == o.webtransport_listen_port
            &&& r.conditioner.incoming_latency@ == (o.conditioner.incoming_latency@ / (
            NANOS_PER_MILLI as nat)) * (NANOS_PER_MILLI as nat)
            &&& r.conditioner.incoming_jitter@ == (o.conditioner.incoming_jitter@ / (
            NANOS_PER_MILLI as nat)) * (NANOS_PER_MILLI as nat)
            &&& r.conditioner.incoming_loss_bits == o.conditioner.incoming_loss_bits
            &&& r.webtransport_cert_path == o.webtransport_cert_path
            &&& r.webtransport_key_path == o.webtransport_key_path
            &&& r.asset_path == o.asset_path
        }),
{
    crate::ipv4::lemma_parse_ipv4_text(o.listen_addr);
    lemma_conditioner_roundtrip(o.conditioner);
}

/// Reading settings-file server options and writing them back gives the same
/// settings, except that an address text that does not parse comes back as
/// the loopback address text.
pub proof fn lemma_server_file_roundtrip(s: SerializableServerLaunchOptions, s2: SerializableServerLaunchOptions)
    requires
        server_serialized_as(server_from_serializable(s), s2),
    ensures
        s2.headless == s.headless,
        s2.listen_addr@ == address_text_after_reading(s.listen_addr@),
        s2.udp_listen_port == s.udp_listen_port,
        s2.webtransport_listen_port == s.webtransport_listen_port,
        s2.conditioner == s.conditioner,
        s2.webtransport_cert_path == s.webtransport_cert_path,
        s2.webtransport_key_path == s.webtransport_key_path,
        s2.asset_path == s.asset_path,
{
    lemma_address_text_roundtrip(s.listen_addr@);
    lemma_conditioner_file_roundtrip(s.conditioner);
}

/// Reading a settings-file conditioner keeps its loss ratio and reads each
/// span as that many milliseconds.
pub proof fn lemma_conditioner_reading(s: SerializableLinkConditionerConfig)
    ensures
        conditioner_from_serializable(s).incoming_latency@ == s.incoming_latency_ms * NANOS_PER_MILLI,
        conditioner_from_serializable(s).incoming_jitter@ == s.incoming_jitter_ms * NANOS_PER_MILLI,
        conditioner_from_serializable(s).incoming_loss_bits == s.incoming_loss_bits,
{
    TimeSpan::lemma_spec_from_millis(s.incoming_latency_ms);
    TimeSpan::lemma_spec_from_millis(s.incoming_jitter_ms);
}

/// Writing a conditioner keeps its loss ratio and writes each span as its
/// whole milliseconds, wrapped to 64 bits.
pub proof fn lemma_conditioner_writing(c: LinkConditionerConfig)
    ensures
        conditioner_to_serializable(c).incoming_latency_ms as nat == (c.incoming_latency@ / (
        NANOS_PER_MILLI as nat)) % 0x1_0000_0000_0000_0000,
        conditioner_to_serializable(c).incoming_jitter_ms as nat == (c.incoming_jitter@ / (
        NANOS_PER_MILLI as nat)) % 0x1_0000_0000_0000_0000,
        conditioner_to_serializable(c).incoming_loss_bits == c.incoming_loss_bits,
{
}

/// Reading settings-file shared options keeps the protocol id and the key,
/// and reads each span as that many milliseconds.
pub proof fn lemma_shared_reading(s: SerializableSharedLaunchOptions)
    ensures
        ({
            let o = shared_from_serializable(s);
            &&& o.protocol_id == s.protocol_id
            &&& o.key == s.key
            &&& o.simulation_update_frequency@ == s.simulation_update_frequency_ms * NANOS_PER_MILLI
            &&& o.server_replication_send_interval@ == s.server_replication_send_interval_ms
                * NANOS_PER_MILLI
            &&& o.client_replication_send_interval@ == s.client_replication_send_interval_ms
                * NANOS_PER_MILLI
        }),
{
    TimeSpan::lemma_spec_from_millis(s.simulation_update_frequency_ms);
    TimeSpan::lemma_spec_from_millis(s.server_replication_send_interval_ms);
    TimeSpan::lemma_spec_from_millis(s.client_replication_send_interval_ms);
}

/// Writing shared options keeps the protocol id and the key, and writes each
/// span as its whole milliseconds, wrapped to 64 bits.
pub proof fn lemma_shared_writing(o: SharedLaunchOptions)
    ensures
        ({
            let s = shared_to_serializable(o);
            &&& s.protocol_id == o.protocol_id
            &&& s.key == o.key
            &&& s.simulation_update_frequency_ms as nat == (o.simulation_update_frequency@ / (
            NANOS_PER_MILLI as nat)) % 0x1_0000_0000_0000_0000
            &&& s.server_replication_send_interval_ms as nat == (
            o.server_replication_send_interval@ / (NANOS_PER_MILLI as nat)) % 0x1_0000_0000_0000_0000
            &&& s.client_replication_send_interval_ms as nat == (
            o.client_replication_send_interval@ / (NANOS_PER_MILLI as nat)) % 0x1_0000_0000_0000_0000
        }),
{
}

/// Reading settings-file client options keeps every field where it was: each
/// address is the one its own text names (the loopback address where it does
/// not parse), each port, the correction factor, the digest and the asset
/// folder are the file's own, and the spans are read as milliseconds.
pub proof fn lemma_client_reading(s: SerializableClientLaunchOptions)
    ensures
        ({
            let o = client_from_serializable(s);
            &&& (parse_ipv4(s.listen_addr@) matches Some(a) ==> o.listen_addr == a)
            &&& (parse_ipv4(s.listen_addr@) is None ==> o.listen_addr == Ipv4Address::spec_localhost())
            &&& (parse_ipv4(s.server_addr@) matches Some(a) ==> o.server_addr == a)
            &&& (parse_ipv4(s.server_addr@) is None ==> o.server_addr == Ipv4Address::spec_localhost())
            &&& o.listen_port == s.listen_port
            &&& o.server_port == s.server_port
            &&& o.conditioner.incoming_latency@ == s.conditioner.incoming_latency_ms * NANOS_PER_MILLI
            &&& o.conditioner.incoming_jitter@ == s.conditioner.incoming_jitter_ms * NANOS_PER_MILLI
            &&& o.conditioner.incoming_loss_bits == s.conditioner.incoming_loss_bits
            &&& o.correction_ticks_factor_bits == s.correction_ticks_factor_bits
            &&& o.min_delay@ == s.min_delay_ms * NANOS_PER_MILLI
            &&& o.certificate_digest == s.certificate_digest
            &&& o.asset_path == s.asset_path
        }),
{
    lemma_conditioner_reading(s.conditioner);
    TimeSpan::lemma_spec_from_millis(s.min_delay_ms);
}

/// The settings-file form of client options keeps every field where it was:
/// each address as its own dotted-decimal text, each port, the correction
/// factor, the digest and the asset folder unchanged, and the spans as whole
/// milliseconds.
pub proof fn lemma_client_writing(o: ClientLaunchOptions, s: SerializableClientLaunchOptions)
    requires
        client_serialized_as(o, s),
    ensures
        s.listen_addr@ == ipv4_text(o.listen_addr),
        s.server_addr@ == ipv4_text(o.server_addr),
        s.listen_port == o.listen_port,
        s.server_port == o.server_port,
        s.conditioner.incoming_latency_ms as nat == (o.conditioner.incoming_latency@ / (
        NANOS_PER_MILLI as nat)) % 0x1_0000_0000_0000_0000,
        s.conditioner.incoming_jitter_ms as nat == (o.conditioner.incoming_jitter@ / (
        NANOS_PER_MILLI as nat)) % 0x1_0000_0000_0000_0000,
        s.conditioner.incoming_loss_bits == o.conditioner.incoming_loss_bits,
        s.correction_ticks_factor_bits == o.correction_ticks_factor_bits,
        s.min_delay_ms as nat == (o.min_delay@ / (NANOS_PER_MILLI as nat)) % 0x1_0000_0000_0000_0000,
        s.certificate_digest == o.certificate_digest,
        s.asset_path == o.asset_path,
{
}

/// Reading settings-file server options keeps every field where it was: the
/// listen address is the one its text names (the loopback address where it
/// does not parse), the UDP port is the file's UDP port and the WebTransport
/// port the file's WebTransport port, the paths and the headless flag are
/// the file's own, and the spans are read as milliseconds.
pub proof fn lemma_server_reading(s: SerializableServerLaunchOptions)
    ensures
        ({
            let o = server_from_serializable(s);
            &&& o.headless == s.headless
            &&& (parse_ipv4(s.listen_addr@) matches Some(a) ==> o.listen_addr == a)
            &&& (parse_ipv4(s.listen_addr@) is None ==> o.listen_addr == Ipv4Address::spec_localhost())
            &&& o.udp_listen_port == s.udp_listen_port
            &&& o.webtransport_listen_port == s.webtransport_listen_port
            &&& o.conditioner.incoming_latency@ == s.conditioner.incoming_latency_ms * NANOS_PER_MILLI
            &&& o.conditioner.incoming_jitter@ == s.conditioner.incoming_jitter_ms * NANOS_PER_MILLI
            &&& o.conditioner.incoming_loss_bits == s.conditioner.incoming_loss_bits
            &&& o.webtransport_cert_path == s.webtransport_cert_path
            &&& o.webtransport_key_path == s.webtransport_key_path
            &&& o.asset_path == s.asset_path
        }),
{
    lemma_conditioner_reading(s.conditioner);
}

/// The settings-file form of server options keeps every field where it was:
/// the address as its dotted-decimal text, the UDP and WebTransport ports
/// each in its own field, the paths and the headless flag unchanged, and the
/// spans as whole milliseconds.
pub proof fn lemma_server_writing(o: ServerLaunchOptions, s: SerializableServerLaunchOptions)
    requires
        server_serialized_as(o, s),
    ensures
        s.headless == o.headless,
        s.listen_addr@ == ipv4_text(o.listen_addr),
        s.udp_listen_port == o.udp_listen_port,
        s.webtransport_listen_port == o.webtransport_listen_port,
        s.conditioner.incoming_latency_ms as nat == (o.conditioner.incoming_latency@ / (
        NANOS_PER_MILLI as nat)) % 0x1_0000_0000_0000_0000,
        s.conditioner.incoming_jitter_ms as nat == (o.conditioner.incoming_jitter@ / (
        NANOS_PER_MILLI as nat)) % 0x1_0000_0000_0000_0000,
        s.conditioner.incoming_loss_bits == o.conditioner.incoming_loss_bits,
        s.webtransport_cert_path == o.webtransport_cert_path,
        s.webtransport_key_path == o.webtransport_key_path,
        s.asset_path == o.asset_path,
{
}

} // verus!
