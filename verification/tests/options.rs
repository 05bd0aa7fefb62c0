use pha::ipv4::Ipv4Address;
use pha::launch_options::{
    ClientLaunchOptions, LinkConditionerConfig, SerializableClientLaunchOptions,
    SerializableLinkConditionerConfig, SerializableServerLaunchOptions,
    SerializableSharedLaunchOptions, ServerLaunchOptions, SharedLaunchOptions, TWO_F32_BITS,
};
use pha::time_span::TimeSpan;

#[test]
fn shared_defaults() {
    let o = SharedLaunchOptions::default();
    assert_eq!(o.protocol_id, 0);
    assert_eq!(o.key, [0u8; 32]);
    assert_eq!(o.simulation_update_frequency, TimeSpan::from_millis(16));
    assert_eq!(o.server_replication_send_interval, TimeSpan::from_millis(0));
    assert_eq!(o.client_replication_send_interval, TimeSpan::from_millis(0));
}

#[test]
fn shared_to_file_form() {
    let mut key = [0u8; 32];
    key[3] = 9;
    let o = SharedLaunchOptions {
        protocol_id: 77,
        key,
        simulation_update_frequency: TimeSpan::new(0, 16_700_000),
        server_replication_send_interval: TimeSpan::from_millis(100),
        client_replication_send_interval: TimeSpan::new(2, 1),
    };
    let s = SerializableSharedLaunchOptions::from(o);
    assert_eq!(s.protocol_id, 77);
    assert_eq!(s.key, key);
    assert_eq!(s.simulation_update_frequency_ms, 16);
    assert_eq!(s.server_replication_send_interval_ms, 100);
    assert_eq!(s.client_replication_send_interval_ms, 2000);
}

#[test]
fn shared_file_form_round_trips() {
    let s = SerializableSharedLaunchOptions {
        protocol_id: 5,
        key: [7u8; 32],
        simulation_update_frequency_ms: 33,
        server_replication_send_interval_ms: 0,
        client_replication_send_interval_ms: u64::MAX,
    };
    let o = SharedLaunchOptions::from(s);
    assert_eq!(o.client_replication_send_interval.as_millis(), u64::MAX as u128);
    assert_eq!(SerializableSharedLaunchOptions::from(o), s);
}

#[test]
fn shared_from_loaded() {
    assert_eq!(SharedLaunchOptions::from_loaded(None), SharedLaunchOptions::default());
    let s = SerializableSharedLaunchOptions {
        protocol_id: 1,
        key: [1u8; 32],
        simulation_update_frequency_ms: 20,
        server_replication_send_interval_ms: 40,
        client_replication_send_interval_ms: 60,
    };
    let o = SharedLaunchOptions::from_loaded(Some(s));
    assert_eq!(o.protocol_id, 1);
    assert_eq!(o.server_replication_send_interval, TimeSpan::from_millis(40));
}

#[test]
fn conditioner_conversions() {
    let c = LinkConditionerConfig {
        incoming_latency: TimeSpan::new(0, 50_900_000),
        incoming_jitter: TimeSpan::from_millis(7),
        incoming_loss_bits: 0.25f32.to_bits(),
    };
    let s = SerializableLinkConditionerConfig::from(c);
    assert_eq!(s.incoming_latency_ms, 50);
    assert_eq!(s.incoming_jitter_ms, 7);
    assert_eq!(f32::from_bits(s.incoming_loss_bits), 0.25);
    let back = LinkConditionerConfig::from(s);
    assert_eq!(back.incoming_latency, TimeSpan::from_millis(50));
    assert_eq!(back.incoming_jitter, c.incoming_jitter);
    assert_eq!(back.incoming_loss_bits, c.incoming_loss_bits);
}

#[test]
fn client_defaults() {
    let o = ClientLaunchOptions::default();
    assert_eq!(o.listen_addr, Ipv4Address(127, 0, 0, 1));
    assert_eq!(o.listen_port, 0);
    assert_eq!(o.server_addr, Ipv4Address(127, 0, 0, 1));
    assert_eq!(o.server_port, 0);
    assert_eq!(o.conditioner.incoming_latency, TimeSpan::from_millis(50));
    assert_eq!(o.conditioner.incoming_jitter, TimeSpan::zero());
    assert_eq!(f32::from_bits(o.conditioner.incoming_loss_bits), 0.0);
    assert_eq!(f32::from_bits(o.correction_ticks_factor_bits), 2.0);
    assert_eq!(o.correction_ticks_factor_bits, TWO_F32_BITS);
    assert_eq!(o.min_delay, TimeSpan::from_millis(25));
    assert_eq!(o.certificate_digest, None);
    assert_eq!(o.asset_path, "../pha-assets/assets");
}

fn sample_client_file() -> SerializableClientLaunchOptions {
    SerializableClientLaunchOptions {
        listen_addr: "0.0.0.0".to_string(),
        listen_port: 4000,
        server_addr: "192.168.1.20".to_string(),
        server_port: 12025,
        conditioner: SerializableLinkConditionerConfig {
            incoming_latency_ms: 10,
            incoming_jitter_ms: 2,
            incoming_loss_bits: 0.1f32.to_bits(),
        },
        correction_ticks_factor_bits: 1.5f32.to_bits(),
        min_delay_ms: 30,
        certificate_digest: Some("ab12".to_string()),
        asset_path: "assets".to_string(),
    }
}

#[test]
fn client_from_file_form() {
    let o = ClientLaunchOptions::from(sample_client_file());
    assert_eq!(o.listen_addr, Ipv4Address(0, 0, 0, 0));
    assert_eq!(o.listen_port, 4000);
    assert_eq!(o.server_addr, Ipv4Address(192, 168, 1, 20));
    assert_eq!(o.server_port, 12025);
    assert_eq!(o.conditioner.incoming_latency, TimeSpan::from_millis(10));
    assert_eq!(o.conditioner.incoming_jitter, TimeSpan::from_millis(2));
    assert_eq!(f32::from_bits(o.correction_ticks_factor_bits), 1.5);
    assert_eq!(o.min_delay, TimeSpan::from_millis(30));
    assert_eq!(o.certificate_digest.as_deref(), Some("ab12"));
    assert_eq!(o.asset_path, "assets");
}

#[test]
fn client_unparsable_addresses_fall_back_to_loopback() {
    let mut s = sample_client_file();
    s.listen_addr = "not an address".to_string();
    s.server_addr = "300.1.1.1".to_string();
    let o = ClientLaunchOptions::from(s);
    assert_eq!(o.listen_addr, Ipv4Address::localhost());
    assert_eq!(o.server_addr, Ipv4Address::localhost());
    let back = SerializableClientLaunchOptions::from(o);
    assert_eq!(back.listen_addr, "127.0.0.1");
    assert_eq!(back.server_addr, "127.0.0.1");
}

#[test]
fn client_file_form_round_trips() {
    let s = sample_client_file();
    let back = SerializableClientLaunchOptions::from(ClientLaunchOptions::from(s.clone()));
    assert_eq!(back, s);
}

#[test]
fn client_from_loaded() {
    assert_eq!(ClientLaunchOptions::from_loaded(None), ClientLaunchOptions::default());
    assert_eq!(
        ClientLaunchOptions::from_loaded(Some(sample_client_file())),
        ClientLaunchOptions::from(sample_client_file())
    );
}

#[test]
fn server_defaults() {
    let o = ServerLaunchOptions::default();
    assert!(!o.headless);
    assert_eq!(o.listen_addr, Ipv4Address::localhost());
    assert_eq!(o.udp_listen_port, 12025);
    assert_eq!(o.webtransport_listen_port, 12026);
    assert_eq!(o.conditioner.incoming_latency, TimeSpan::from_millis(50));
    assert_eq!(o.webtransport_cert_path, "./crates/pha-launcher/web/certs/cert.pem");
    assert_eq!(o.webtransport_key_path, "./crates/pha-launcher/web/certs/key.pem");
    assert_eq!(o.asset_path, "../pha-assets/assets");
}

#[test]
fn server_round_trips() {
    let o = ServerLaunchOptions {
        headless: true,
        listen_addr: Ipv4Address(10, 1, 2, 3),
        udp_listen_port: 1,
        webtransport_listen_port: 2,
        conditioner: LinkConditionerConfig {
            incoming_latency: TimeSpan::from_millis(5),
            incoming_jitter: TimeSpan::from_millis(6),
            incoming_loss_bits: 3,
        },
        webtransport_cert_path: "c.pem".to_string(),
        webtransport_key_path: "k.pem".to_string(),
        asset_path: "a".to_string(),
    };
    let s = SerializableServerLaunchOptions::from(o.clone());
    assert_eq!(s.listen_addr, "10.1.2.3");
    assert!(s.headless);
    assert_eq!(s.conditioner.incoming_latency_ms, 5);
    assert_eq!(ServerLaunchOptions::from(s.clone()), o);
    assert_eq!(ServerLaunchOptions::from_loaded(Some(s)), o);
    assert_eq!(ServerLaunchOptions::from_loaded(None), ServerLaunchOptions::default());
}
