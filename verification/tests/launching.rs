use pha::ipv4::Ipv4Address;
use pha::launch::{
    certificate_digest_text, config_path, default_config_path, plan_launch, server_app_plan, server_net_plan,
    server_options_for,
    ClientTransportPlan, ConfigKind, LaunchError, LaunchPlan, Mode, ServerMode,
    ServerTransportPlan, SharedTiming, SocketAddress,
};
use pha::launch_options::{ClientLaunchOptions, ServerLaunchOptions, SharedLaunchOptions};
use pha::time_span::TimeSpan;
use pha::web::{parse_u64, plan_web_client, web_client_id, WebLaunchError};

fn shared() -> SharedLaunchOptions {
    SharedLaunchOptions {
        protocol_id: 9,
        key: [4u8; 32],
        simulation_update_frequency: TimeSpan::from_millis(16),
        server_replication_send_interval: TimeSpan::from_millis(50),
        client_replication_send_interval: TimeSpan::from_millis(20),
    }
}

fn client() -> ClientLaunchOptions {
    let mut c = ClientLaunchOptions::default();
    c.listen_addr = Ipv4Address(0, 0, 0, 0);
    c.listen_port = 5000;
    c.server_addr = Ipv4Address(10, 0, 0, 2);
    c.server_port = 12025;
    c.asset_path = "client-assets".to_string();
    c
}

fn server() -> ServerLaunchOptions {
    let mut s = ServerLaunchOptions::default();
    s.listen_addr = Ipv4Address(10, 0, 0, 2);
    s.asset_path = "server-assets".to_string();
    s
}

#[test]
fn client_without_id_is_refused() {
    let r = plan_launch(Mode::Client, false, 0, &shared(), client(), server(), true);
    assert_eq!(r, Err(LaunchError::MissingClientId));
    assert!(LaunchError::MissingClientId.message().starts_with("No --client_id specified"));
}

#[test]
fn client_launch_plan() {
    let r = plan_launch(Mode::Client, false, 7, &shared(), client(), server(), true);
    let p = match r {
        Ok(LaunchPlan::Client(p)) => p,
        other => panic!("unexpected {:?}", other),
    };
    assert_eq!(
        p.shared,
        SharedTiming {
            server_replication_send_interval: TimeSpan::from_millis(50),
            client_replication_send_interval: TimeSpan::from_millis(20),
            tick_duration: TimeSpan::from_millis(16),
        }
    );
    assert_eq!(
        p.remote.transport,
        ClientTransportPlan::UdpSocket(SocketAddress { ip: Ipv4Address(0, 0, 0, 0), port: 5000 })
    );
    assert_eq!(p.remote.server_addr, SocketAddress { ip: Ipv4Address(10, 0, 0, 2), port: 12025 });
    assert_eq!(p.local.transport, ClientTransportPlan::LocalChannel);
    assert_eq!(p.local.server_addr, SocketAddress { ip: Ipv4Address::localhost(), port: 0 });
    for c in [p.remote, p.local] {
        assert_eq!(c.client_id, 7);
        assert_eq!(c.protocol_id, 9);
        assert_eq!(c.private_key, [4u8; 32]);
        assert_eq!(c.token_expire_secs, -1);
        assert_eq!(c.client_timeout_secs, 5);
        assert_eq!(c.min_delay, TimeSpan::from_millis(25));
        assert_eq!(f32::from_bits(c.send_interval_ratio_bits), 0.0);
    }
    assert_eq!(
        p.server.transports,
        vec![
            ServerTransportPlan::UdpSocket(SocketAddress { ip: Ipv4Address(10, 0, 0, 2), port: 12025 }),
            ServerTransportPlan::Channels(SocketAddress { ip: Ipv4Address::localhost(), port: 12027 }),
            ServerTransportPlan::WebTransport(SocketAddress { ip: Ipv4Address(10, 0, 0, 2), port: 12026 }),
        ]
    );
    assert_eq!(p.asset_path, "client-assets");
    assert_eq!(ServerMode::hosted_by(&p.local), ServerMode::ClientHost(7));
}

#[test]
fn server_launch_plan_modes() {
    let windowed = plan_launch(Mode::Server, false, 0, &shared(), client(), server(), false);
    match windowed {
        Ok(LaunchPlan::Server(p)) => {
            assert_eq!(p.mode, ServerMode::Windowed);
            assert_eq!(
                p.server.transports,
                vec![ServerTransportPlan::UdpSocket(SocketAddress {
                    ip: Ipv4Address(10, 0, 0, 2),
                    port: 12025
                })]
            );
            assert_eq!(p.asset_path, "server-assets");
            assert_eq!(p.server.protocol_id, 9);
        }
        other => panic!("unexpected {:?}", other),
    }
    let flag = plan_launch(Mode::Server, true, 0, &shared(), client(), server(), true);
    match flag {
        Ok(LaunchPlan::Server(p)) => {
            assert_eq!(p.mode, ServerMode::Headless);
            assert_eq!(p.server.transports.len(), 2);
        }
        other => panic!("unexpected {:?}", other),
    }
    let mut headless_opts = server();
    headless_opts.headless = true;
    match plan_launch(Mode::Server, false, 3, &shared(), client(), headless_opts, false) {
        Ok(LaunchPlan::Server(p)) => assert_eq!(p.mode, ServerMode::Headless),
        other => panic!("unexpected {:?}", other),
    }
}

#[test]
fn server_net_plan_without_certificate() {
    let p = server_net_plan(&shared(), &server(), true, false);
    assert_eq!(p.transports.len(), 2);
    assert_eq!(p.key, [4u8; 32]);
}

#[test]
fn server_app_shapes() {
    let w = server_app_plan(ServerMode::Windowed);
    assert!(w.windowed && w.logging && w.headless_tick.is_none());
    let h = server_app_plan(ServerMode::Headless);
    assert!(!h.windowed && h.logging);
    assert_eq!(h.headless_tick, Some(TimeSpan::from_millis(10)));
    let c = server_app_plan(ServerMode::ClientHost(4));
    assert!(!c.windowed && !c.logging);
}

#[test]
fn host_shutdown_requests() {
    let host = ServerMode::ClientHost(4);
    assert!(host.stops_on_request_from(4));
    assert!(!host.stops_on_request_from(5));
    assert!(!ServerMode::Headless.stops_on_request_from(4));
    assert!(host.stops_on_requests(&vec![1, 2, 4]));
    assert!(!host.stops_on_requests(&vec![1, 2]));
    assert!(!ServerMode::Windowed.stops_on_requests(&vec![0, 4]));
    assert!(host.exits_when_stopped());
    assert!(!ServerMode::Headless.exits_when_stopped());
}

#[test]
fn config_paths() {
    assert_eq!(default_config_path(ConfigKind::Shared), "./crates/pha-launcher/options/shared_options.ron");
    assert_eq!(default_config_path(ConfigKind::Client), "./crates/pha-launcher/options/client_options.ron");
    assert_eq!(default_config_path(ConfigKind::Server), "./crates/pha-launcher/options/server_options.ron");
    assert_eq!(config_path(Some("mine.ron".to_string()), ConfigKind::Client), "mine.ron");
    assert_eq!(config_path(None, ConfigKind::Server), "./crates/pha-launcher/options/server_options.ron");
}

#[test]
fn web_client_ids() {
    assert_eq!(web_client_id(Some("42".to_string())), 42);
    assert_eq!(web_client_id(Some("+7".to_string())), 7);
    assert_eq!(web_client_id(Some("abc".to_string())), 293857);
    assert_eq!(web_client_id(Some("".to_string())), 293857);
    assert_eq!(web_client_id(Some("-1".to_string())), 293857);
    assert_eq!(web_client_id(Some("18446744073709551615".to_string())), u64::MAX);
    assert_eq!(web_client_id(Some("18446744073709551616".to_string())), 293857);
    assert_eq!(web_client_id(None), 293857);
}

#[test]
fn web_client_needs_certificate_digest() {
    let r = plan_web_client(client(), &shared(), 11);
    assert_eq!(r, Err(WebLaunchError::MissingCertificateDigest));
    assert_eq!(WebLaunchError::MissingCertificateDigest.message(), "Missing certificate digest");
}

#[test]
fn web_client_plan() {
    let mut c = client();
    c.certificate_digest = Some("d1g35t".to_string());
    let p = plan_web_client(c, &shared(), 11).expect("digest present");
    assert_eq!(p.client_addr, SocketAddress { ip: Ipv4Address(0, 0, 0, 0), port: 5000 });
    assert_eq!(p.server_addr, SocketAddress { ip: Ipv4Address(10, 0, 0, 2), port: 12025 });
    assert_eq!(p.certificate_digest, "d1g35t");
    assert_eq!(p.client_id, 11);
    assert_eq!(p.protocol_id, 9);
    assert_eq!(p.token_expire_secs, -1);
    assert_eq!(p.client_timeout_secs, 5);
    assert_eq!(p.asset_path, "client-assets");
}

#[test]
fn client_runs_its_server_headless() {
    let s = server();
    assert!(!s.headless);
    let c = server_options_for(Mode::Client, s.clone());
    assert!(c.headless);
    assert_eq!(c.listen_addr, s.listen_addr);
    assert_eq!(c.asset_path, s.asset_path);
    assert_eq!(server_options_for(Mode::Server, s.clone()), s);
}

#[test]
fn web_config_paths() {
    assert_eq!(pha::web::web_client_config_path(), "./options/web_client_options.ron");
    assert_eq!(pha::web::web_shared_config_path(), "./options/shared_options.ron");
}

#[test]
fn certificate_digest_drops_separators() {
    assert_eq!(certificate_digest_text("ab:cd:01"), "abcd01");
    assert_eq!(certificate_digest_text(""), "");
    assert_eq!(certificate_digest_text(":::"), "");
    assert_eq!(certificate_digest_text("f00d"), "f00d");
}

#[test]
fn unsigned_integer_text() {
    assert_eq!(parse_u64("0"), Some(0));
    assert_eq!(parse_u64("42"), Some(42));
    assert_eq!(parse_u64("007"), Some(7));
    assert_eq!(parse_u64("+5"), Some(5));
    assert_eq!(parse_u64("18446744073709551615"), Some(u64::MAX));
    assert_eq!(parse_u64("18446744073709551616"), None);
    assert_eq!(parse_u64(""), None);
    assert_eq!(parse_u64("+"), None);
    assert_eq!(parse_u64("++1"), None);
    assert_eq!(parse_u64("-0"), None);
    assert_eq!(parse_u64("4 2"), None);
    assert_eq!(parse_u64("\u{0663}"), None);
}
