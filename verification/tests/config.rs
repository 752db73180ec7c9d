use easytier_gui::config::{
    check_port, parse_network_config, read_entries, ConfigErrorKind, NetworkConfig,
    NetworkingMethod, Notation,
};
use easytier_gui::ipv4::{parse_ipv4, Ipv4Address};
use easytier_gui::text::format_i32;

const ID: &str = "550e8400-e29b-41d4-a716-446655440000";

fn standalone() -> NetworkConfig {
    NetworkConfig {
        instance_id: ID.to_string(),
        dhcp: true,
        network_name: "home".to_string(),
        networking_method: NetworkingMethod::Standalone,
        ..NetworkConfig::default()
    }
}

fn texts(list: &[&str]) -> Vec<String> {
    list.iter().map(|s| s.to_string()).collect()
}

#[test]
fn default_record_is_blank() {
    let cfg = NetworkConfig::default();
    assert_eq!(cfg.instance_id, "");
    assert!(!cfg.dhcp);
    assert_eq!(cfg.virtual_ipv4, "");
    assert_eq!(cfg.hostname, None);
    assert_eq!(cfg.networking_method, NetworkingMethod::PublicServer);
    assert!(cfg.peer_urls.is_empty());
    assert!(cfg.proxy_cidrs.is_empty());
    assert!(cfg.listener_urls.is_empty());
    assert!(!cfg.enable_vpn_portal);
    assert_eq!(cfg.vpn_portal_listen_port, 0);
    assert_eq!(cfg.vpn_portal_client_network_len, 0);
    assert_eq!(cfg.rpc_port, 0);
    assert!(!cfg.latency_first);
    assert_eq!(NetworkingMethod::default(), NetworkingMethod::PublicServer);
}

#[test]
fn standalone_dhcp_record_translates() {
    let out = standalone().gen_config().unwrap();
    assert_eq!(out.instance_id, ID);
    assert_eq!(out.network_name, "home");
    assert_eq!(out.instance_name, "home");
    assert_eq!(out.network_secret, "");
    assert_eq!(out.hostname, None);
    assert!(out.dhcp);
    assert_eq!(out.ipv4, None);
    assert!(out.peers.is_empty());
    assert!(out.listeners.is_empty());
    assert!(out.proxy_cidrs.is_empty());
    assert_eq!(out.rpc_portal_port, 0);
    assert!(out.vpn_portal.is_none());
    assert!(!out.latency_first);
}

#[test]
fn public_server_that_is_no_uri_is_rejected() {
    let cfg = NetworkConfig {
        networking_method: NetworkingMethod::PublicServer,
        public_server_url: "not a uri".to_string(),
        ..standalone()
    };
    let err = cfg.gen_config().unwrap_err();
    assert_eq!(err.kind, ConfigErrorKind::InvalidPublicServerUrl);
    assert_eq!(err.field_name(), "public_server_url");
    assert_eq!(err.value, "not a uri");
    assert_eq!(err.message(), "failed to parse public server uri: not a uri");
}

#[test]
fn public_server_becomes_the_one_peer() {
    let cfg = NetworkConfig {
        networking_method: NetworkingMethod::PublicServer,
        public_server_url: "tcp://public.example.org:11010".to_string(),
        peer_urls: texts(&["not a uri"]),
        ..standalone()
    };
    let out = cfg.gen_config().unwrap();
    assert_eq!(out.peers, texts(&["tcp://public.example.org:11010"]));
}

#[test]
fn manual_peers_pass_over_empty_entries() {
    let cfg = NetworkConfig {
        networking_method: NetworkingMethod::Manual,
        peer_urls: texts(&["", "tcp://10.0.0.1:11010", ""]),
        public_server_url: "not a uri".to_string(),
        ..standalone()
    };
    let out = cfg.gen_config().unwrap();
    assert_eq!(out.peers.len(), 1);
    assert_eq!(out.peers, texts(&["tcp://10.0.0.1:11010"]));
}

#[test]
fn manual_peers_may_be_none() {
    let cfg = NetworkConfig {
        networking_method: NetworkingMethod::Manual,
        peer_urls: texts(&["", ""]),
        ..standalone()
    };
    assert!(cfg.gen_config().unwrap().peers.is_empty());
}

#[test]
fn manual_peer_that_is_no_uri_is_rejected() {
    let cfg = NetworkConfig {
        networking_method: NetworkingMethod::Manual,
        peer_urls: texts(&["tcp://10.0.0.1:11010", "", "10.0.0.2", "also bad"]),
        ..standalone()
    };
    let err = cfg.gen_config().unwrap_err();
    assert_eq!(err.kind, ConfigErrorKind::InvalidPeerUrl);
    assert_eq!(err.field_name(), "peer_urls");
    assert_eq!(err.value, "10.0.0.2");
    assert_eq!(err.message(), "failed to parse peer uri: 10.0.0.2");
}

#[test]
fn standalone_ignores_the_peer_fields() {
    let cfg = NetworkConfig {
        public_server_url: "not a uri".to_string(),
        peer_urls: texts(&["not a uri"]),
        ..standalone()
    };
    assert!(cfg.gen_config().unwrap().peers.is_empty());
}

#[test]
fn identifier_is_written_back_in_lower_case() {
    let cfg = NetworkConfig {
        instance_id: "550E8400E29B41D4A716446655440000".to_string(),
        ..standalone()
    };
    assert_eq!(cfg.gen_config().unwrap().instance_id, ID);
}

#[test]
fn identifier_that_does_not_read_is_rejected_first() {
    let cfg = NetworkConfig {
        instance_id: "not-an-id".to_string(),
        networking_method: NetworkingMethod::PublicServer,
        public_server_url: "not a uri".to_string(),
        rpc_port: -1,
        ..standalone()
    };
    let err = cfg.gen_config().unwrap_err();
    assert_eq!(err.kind, ConfigErrorKind::InvalidIdentifier);
    assert_eq!(err.field_name(), "instance_id");
    assert_eq!(err.value, "not-an-id");
    assert_eq!(err.message(), "failed to parse instance id: not-an-id");
}

#[test]
fn uris_are_held_as_their_parser_writes_them() {
    let cfg = NetworkConfig {
        networking_method: NetworkingMethod::PublicServer,
        public_server_url: "HTTPS://Example.ORG".to_string(),
        ..standalone()
    };
    assert_eq!(cfg.gen_config().unwrap().peers, texts(&["https://example.org/"]));
}

#[test]
fn virtual_address_is_read_without_dhcp() {
    let cfg = NetworkConfig { dhcp: false, virtual_ipv4: "10.144.144.1".to_string(), ..standalone() };
    let out = cfg.gen_config().unwrap();
    assert!(!out.dhcp);
    assert_eq!(out.ipv4, Some(Ipv4Address { a: 10, b: 144, c: 144, d: 1 }));
}

#[test]
fn empty_virtual_address_is_unset() {
    let cfg = NetworkConfig { dhcp: false, virtual_ipv4: String::new(), ..standalone() };
    assert_eq!(cfg.gen_config().unwrap().ipv4, None);
}

#[test]
fn virtual_address_is_ignored_with_dhcp() {
    let cfg = NetworkConfig { dhcp: true, virtual_ipv4: "nonsense".to_string(), ..standalone() };
    assert_eq!(cfg.gen_config().unwrap().ipv4, None);
}

#[test]
fn virtual_address_that_does_not_read_is_rejected() {
    let cfg = NetworkConfig { dhcp: false, virtual_ipv4: "10.0.0.256".to_string(), ..standalone() };
    let err = cfg.gen_config().unwrap_err();
    assert_eq!(err.kind, ConfigErrorKind::InvalidVirtualIpv4);
    assert_eq!(err.field_name(), "virtual_ipv4");
    assert_eq!(err.value, "10.0.0.256");
    assert_eq!(err.message(), "failed to parse ipv4 address: 10.0.0.256");
}

#[test]
fn listeners_pass_over_empty_entries() {
    let cfg = NetworkConfig {
        listener_urls: texts(&["tcp://0.0.0.0:11010", "", "udp://0.0.0.0:11010"]),
        ..standalone()
    };
    assert_eq!(
        cfg.gen_config().unwrap().listeners,
        texts(&["tcp://0.0.0.0:11010", "udp://0.0.0.0:11010"])
    );
}

#[test]
fn listener_that_is_no_uri_is_rejected() {
    let cfg = NetworkConfig { listener_urls: texts(&["", "0.0.0.0"]), ..standalone() };
    let err = cfg.gen_config().unwrap_err();
    assert_eq!(err.kind, ConfigErrorKind::InvalidListenerUrl);
    assert_eq!(err.field_name(), "listener_urls");
    assert_eq!(err.value, "0.0.0.0");
    assert_eq!(err.message(), "failed to parse listener uri: 0.0.0.0");
}

#[test]
fn proxied_networks_are_held_as_their_reader_writes_them() {
    let cfg = NetworkConfig {
        proxy_cidrs: texts(&["10.0.0.0/24", "192.168.1.7/32", "fd00::/8"]),
        ..standalone()
    };
    assert_eq!(
        cfg.gen_config().unwrap().proxy_cidrs,
        texts(&["10.0.0.0/24", "192.168.1.7", "fd00::/8"])
    );
}

#[test]
fn empty_proxied_network_is_rejected() {
    let cfg = NetworkConfig { proxy_cidrs: texts(&["10.0.0.0/24", ""]), ..standalone() };
    let err = cfg.gen_config().unwrap_err();
    assert_eq!(err.kind, ConfigErrorKind::InvalidProxyCidr);
    assert_eq!(err.field_name(), "proxy_cidrs");
    assert_eq!(err.value, "");
    assert_eq!(err.message(), "failed to parse proxy network: ");
}

#[test]
fn proxied_network_with_host_bits_is_rejected() {
    let cfg = NetworkConfig { proxy_cidrs: texts(&["10.0.0.1/24"]), ..standalone() };
    let err = cfg.gen_config().unwrap_err();
    assert_eq!(err.kind, ConfigErrorKind::InvalidProxyCidr);
    assert_eq!(err.value, "10.0.0.1/24");
}

#[test]
fn rpc_port_is_taken_over() {
    let cfg = NetworkConfig { rpc_port: 15888, ..standalone() };
    assert_eq!(cfg.gen_config().unwrap().rpc_portal_port, 15888);
    let top = NetworkConfig { rpc_port: 65535, ..standalone() };
    assert_eq!(top.gen_config().unwrap().rpc_portal_port, 65535);
}

#[test]
fn rpc_port_out_of_range_is_rejected() {
    let low = NetworkConfig { rpc_port: -1, ..standalone() }.gen_config().unwrap_err();
    assert_eq!(low.kind, ConfigErrorKind::InvalidRpcPort);
    assert_eq!(low.field_name(), "rpc_port");
    assert_eq!(low.value, "-1");
    assert_eq!(low.message(), "failed to parse rpc portal port: -1");
    let high = NetworkConfig { rpc_port: 65536, ..standalone() }.gen_config().unwrap_err();
    assert_eq!(high.kind, ConfigErrorKind::InvalidRpcPort);
    assert_eq!(high.value, "65536");
}

#[test]
fn vpn_portal_is_built_when_enabled() {
    let cfg = NetworkConfig {
        enable_vpn_portal: true,
        vpn_portal_client_network_addr: "10.14.14.0".to_string(),
        vpn_portal_client_network_len: 24,
        vpn_portal_listen_port: 22022,
        ..standalone()
    };
    let portal = cfg.gen_config().unwrap().vpn_portal.unwrap();
    assert_eq!(portal.client_cidr, "10.14.14.0/24");
    assert_eq!(portal.wireguard_listen_port, 22022);
}

#[test]
fn vpn_portal_client_network_is_written_out_in_full() {
    let cfg = NetworkConfig {
        enable_vpn_portal: true,
        vpn_portal_client_network_addr: "10.14".to_string(),
        vpn_portal_client_network_len: 16,
        vpn_portal_listen_port: 22022,
        ..standalone()
    };
    assert_eq!(cfg.gen_config().unwrap().vpn_portal.unwrap().client_cidr, "10.14.0.0/16");
}

#[test]
fn vpn_portal_is_left_out_when_disabled() {
    let cfg = NetworkConfig {
        enable_vpn_portal: false,
        vpn_portal_client_network_addr: "nonsense".to_string(),
        vpn_portal_client_network_len: 99,
        vpn_portal_listen_port: -5,
        ..standalone()
    };
    assert!(cfg.gen_config().unwrap().vpn_portal.is_none());
}

#[test]
fn vpn_portal_client_network_that_does_not_read_is_rejected() {
    let cfg = NetworkConfig {
        enable_vpn_portal: true,
        vpn_portal_client_network_addr: "10.14.14.0".to_string(),
        vpn_portal_client_network_len: 33,
        vpn_portal_listen_port: -5,
        ..standalone()
    };
    let err = cfg.gen_config().unwrap_err();
    assert_eq!(err.kind, ConfigErrorKind::InvalidVpnPortalClientCidr);
    assert_eq!(err.field_name(), "vpn_portal_client_network_addr");
    assert_eq!(err.value, "10.14.14.0/33");
    assert_eq!(err.message(), "failed to parse vpn portal client cidr: 10.14.14.0/33");
}

#[test]
fn vpn_portal_negative_length_is_rejected() {
    let cfg = NetworkConfig {
        enable_vpn_portal: true,
        vpn_portal_client_network_addr: "10.14.14.0".to_string(),
        vpn_portal_client_network_len: -24,
        vpn_portal_listen_port: 22022,
        ..standalone()
    };
    let err = cfg.gen_config().unwrap_err();
    assert_eq!(err.kind, ConfigErrorKind::InvalidVpnPortalClientCidr);
    assert_eq!(err.value, "10.14.14.0/-24");
}

#[test]
fn vpn_portal_listen_port_out_of_range_is_rejected() {
    let cfg = NetworkConfig {
        enable_vpn_portal: true,
        vpn_portal_client_network_addr: "10.14.14.0".to_string(),
        vpn_portal_client_network_len: 24,
        vpn_portal_listen_port: 70000,
        ..standalone()
    };
    let err = cfg.gen_config().unwrap_err();
    assert_eq!(err.kind, ConfigErrorKind::InvalidVpnPortalListenPort);
    assert_eq!(err.field_name(), "vpn_portal_listen_port");
    assert_eq!(err.value, "70000");
    assert_eq!(
        err.message(),
        "failed to parse vpn portal wireguard listen port. 70000"
    );
}

#[test]
fn checks_fail_in_their_order() {
    let cfg = NetworkConfig {
        dhcp: false,
        virtual_ipv4: "bad".to_string(),
        listener_urls: texts(&["bad"]),
        proxy_cidrs: texts(&["bad"]),
        rpc_port: -1,
        ..standalone()
    };
    assert_eq!(cfg.gen_config().unwrap_err().kind, ConfigErrorKind::InvalidVirtualIpv4);
    let cfg = NetworkConfig { dhcp: true, ..cfg };
    assert_eq!(cfg.gen_config().unwrap_err().kind, ConfigErrorKind::InvalidListenerUrl);
    let cfg = NetworkConfig { listener_urls: Vec::new(), ..cfg };
    assert_eq!(cfg.gen_config().unwrap_err().kind, ConfigErrorKind::InvalidProxyCidr);
    let cfg = NetworkConfig { proxy_cidrs: Vec::new(), ..cfg };
    assert_eq!(cfg.gen_config().unwrap_err().kind, ConfigErrorKind::InvalidRpcPort);
}

#[test]
fn translation_is_repeatable() {
    let cfg = NetworkConfig {
        hostname: Some("box".to_string()),
        network_secret: "secret".to_string(),
        latency_first: true,
        networking_method: NetworkingMethod::Manual,
        peer_urls: texts(&["tcp://10.0.0.1:11010", "udp://10.0.0.2:11010"]),
        ..standalone()
    };
    let first = cfg.gen_config().unwrap();
    let second = cfg.gen_config().unwrap();
    assert_eq!(format!("{:?}", first), format!("{:?}", second));
    assert_eq!(first.hostname, Some("box".to_string()));
    assert_eq!(first.network_secret, "secret");
    assert!(first.latency_first);
    assert_eq!(first.peers.len(), 2);
    let bad = NetworkConfig { rpc_port: 1 << 20, ..standalone() };
    assert_eq!(
        format!("{:?}", bad.gen_config().unwrap_err()),
        format!("{:?}", bad.gen_config().unwrap_err())
    );
}

#[test]
fn entries_are_read_from_the_left() {
    let list = texts(&["", "10.0.0.0/8", "x", "y"]);
    assert_eq!(read_entries(Notation::IpCidr, true, &list), Err("x".to_string()));
    assert_eq!(read_entries(Notation::IpCidr, false, &list), Err(String::new()));
    let good = texts(&["", "tcp://a:1", ""]);
    assert_eq!(read_entries(Notation::Uri, true, &good), Ok(texts(&["tcp://a:1"])));
    assert_eq!(read_entries(Notation::Uri, true, &Vec::new()), Ok(Vec::new()));
}

#[test]
fn ports_are_checked_against_their_range() {
    assert_eq!(check_port(0, ConfigErrorKind::InvalidRpcPort).unwrap(), 0);
    assert_eq!(check_port(65535, ConfigErrorKind::InvalidRpcPort).unwrap(), 65535);
    let err = check_port(i32::MIN, ConfigErrorKind::InvalidVpnPortalListenPort).unwrap_err();
    assert_eq!(err.kind, ConfigErrorKind::InvalidVpnPortalListenPort);
    assert_eq!(err.value, "-2147483648");
}

#[test]
fn integers_are_written_in_decimal() {
    assert_eq!(format_i32(0), "0");
    assert_eq!(format_i32(7), "7");
    assert_eq!(format_i32(10), "10");
    assert_eq!(format_i32(-1), "-1");
    assert_eq!(format_i32(65536), "65536");
    assert_eq!(format_i32(i32::MAX), "2147483647");
    assert_eq!(format_i32(i32::MIN), "-2147483648");
}

#[test]
fn addresses_are_read_in_dot_decimal() {
    assert_eq!(parse_ipv4("0.0.0.0"), Some(Ipv4Address { a: 0, b: 0, c: 0, d: 0 }));
    assert_eq!(parse_ipv4("255.255.255.255"), Some(Ipv4Address { a: 255, b: 255, c: 255, d: 255 }));
    assert_eq!(parse_ipv4("192.168.1.20"), Some(Ipv4Address { a: 192, b: 168, c: 1, d: 20 }));
    assert_eq!(parse_ipv4("1.22.100.9"), Some(Ipv4Address { a: 1, b: 22, c: 100, d: 9 }));
}

#[test]
fn malformed_addresses_are_not_read() {
    for text in [
        "", ".", "1", "1.2.3", "1.2.3.", ".1.2.3", "1..2.3", "1.2.3.4.5", "1.2.3.4.", "256.1.1.1",
        "1.1.1.256", "1.2.3.1000", "01.2.3.4", "1.2.3.04", "00.0.0.0", " 1.2.3.4", "1.2.3.4 ",
        "1.2.3.4/24", "a.b.c.d", "1.2.3.-4", "+1.2.3.4", "0x1.2.3.4", "١.2.3.4", "1。2。3。4",
    ] {
        assert_eq!(parse_ipv4(text), None, "{:?}", text);
    }
}

#[test]
fn translation_command_answers_with_the_configuration_or_the_message() {
    let out = parse_network_config(&standalone()).unwrap();
    assert_eq!(out.instance_id, ID);
    assert!(out.peers.is_empty());
    let bad = NetworkConfig { instance_id: "x".to_string(), ..standalone() };
    assert_eq!(
        parse_network_config(&bad).unwrap_err(),
        "failed to parse instance id: x"
    );
    let bad = NetworkConfig { proxy_cidrs: texts(&["10.0.0.0/33"]), ..standalone() };
    assert_eq!(
        parse_network_config(&bad).unwrap_err(),
        "failed to parse proxy network: 10.0.0.0/33"
    );
}
