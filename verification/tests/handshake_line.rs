use kv_plugin::handshake::{u64_to_dec_string, HandshakeRecord, NetworkType};

#[test]
fn handshake_line_matches_host_expectation() {
    let record = HandshakeRecord {
        core_protocol_version: 1,
        app_protocol_version: 2,
        network: NetworkType::Tcp,
        address: "127.0.0.1:5001".to_string(),
        rpc_protocol: "grpc".to_string(),
    };
    assert_eq!(record.format_line(), "1|2|tcp|127.0.0.1:5001|grpc");
}

#[test]
fn handshake_line_carries_bound_address_exactly() {
    let record = HandshakeRecord {
        core_protocol_version: 1,
        app_protocol_version: 2,
        network: NetworkType::Tcp,
        address: "0.0.0.0:39741".to_string(),
        rpc_protocol: "grpc".to_string(),
    };
    let line = record.format_line();
    assert_eq!(line, "1|2|tcp|0.0.0.0:39741|grpc");
    let fields: Vec<&str> = line.split('|').collect();
    assert_eq!(fields.len(), 5);
    assert_eq!(fields[3], "0.0.0.0:39741");
}

#[test]
fn handshake_line_unix_network() {
    let record = HandshakeRecord {
        core_protocol_version: 1,
        app_protocol_version: 2,
        network: NetworkType::Unix,
        address: "/tmp/plugin.sock".to_string(),
        rpc_protocol: "grpc".to_string(),
    };
    assert_eq!(record.format_line(), "1|2|unix|/tmp/plugin.sock|grpc");
}

#[test]
fn decimal_rendering_exact_values() {
    assert_eq!(u64_to_dec_string(0), "0");
    assert_eq!(u64_to_dec_string(7), "7");
    assert_eq!(u64_to_dec_string(10), "10");
    assert_eq!(u64_to_dec_string(5001), "5001");
    assert_eq!(u64_to_dec_string(18446744073709551615), "18446744073709551615");
}

#[test]
fn network_type_names() {
    assert_eq!(NetworkType::Tcp.name(), "tcp");
    assert_eq!(NetworkType::Unix.name(), "unix");
}
