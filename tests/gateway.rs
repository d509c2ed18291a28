use doip2http::gateway::{
    connect_response, diagnostic_response, register_session, session_key, status_key, status_response,
    validate_connect, validate_diagnostic, ConnectRequest, DiagnosticRequest, GatewayError,
};
use doip2http::hex::HexError;
use doip2http::registry::Registry;
use doip2http::uds::{UdsClient, UdsError};

fn connect_req(ip: &str, src: &str) -> ConnectRequest {
    ConnectRequest { ecu_ip: ip.to_string(), doip_source_address: src.to_string() }
}

fn diag_req(ip: &str, src: &str, tgt: &str, uds: &str) -> DiagnosticRequest {
    DiagnosticRequest {
        ecu_ip: ip.to_string(),
        doip_source_address: src.to_string(),
        doip_target_address: tgt.to_string(),
        uds_data: uds.to_string(),
    }
}

#[test]
fn session_key_joins_ip_and_source() {
    let k = session_key(&"192.168.0.10".to_string(), 0x0E80);
    assert_eq!(k, "192.168.0.10:0x0E80");
    assert_eq!(session_key(&"10.0.0.1".to_string(), 0x0001), "10.0.0.1:0x0001");
}

#[test]
fn validate_connect_accepts_good_request() {
    let r: Registry<u8> = Registry::new();
    let (key, src) = validate_connect(&r, &connect_req("192.168.0.10", "0x0E80")).unwrap();
    assert_eq!(key, "192.168.0.10:0x0E80");
    assert_eq!(src, 0x0E80);
}

#[test]
fn validate_connect_errors() {
    let mut r: Registry<u8> = Registry::new();
    assert_eq!(validate_connect(&r, &connect_req("", "0x0E80")), Err(GatewayError::MissingEcuIp));
    assert_eq!(validate_connect(&r, &connect_req("1.2.3.4", "0E80")), Err(GatewayError::SourcePrefix));
    assert_eq!(
        validate_connect(&r, &connect_req("1.2.3.4", "0x1FFFF")),
        Err(GatewayError::InvalidSourceAddress)
    );
    assert_eq!(
        validate_connect(&r, &connect_req("1.2.3.4", "0xZZ")),
        Err(GatewayError::InvalidSourceAddress)
    );
    r.insert_new("1.2.3.4:0x0E80".to_string(), 0).unwrap();
    assert_eq!(validate_connect(&r, &connect_req("1.2.3.4", "0x0E80")), Err(GatewayError::Conflict));
    assert_eq!(validate_connect(&r, &connect_req("1.2.3.4", "0x0e80")), Err(GatewayError::Conflict));
    assert_eq!(validate_connect(&r, &connect_req("1.2.3.4", "0x00E80")), Err(GatewayError::Conflict));
    assert!(validate_connect(&r, &connect_req("1.2.3.5", "0x0e80")).is_ok());
}

#[test]
fn register_session_outcomes() {
    let mut r: Registry<u8> = Registry::new();
    let k = "1.2.3.4:0x0E80".to_string();
    assert_eq!(register_session(&mut r, k.clone(), 1, false), Err(GatewayError::ConnectFailed));
    assert!(!r.contains_key(&k));
    assert_eq!(register_session(&mut r, k.clone(), 2, true), Ok(()));
    assert_eq!(register_session(&mut r, k.clone(), 3, true), Err(GatewayError::Conflict));
    assert_eq!(r.get(&k), Some(&2));
}

#[test]
fn connect_response_codes() {
    let k = "1.2.3.4:0x0E80".to_string();
    let (code, ok) = connect_response(&k, &Ok(()));
    assert_eq!(code, 200);
    assert!(ok.success);
    assert_eq!(ok.connection_id, Some(k.clone()));
    let (code, conflict) = connect_response(&k, &Err(GatewayError::Conflict));
    assert_eq!(code, 409);
    assert!(!conflict.success);
    assert_eq!(conflict.message, "Connection already exists");
    assert_eq!(conflict.connection_id, Some(k.clone()));
    let (code, failed) = connect_response(&k, &Err(GatewayError::ConnectFailed));
    assert_eq!(code, 400);
    assert_eq!(failed.message, "Failed to connect to ECU");
    assert_eq!(failed.connection_id, None);
}

#[test]
fn validate_diagnostic_prepends_addresses() {
    let c = validate_diagnostic(&diag_req("192.168.0.10", "0x0e80", "0x0001", "0x1003")).unwrap();
    assert_eq!(c.key, "192.168.0.10:0x0E80");
    assert_eq!(c.source_address, 0x0E80);
    assert_eq!(c.target_address, 0x0001);
    assert_eq!(c.uds, vec![0x10, 0x03]);
}

#[test]
fn validate_diagnostic_errors() {
    assert_eq!(
        validate_diagnostic(&diag_req("", "0x0E80", "0x0001", "0x1003")),
        Err(GatewayError::MissingEcuIp)
    );
    assert_eq!(
        validate_diagnostic(&diag_req("ip", "0E80", "0x0001", "0x1003")),
        Err(GatewayError::SourcePrefix)
    );
    assert_eq!(
        validate_diagnostic(&diag_req("ip", "0x0E80", "0001", "0x1003")),
        Err(GatewayError::TargetPrefix)
    );
    assert_eq!(
        validate_diagnostic(&diag_req("ip", "0x0E80", "0x0001", "1003")),
        Err(GatewayError::UdsDataPrefix)
    );
    assert_eq!(
        validate_diagnostic(&diag_req("ip", "0xQ", "0x0001", "0x1003")),
        Err(GatewayError::InvalidSourceAddress)
    );
    assert_eq!(
        validate_diagnostic(&diag_req("ip", "0x0E80", "0x12345", "0x1003")),
        Err(GatewayError::InvalidTargetAddress)
    );
    assert_eq!(
        validate_diagnostic(&diag_req("ip", "0x0E80", "0x0001", "0x100")),
        Err(GatewayError::InvalidUdsData(HexError::OddLength))
    );
}

#[test]
fn diagnostic_frame_for_activated_session() {
    let c = validate_diagnostic(&diag_req("ip", "0x0E80", "0x0001", "0x1003")).unwrap();
    let client = UdsClient::new(c.source_address, true);
    let frame = client.diagnostic_message(c.target_address, &c.uds).unwrap();
    assert_eq!(
        frame,
        vec![0x02, 0xFD, 0x80, 0x01, 0x00, 0x00, 0x00, 0x06, 0x0E, 0x80, 0x00, 0x01, 0x10, 0x03]
    );
    let (code, reply) = diagnostic_response(&Ok(vec![0x50, 0x03, 0x00, 0x32, 0x01, 0xF4]));
    assert_eq!(code, 200);
    assert_eq!(reply.response_data, Some("0x5003003201F4".to_string()));
}

#[test]
fn diagnostic_message_checks_first_uds_byte() {
    let client = UdsClient::new(0x0E80, true);
    assert_eq!(client.diagnostic_message(0x0001, &[0x99, 0x00]), Err(UdsError::UnknownService(0x99)));
    assert_eq!(client.diagnostic_message(0x0001, &[]), Err(UdsError::EmptyPayload));
    let offline = UdsClient::new(0x0E80, false);
    assert_eq!(offline.diagnostic_message(0x0001, &[0x10, 0x03]), Err(UdsError::NotConnected));
    assert_eq!(offline.diagnostic_message(0x0001, &[0x99]), Err(UdsError::NotConnected));
}

#[test]
fn error_messages_name_the_code() {
    assert_eq!(UdsError::UnknownService(0x99).message(), "Unknown UDS service ID: 0x99");
    assert_eq!(
        UdsError::ActivationRejected(0x10).message(),
        "Routing activation failed with code: 0x10"
    );
    let (_, r) = diagnostic_response(&Err(GatewayError::Session(UdsError::UnknownService(0x05))));
    assert_eq!(r.message, "Unknown UDS service ID: 0x05");
}

#[test]
fn diagnostic_response_renders_hex() {
    let (code, r) = diagnostic_response(&Ok(vec![0x50, 0x03, 0x00, 0x32]));
    assert_eq!(code, 200);
    assert!(r.success);
    assert_eq!(r.response_data, Some("0x50030032".to_string()));
    let (code, r) = diagnostic_response(&Err(GatewayError::ConnectionNotFound));
    assert_eq!(code, 400);
    assert!(!r.success);
    assert_eq!(r.message, "Connection not found");
    assert_eq!(r.response_data, None);
    let (_, r) = diagnostic_response(&Err(GatewayError::Session(UdsError::NotConnected)));
    assert_eq!(r.message, "Not connected to ECU");
}

#[test]
fn status_response_found_and_missing() {
    let req = connect_req("1.2.3.4", "0x0E80");
    let key = status_key(&req).unwrap();
    assert_eq!(key, "1.2.3.4:0x0E80");
    assert_eq!(status_key(&connect_req("1.2.3.4", "0x0e80")), Some(key.clone()));
    assert_eq!(status_key(&connect_req("1.2.3.4", "0E80")), None);
    let s = status_response(&req, Some((key.clone(), true)));
    assert_eq!(s.active_connections, 1);
    assert_eq!(s.connections.len(), 1);
    assert_eq!(s.connections[0].connection_id, key);
    assert_eq!(s.connections[0].ecu_ip, "1.2.3.4");
    assert!(s.connections[0].connected);
    let s = status_response(&req, None);
    assert_eq!(s.active_connections, 0);
    assert!(s.connections.is_empty());
}

#[test]
fn gateway_error_status_codes() {
    assert_eq!(GatewayError::Conflict.status(), 409);
    assert_eq!(GatewayError::MissingEcuIp.status(), 400);
    assert_eq!(GatewayError::Transport.status(), 400);
    assert_eq!(
        GatewayError::InvalidUdsData(HexError::Empty).message(),
        "Hex string after '0x' is empty"
    );
}
