//! The gateway's request handling: validation of connect and diagnostic
//! requests, session keys, registration, and the replies sent back.
use vstd::prelude::*;
use crate::codec::be_u16;
use crate::hex::{
    has_hex_prefix, hex_text, parse_address_spec, parse_hex, parse_hex_address, parse_hex_spec,
    starts_with_hex_prefix, upper_hex, HexError,
};
use crate::registry::{admits, after_insert_new, Registry};
use crate::uds::UdsError;

verus! {

/// A request to open a session, or to ask for its status.
#[derive(Clone, Debug)]
pub struct ConnectRequest {
    pub ecu_ip: String,
    pub doip_source_address: String,
}

/// A request to send UDS bytes to an ECU over an open session.
#[derive(Clone, Debug)]
pub struct DiagnosticRequest {
    pub ecu_ip: String,
    pub doip_source_address: String,
    pub doip_target_address: String,
    pub uds_data: String,
}

/// The reply to a connect request.
#[derive(Clone, Debug)]
pub struct ConnectResponse {
    pub success: bool,
    pub message: String,
    pub connection_id: Option<String>,
}

/// The reply to a diagnostic request.
#[derive(Clone, Debug)]
pub struct DiagnosticResponse {
    pub success: bool,
    pub message: String,
    pub response_data: Option<String>,
}

/// The reply to a status request.
#[derive(Clone, Debug)]
pub struct StatusResponse {
    pub active_connections: usize,
    pub connections: Vec<ConnectionInfo>,
}

/// One session as reported by a status request.
#[derive(Clone, Debug)]
pub struct ConnectionInfo {
    pub connection_id: String,
    pub ecu_ip: String,
    pub doip_source_address: String,
    pub connected: bool,
}

/// Why the gateway refused or failed a request.
#[derive(Clone, Copy, Debug, PartialEq, Eq)]
pub enum GatewayError {
    /// A session already exists for the key.
    Conflict,
    MissingEcuIp,
    SourcePrefix,
    InvalidSourceAddress,
    TargetPrefix,
    InvalidTargetAddress,
    UdsDataPrefix,
    InvalidUdsData(HexError),
    /// The TCP connection to the ECU could not be established.
    ConnectFailed,
    /// No session exists for the key.
    ConnectionNotFound,
    /// The session refused the request.
    Session(UdsError),
    /// Sending the request or reading the answer failed.
    Transport,
}

impl GatewayError {
    /// HTTP status of a reply carrying this error.
    pub open spec fn spec_status(self) -> u16 {
        match self {
            GatewayError::Conflict => 409,
            _ => 400,
        }
    }

    pub fn status(&self) -> (r: u16)
        ensures
            r == self.spec_status(),
    {
        match self {
            GatewayError::Conflict => 409,
            _ => 400,
        }
    }

    pub open spec fn spec_message(self) -> Seq<char> {
        match self {
            GatewayError::Conflict => "Connection already exists"@,
            GatewayError::MissingEcuIp => "ECU IP address is required"@,
            GatewayError::SourcePrefix => "Source address must start with '0x'"@,
            GatewayError::InvalidSourceAddress => "Source address must be a valid 2-byte hexadecimal number"@,
            GatewayError::TargetPrefix => "Target address must start with '0x'"@,
            GatewayError::InvalidTargetAddress => "Target address must be a valid 2-byte hexadecimal number"@,
            GatewayError::UdsDataPrefix => "UDS data must start with '0x'"@,
            GatewayError::InvalidUdsData(e) => e.spec_message(),
            GatewayError::ConnectFailed => "Failed to connect to ECU"@,
            GatewayError::ConnectionNotFound => "Connection not found"@,
            GatewayError::Session(e) => e.spec_message(),
            GatewayError::Transport => "Failed to send diagnostic message"@,
        }
    }

    /// A human-readable description of the error.
    pub fn message(&self) -> (r: String)
        ensures
            r@ == self.spec_message(),
    {
        match self {
            GatewayError::Conflict => String::from_str("Connection already exists"),
            GatewayError::MissingEcuIp => String::from_str("ECU IP address is required"),
            GatewayError::SourcePrefix => String::from_str("Source address must start with '0x'"),
            GatewayError::InvalidSourceAddress => String::from_str(
                "Source address must be a valid 2-byte hexadecimal number",
            ),
            GatewayError::TargetPrefix => String::from_str("Target address must start with '0x'"),
            GatewayError::InvalidTargetAddress => String::from_str(
                "Target address must be a valid 2-byte hexadecimal number",
            ),
            GatewayError::UdsDataPrefix => String::from_str("UDS data must start with '0x'"),
            GatewayError::InvalidUdsData(e) => e.message(),
            GatewayError::ConnectFailed => String::from_str("Failed to connect to ECU"),
            GatewayError::ConnectionNotFound => String::from_str("Connection not found"),
            GatewayError::Session(e) => e.message(),
            GatewayError::Transport => String::from_str("Failed to send diagnostic message"),
        }
    }
}

/// The key of the session for an ECU address and a tester address: the address
/// as `0x` and four upper-case hexadecimal digits, so that every spelling of one
/// address gives one key.
pub open spec fn key_of(ecu_ip: Seq<char>, source: u16) -> Seq<char> {
    ecu_ip + seq![':'] + seq!['0', 'x'] + upper_hex(be_u16(source))
}

/// The session key `"{ecu_ip}:0x{source:04X}"`.
pub fn session_key(ecu_ip: &String, source: u16) -> (r: String)
    ensures
        r@ == key_of(ecu_ip@, source),
{
    proof {
        reveal_strlit(":");
    }
    let bytes = [(source / 256) as u8, (source % 256) as u8];
    let address = hex_text(&bytes);
    assert(bytes@ == be_u16(source));
    let key = ecu_ip.clone().concat(":");
    key.concat(address.as_str())
}

/// What checking a connect request against a registry holding `m` gives: the
/// session key and the parsed source address, or the first failed check.
pub open spec fn connect_check_spec<V>(m: Map<Seq<char>, V>, ecu_ip: Seq<char>, source: Seq<char>) -> Result<
    (Seq<char>, u16),
    GatewayError,
> {
    if ecu_ip.len() == 0 {
        Err(GatewayError::MissingEcuIp)
    } else if !has_hex_prefix(source) {
        Err(GatewayError::SourcePrefix)
    } else if parse_address_spec(source) is None {
        Err(GatewayError::InvalidSourceAddress)
    } else if !admits(m, key_of(ecu_ip, parse_address_spec(source).unwrap())) {
        Err(GatewayError::Conflict)
    } else {
        Ok((key_of(ecu_ip, parse_address_spec(source).unwrap()), parse_address_spec(source).unwrap()))
    }
}

/// Checks a connect request before any connection is attempted: the ECU address
/// must be present, the source address a `0x`-prefixed 16-bit hexadecimal number,
/// and no session registered for the key they make.
pub fn validate_connect<V>(registry: &Registry<V>, request: &ConnectRequest) -> (r: Result<
    (String, u16),
    GatewayError,
>)
    requires
        registry.wf(),
    ensures
        match connect_check_spec(registry@, request.ecu_ip@, request.doip_source_address@) {
            Ok((k, a)) => r is Ok && r->Ok_0.0@ == k && r->Ok_0.1 == a,
            Err(e) => r == Err::<(String, u16), GatewayError>(e),
        },
{
    if request.ecu_ip.as_str().is_empty() {
        return Err(GatewayError::MissingEcuIp);
    }
    if !starts_with_hex_prefix(request.doip_source_address.as_str()) {
        return Err(GatewayError::SourcePrefix);
    }
    let source = match parse_hex_address(request.doip_source_address.as_str()) {
        Some(a) => a,
        None => {
            return Err(GatewayError::InvalidSourceAddress);
        },
    };
    let key = session_key(&request.ecu_ip, source);
    if registry.contains_key(&key) {
        return Err(GatewayError::Conflict);
    }
    Ok((key, source))
}

/// The key of the session that a status request asks about; none when its source
/// address does not parse, as no session can have such a key.
pub fn status_key(request: &ConnectRequest) -> (r: Option<String>)
    ensures
        match parse_address_spec(request.doip_source_address@) {
            Some(a) => r is Some && r->Some_0@ == key_of(request.ecu_ip@, a),
            None => r is None,
        },
{
    match parse_hex_address(request.doip_source_address.as_str()) {
        Some(a) => Some(session_key(&request.ecu_ip, a)),
        None => None,
    }
}

/// Registers a new session under `key` when its connection was established; the
/// registry is left as it was on failure.
pub fn register_session<V>(registry: &mut Registry<V>, key: String, session: V, connected: bool) -> (r:
    Result<(), GatewayError>)
    requires
        old(registry).wf(),
    ensures
        final(registry).wf(),
        !connected ==> r == Err::<(), GatewayError>(GatewayError::ConnectFailed) && final(registry)@
            == old(registry)@,
        connected ==> (r is Ok) == admits(old(registry)@, key@) && (r is Err ==> r == Err::<
            (),
            GatewayError,
        >(GatewayError::Conflict)) && final(registry)@ == after_insert_new(
            old(registry)@,
            key@,
            session,
        ),
{
    if !connected {
        return Err(GatewayError::ConnectFailed);
    }
    match registry.insert_new(key, session) {
        Ok(()) => Ok(()),
        Err(_) => Err(GatewayError::Conflict),
    }
}

/// The reply to a connect request for `key` that ended with `outcome`.
pub fn connect_response(key: &String, outcome: &Result<(), GatewayError>) -> (r: (u16, ConnectResponse))
    ensures
        r.1.success == (outcome is Ok),
        outcome is Ok ==> r.0 == 200 && r.1.message@ == "Successfully connected to ECU"@,
        outcome is Err ==> r.0 == outcome->Err_0.spec_status() && r.1.message@
            == outcome->Err_0.spec_message(),
        (outcome is Ok || outcome == Err::<(), GatewayError>(GatewayError::Conflict)) ==> (
        r.1.connection_id is Some && r.1.connection_id->Some_0@ == key@),
        !(outcome is Ok || outcome == Err::<(), GatewayError>(GatewayError::Conflict))
            ==> r.1.connection_id is None,
{
    match outcome {
        Ok(()) => (
            200,
            ConnectResponse {
                success: true,
                message: String::from_str("Successfully connected to ECU"),
                connection_id: Some(key.clone()),
            },
        ),
        Err(GatewayError::Conflict) => (
            409,
            ConnectResponse {
                success: false,
                message: GatewayError::Conflict.message(),
                connection_id: Some(key.clone()),
            },
        ),
        Err(e) => (
            e.status(),
            ConnectResponse { success: false, message: e.message(), connection_id: None },
        ),
    }
}

/// A diagnostic request that passed the gateway's checks.
#[derive(Clone, Debug, PartialEq, Eq)]
pub struct CheckedDiagnostic {
    /// The key of the session to use.
    pub key: String,
    pub source_address: u16,
    pub target_address: u16,
    /// The UDS bytes, service identifier first.
    pub uds: Vec<u8>,
}

/// What checking a diagnostic request gives: the session key, the two addresses
/// and the UDS bytes, or the first failed check.
pub open spec fn diagnostic_check_spec(
    ecu_ip: Seq<char>,
    source: Seq<char>,
    target: Seq<char>,
    uds: Seq<char>,
) -> Result<(Seq<char>, u16, u16, Seq<u8>), GatewayError> {
    if ecu_ip.len() == 0 {
        Err(GatewayError::MissingEcuIp)
    } else if !has_hex_prefix(source) {
        Err(GatewayError::SourcePrefix)
    } else if !has_hex_prefix(target) {
        Err(GatewayError::TargetPrefix)
    } else if !has_hex_prefix(uds) {
        Err(GatewayError::UdsDataPrefix)
    } else if parse_address_spec(source) is None {
        Err(GatewayError::InvalidSourceAddress)
    } else if parse_address_spec(target) is None {
        Err(GatewayError::InvalidTargetAddress)
    } else if parse_hex_spec(uds) is Err {
        Err(GatewayError::InvalidUdsData(parse_hex_spec(uds)->Err_0))
    } else {
        Ok(
            (
                key_of(ecu_ip, parse_address_spec(source).unwrap()),
                parse_address_spec(source).unwrap(),
                parse_address_spec(target).unwrap(),
                parse_hex_spec(uds)->Ok_0,
            ),
        )
    }
}

/// Checks a diagnostic request and parses its session key, addresses and UDS bytes.
pub fn validate_diagnostic(request: &DiagnosticRequest) -> (r: Result<CheckedDiagnostic, GatewayError>)
    ensures
        match diagnostic_check_spec(
            request.ecu_ip@,
            request.doip_source_address@,
            request.doip_target_address@,
            request.uds_data@,
        ) {
            Ok((k, s, t, u)) => r is Ok && r->Ok_0.key@ == k && r->Ok_0.source_address == s
                && r->Ok_0.target_address == t && r->Ok_0.uds@ == u,
            Err(e) => r == Err::<CheckedDiagnostic, GatewayError>(e),
        },
{
    if request.ecu_ip.as_str().is_empty() {
        return Err(GatewayError::MissingEcuIp);
    }
    if !starts_with_hex_prefix(request.doip_source_address.as_str()) {
        return Err(GatewayError::SourcePrefix);
    }
    if !starts_with_hex_prefix(request.doip_target_address.as_str()) {
        return Err(GatewayError::TargetPrefix);
    }
    if !starts_with_hex_prefix(request.uds_data.as_str()) {
        return Err(GatewayError::UdsDataPrefix);
    }
    let source = match parse_hex_address(request.doip_source_address.as_str()) {
        Some(a) => a,
        None => {
            return Err(GatewayError::InvalidSourceAddress);
        },
    };
    let target = match parse_hex_address(request.doip_target_address.as_str()) {
        Some(a) => a,
        None => {
            return Err(GatewayError::InvalidTargetAddress);
        },
    };
    let uds = match parse_hex(request.uds_data.as_str()) {
        Ok(b) => b,
        Err(e) => {
            return Err(GatewayError::InvalidUdsData(e));
        },
    };
    let key = session_key(&request.ecu_ip, source);
    Ok(CheckedDiagnostic { key, source_address: source, target_address: target, uds })
}

/// The reply to a diagnostic request that ended with `outcome`: the answer's
/// bytes as `0x`-prefixed hexadecimal text, or the error.
pub fn diagnostic_response(outcome: &Result<Vec<u8>, GatewayError>) -> (r: (u16, DiagnosticResponse))
    ensures
        r.1.success == (outcome is Ok),
        outcome is Ok ==> r.0 == 200 && r.1.message@ == "Successfully sent diagnostic message"@
            && r.1.response_data is Some && r.1.response_data->Some_0@ == seq!['0', 'x']
            + upper_hex(outcome->Ok_0@),
        outcome is Err ==> r.0 == outcome->Err_0.spec_status() && r.1.message@
            == outcome->Err_0.spec_message() && r.1.response_data is None,
{
    match outcome {
        Ok(bytes) => (
            200,
            DiagnosticResponse {
                success: true,
                message: String::from_str("Successfully sent diagnostic message"),
                response_data: Some(hex_text(bytes.as_slice())),
            },
        ),
        Err(e) => (
            e.status(),
            DiagnosticResponse { success: false, message: e.message(), response_data: None },
        ),
    }
}

/// The reply to a status request: the session found, with its key and its
/// connectivity flag, or none.
pub fn status_response(request: &ConnectRequest, found: Option<(String, bool)>) -> (r: StatusResponse)
    ensures
        found is None ==> r.active_connections == 0 && r.connections@.len() == 0,
        found is Some ==> r.active_connections == 1 && r.connections@.len() == 1
            && r.connections@[0].connection_id@ == found->Some_0.0@ && r.connections@[0].ecu_ip@
            == request.ecu_ip@ && r.connections@[0].doip_source_address@
            == request.doip_source_address@ && r.connections@[0].connected == found->Some_0.1,
{
    match found {
        Some((key, connected)) => {
            let info = ConnectionInfo {
                connection_id: key,
                ecu_ip: request.ecu_ip.clone(),
                doip_source_address: request.doip_source_address.clone(),
                connected,
            };
            let mut connections: Vec<ConnectionInfo> = Vec::new();
            connections.push(info);
            StatusResponse { active_connections: 1, connections }
        },
        None => StatusResponse { active_connections: 0, connections: Vec::new() },
    }
}

/// Once a session is registered for an ECU and a tester address, a connect
/// request for the same ECU and the same address, however it is spelled, is
/// refused with a conflict.
pub proof fn lemma_one_session_per_address<V>(
    m: Map<Seq<char>, V>,
    ecu_ip: Seq<char>,
    first: Seq<char>,
    second: Seq<char>,
    v: V,
)
    requires
        connect_check_spec(m, ecu_ip, first) is Ok,
        parse_address_spec(second) == parse_address_spec(first),
    ensures
        connect_check_spec(
            after_insert_new(m, connect_check_spec(m, ecu_ip, first)->Ok_0.0, v),
            ecu_ip,
            second,
        ) == Err::<(Seq<char>, u16), GatewayError>(GatewayError::Conflict),
{
}

} // verus!
