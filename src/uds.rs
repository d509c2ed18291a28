//! UDS sessions over one DoIP connection: the known-service table, routing
//! activation and the validation of outgoing diagnostic requests.
use vstd::prelude::*;
use crate::hex::{hex_text, upper_hex};
use crate::codec::{
    encode_doip_message, frame, be_u16, be_u32, read_be_u16, DiagnosticPayloadType,
    VehicleConnectionPayloadType, DEFAULT_ACTIVATION_TYPE, DEFAULT_ACTIVATION_RESERVED,
};

verus! {

/// The UDS services that a session accepts, by their service identifier.
#[derive(Clone, Copy, Debug, PartialEq, Eq)]
pub enum UdsServiceType {
    DiagnosticSessionControl,
    ECUReset,
    ClearDiagnosticInformation,
    ReadDTCInformation,
    SecurityAccess,
    CommunicationControl,
    TesterPresent,
    ControlDTCSetting,
    ResponseOnEvent,
    LinkControl,
    ReadDataByIdentifier,
    WriteDataByIdentifier,
    ReadMemoryByAddress,
    WriteMemoryByAddress,
    RoutineControl,
    RequestDownload,
    RequestUpload,
    TransferData,
    RequestTransferExit,
    AccessTimingParameter,
    SecuredDataTransmission,
}

impl UdsServiceType {
    pub open spec fn spec_code(self) -> u8 {
        match self {
            UdsServiceType::DiagnosticSessionControl => 0x10,
            UdsServiceType::ECUReset => 0x11,
            UdsServiceType::ClearDiagnosticInformation => 0x14,
            UdsServiceType::ReadDTCInformation => 0x19,
            UdsServiceType::SecurityAccess => 0x27,
            UdsServiceType::CommunicationControl => 0x28,
            UdsServiceType::TesterPresent => 0x3E,
            UdsServiceType::ControlDTCSetting => 0x85,
            UdsServiceType::ResponseOnEvent => 0x86,
            UdsServiceType::LinkControl => 0x87,
            UdsServiceType::ReadDataByIdentifier => 0x22,
            UdsServiceType::WriteDataByIdentifier => 0x2E,
            UdsServiceType::ReadMemoryByAddress => 0x23,
            UdsServiceType::WriteMemoryByAddress => 0x3D,
            UdsServiceType::RoutineControl => 0x31,
            UdsServiceType::RequestDownload => 0x34,
            UdsServiceType::RequestUpload => 0x35,
            UdsServiceType::TransferData => 0x36,
            UdsServiceType::RequestTransferExit => 0x37,
            UdsServiceType::AccessTimingParameter => 0x83,
            UdsServiceType::SecuredDataTransmission => 0x84,
        }
    }

    /// The service identifier of this service.
    pub fn code(&self) -> (r: u8)
        ensures
            r == self.spec_code(),
    {
        match self {
            UdsServiceType::DiagnosticSessionControl => 0x10,
            UdsServiceType::ECUReset => 0x11,
            UdsServiceType::ClearDiagnosticInformation => 0x14,
            UdsServiceType::ReadDTCInformation => 0x19,
            UdsServiceType::SecurityAccess => 0x27,
            UdsServiceType::CommunicationControl => 0x28,
            UdsServiceType::TesterPresent => 0x3E,
            UdsServiceType::ControlDTCSetting => 0x85,
            UdsServiceType::ResponseOnEvent => 0x86,
            UdsServiceType::LinkControl => 0x87,
            UdsServiceType::ReadDataByIdentifier => 0x22,
            UdsServiceType::WriteDataByIdentifier => 0x2E,
            UdsServiceType::ReadMemoryByAddress => 0x23,
            UdsServiceType::WriteMemoryByAddress => 0x3D,
            UdsServiceType::RoutineControl => 0x31,
            UdsServiceType::RequestDownload => 0x34,
            UdsServiceType::RequestUpload => 0x35,
            UdsServiceType::TransferData => 0x36,
            UdsServiceType::RequestTransferExit => 0x37,
            UdsServiceType::AccessTimingParameter => 0x83,
            UdsServiceType::SecuredDataTransmission => 0x84,
        }
    }

    pub open spec fn spec_from_id(id: u8) -> Option<UdsServiceType> {
        match id {
            0x10 => Some(UdsServiceType::DiagnosticSessionControl),
            0x11 => Some(UdsServiceType::ECUReset),
            0x14 => Some(UdsServiceType::ClearDiagnosticInformation),
            0x19 => Some(UdsServiceType::ReadDTCInformation),
            0x27 => Some(UdsServiceType::SecurityAccess),
            0x28 => Some(UdsServiceType::CommunicationControl),
            0x3E => Some(UdsServiceType::TesterPresent),
            0x85 => Some(UdsServiceType::ControlDTCSetting),
            0x86 => Some(UdsServiceType::ResponseOnEvent),
            0x87 => Some(UdsServiceType::LinkControl),
            0x22 => Some(UdsServiceType::ReadDataByIdentifier),
            0x2E => Some(UdsServiceType::WriteDataByIdentifier),
            0x23 => Some(UdsServiceType::ReadMemoryByAddress),
            0x3D => Some(UdsServiceType::WriteMemoryByAddress),
            0x31 => Some(UdsServiceType::RoutineControl),
            0x34 => Some(UdsServiceType::RequestDownload),
            0x35 => Some(UdsServiceType::RequestUpload),
            0x36 => Some(UdsServiceType::TransferData),
            0x37 => Some(UdsServiceType::RequestTransferExit),
            0x83 => Some(UdsServiceType::AccessTimingParameter),
            0x84 => Some(UdsServiceType::SecuredDataTransmission),
            _ => None,
        }
    }

    /// The service with identifier `id`, if it is a known one.
    pub fn from_id(id: u8) -> (r: Option<UdsServiceType>)
        ensures
            r == Self::spec_from_id(id),
    {
        match id {
            0x10 => Some(UdsServiceType::DiagnosticSessionControl),
            0x11 => Some(UdsServiceType::ECUReset),
            0x14 => Some(UdsServiceType::ClearDiagnosticInformation),
            0x19 => Some(UdsServiceType::ReadDTCInformation),
            0x27 => Some(UdsServiceType::SecurityAccess),
            0x28 => Some(UdsServiceType::CommunicationControl),
            0x3E => Some(UdsServiceType::TesterPresent),
            0x85 => Some(UdsServiceType::ControlDTCSetting),
            0x86 => Some(UdsServiceType::ResponseOnEvent),
            0x87 => Some(UdsServiceType::LinkControl),
            0x22 => Some(UdsServiceType::ReadDataByIdentifier),
            0x2E => Some(UdsServiceType::WriteDataByIdentifier),
            0x23 => Some(UdsServiceType::ReadMemoryByAddress),
            0x3D => Some(UdsServiceType::WriteMemoryByAddress),
            0x31 => Some(UdsServiceType::RoutineControl),
            0x34 => Some(UdsServiceType::RequestDownload),
            0x35 => Some(UdsServiceType::RequestUpload),
            0x36 => Some(UdsServiceType::TransferData),
            0x37 => Some(UdsServiceType::RequestTransferExit),
            0x83 => Some(UdsServiceType::AccessTimingParameter),
            0x84 => Some(UdsServiceType::SecuredDataTransmission),
            _ => None,
        }
    }
}

/// Whether `id` identifies one of the known UDS services.
pub open spec fn is_known_service(id: u8) -> bool {
    UdsServiceType::spec_from_id(id) is Some
}

/// Whether `service_id` is in the known-service table.
pub fn is_service_defined(service_id: u8) -> (r: bool)
    ensures
        r == is_known_service(service_id),
{
    UdsServiceType::from_id(service_id).is_some()
}

/// Every enumerated service is in the known-service table, under its own identifier.
pub proof fn lemma_services_known(t: UdsServiceType)
    ensures
        is_known_service(t.spec_code()),
        UdsServiceType::spec_from_id(t.spec_code()) == Some(t),
{
}

/// Why a session operation failed.
#[derive(Clone, Copy, Debug, PartialEq, Eq)]
pub enum UdsError {
    /// The connection to the ECU was never established.
    NotConnected,
    /// No UDS bytes were given.
    EmptyPayload,
    /// The first UDS byte is not a known service identifier.
    UnknownService(u8),
    /// A routing activation response shorter than five bytes.
    MalformedResponse,
    /// A routing activation response of another payload type.
    UnexpectedPayloadType(u16),
    /// The ECU answered the routing activation with a non-zero result code.
    ActivationRejected(u8),
}

impl UdsError {
    pub open spec fn spec_message(self) -> Seq<char> {
        match self {
            UdsError::NotConnected => "Not connected to ECU"@,
            UdsError::EmptyPayload => "UDS data is empty"@,
            UdsError::UnknownService(id) => "Unknown UDS service ID: "@ + seq!['0', 'x'] + upper_hex(
                seq![id],
            ),
            UdsError::MalformedResponse => "Invalid routing activation response"@,
            UdsError::UnexpectedPayloadType(_) => "Unexpected payload type in routing activation response"@,
            UdsError::ActivationRejected(code) => "Routing activation failed with code: "@ + seq![
                '0',
                'x',
            ] + upper_hex(seq![code]),
        }
    }

    /// A human-readable description of the error.
    pub fn message(&self) -> (r: String)
        ensures
            r@ == self.spec_message(),
    {
        match self {
            UdsError::NotConnected => String::from_str("Not connected to ECU"),
            UdsError::EmptyPayload => String::from_str("UDS data is empty"),
            UdsError::UnknownService(id) => {
                let digits = hex_text(&[*id]);
                proof {
                    assert(seq![*id] == [*id]@);
                }
                String::from_str("Unknown UDS service ID: ").concat(digits.as_str())
            },
            UdsError::MalformedResponse => String::from_str("Invalid routing activation response"),
            UdsError::UnexpectedPayloadType(_) => String::from_str(
                "Unexpected payload type in routing activation response",
            ),
            UdsError::ActivationRejected(code) => {
                let digits = hex_text(&[*code]);
                proof {
                    assert(seq![*code] == [*code]@);
                }
                String::from_str("Routing activation failed with code: ").concat(digits.as_str())
            },
        }
    }
}

/// The payload of a routing activation request for tester address `source`.
pub open spec fn activation_payload(source: u16) -> Seq<u8> {
    be_u16(source) + seq![DEFAULT_ACTIVATION_TYPE] + be_u32(DEFAULT_ACTIVATION_RESERVED)
}

/// How a routing activation response is read: at least five bytes, bytes 2-3 the
/// payload type `0x0006`, byte 4 the result code with zero for success.
pub open spec fn activation_outcome(response: Seq<u8>) -> Result<(), UdsError> {
    if response.len() < 5 {
        Err(UdsError::MalformedResponse)
    } else if read_be_u16(response, 2) != VehicleConnectionPayloadType::RoutingActivationResponse.spec_code() {
        Err(UdsError::UnexpectedPayloadType(read_be_u16(response, 2)))
    } else if response[4] != 0 {
        Err(UdsError::ActivationRejected(response[4]))
    } else {
        Ok(())
    }
}

/// The activated targets after `t` was activated: appended unless already present.
pub open spec fn record_target(targets: Seq<u16>, t: u16) -> Seq<u16> {
    if targets.contains(t) {
        targets
    } else {
        targets.push(t)
    }
}

/// What validating a diagnostic request gives: the frame to send, or the reason
/// it is refused before any I/O.
pub open spec fn diagnose_spec(connected: bool, uds: Option<Seq<u8>>) -> Result<Seq<u8>, UdsError> {
    if !connected {
        Err(UdsError::NotConnected)
    } else if uds is None || uds.unwrap().len() == 0 {
        Err(UdsError::EmptyPayload)
    } else if !is_known_service(uds.unwrap()[0]) {
        Err(UdsError::UnknownService(uds.unwrap()[0]))
    } else {
        Ok(frame(DiagnosticPayloadType::DiagnosticMessage.spec_code(), uds.unwrap()))
    }
}

/// The payload of a diagnostic message: source address, target address, both
/// big-endian, then the UDS bytes.
pub open spec fn addressed_payload(source: u16, target: u16, uds: Seq<u8>) -> Seq<u8> {
    be_u16(source) + be_u16(target) + uds
}

/// What validating a diagnostic request from tester `source` to `target` gives:
/// the frame to send, or the reason it is refused before any I/O. The service
/// identifier checked is the first UDS byte.
pub open spec fn diagnostic_message_spec(connected: bool, source: u16, target: u16, uds: Seq<u8>) -> Result<
    Seq<u8>,
    UdsError,
> {
    if !connected {
        Err(UdsError::NotConnected)
    } else if uds.len() == 0 {
        Err(UdsError::EmptyPayload)
    } else if !is_known_service(uds[0]) {
        Err(UdsError::UnknownService(uds[0]))
    } else {
        Ok(frame(DiagnosticPayloadType::DiagnosticMessage.spec_code(), addressed_payload(source, target, uds)))
    }
}

pub open spec fn view_payload(p: Option<&[u8]>) -> Option<Seq<u8>> {
    match p {
        Some(s) => Some(s@),
        None => None,
    }
}

/// One diagnostic session with an ECU: whether its connection was established,
/// the tester's logical address, and the target addresses activated so far.
pub struct UdsClient {
    connected: bool,
    source_address: u16,
    target_address: Vec<u16>,
}

impl UdsClient {
    pub closed spec fn spec_connected(&self) -> bool {
        self.connected
    }

    pub closed spec fn spec_source_address(&self) -> u16 {
        self.source_address
    }

    /// The activated target addresses, in the order of their first activation.
    pub closed spec fn targets(&self) -> Seq<u16> {
        self.target_address@
    }

    /// Each target address is recorded at most once.
    pub open spec fn wf(&self) -> bool {
        self.targets().no_duplicates()
    }

    /// A session for tester address `source_address` whose connection attempt
    /// gave `connected`; no target is activated yet.
    pub fn new(source_address: u16, connected: bool) -> (r: Self)
        ensures
            r.wf(),
            r.spec_connected() == connected,
            r.spec_source_address() == source_address,
            r.targets() == Seq::<u16>::empty(),
    {
        UdsClient { connected, source_address, target_address: Vec::new() }
    }

    pub fn is_connected(&self) -> (r: bool)
        ensures
            r == self.spec_connected(),
    {
        self.connected
    }

    pub fn source_address(&self) -> (r: u16)
        ensures
            r == self.spec_source_address(),
    {
        self.source_address
    }

    /// The activated target addresses.
    pub fn activated_targets(&self) -> (r: Vec<u16>)
        ensures
            r@ == self.targets(),
    {
        self.target_address.clone()
    }

    /// Whether `target` has been activated on this session.
    pub fn is_activated(&self, target: u16) -> (r: bool)
        ensures
            r == self.targets().contains(target),
    {
        let mut i: usize = 0;
        while i < self.target_address.len()
            invariant
                0 <= i <= self.target_address@.len(),
                forall|j: int| 0 <= j < i ==> self.target_address@[j] != target,
            decreases self.target_address@.len() - i,
        {
            if self.target_address[i] == target {
                assert(self.targets()[i as int] == target);
                return true;
            }
            i = i + 1;
        }
        false
    }

    /// The routing activation request frame to send for this session's tester
    /// address; fails when the connection was never established.
    pub fn routing_activation_request(&self) -> (r: Result<Vec<u8>, UdsError>)
        ensures
            !self.spec_connected() ==> r == Err::<Vec<u8>, UdsError>(UdsError::NotConnected),
            self.spec_connected() ==> r is Ok && r->Ok_0@ == frame(
                VehicleConnectionPayloadType::RoutingActivationRequest.spec_code(),
                activation_payload(self.spec_source_address()),
            ),
    {
        if !self.connected {
            return Err(UdsError::NotConnected);
        }
        let mut payload: Vec<u8> = Vec::new();
        payload.push((self.source_address / 256) as u8);
        payload.push((self.source_address % 256) as u8);
        payload.push(DEFAULT_ACTIVATION_TYPE);
        payload.push((DEFAULT_ACTIVATION_RESERVED / 0x100_0000) as u8);
        payload.push(((DEFAULT_ACTIVATION_RESERVED / 0x1_0000) % 256) as u8);
        payload.push(((DEFAULT_ACTIVATION_RESERVED / 256) % 256) as u8);
        payload.push((DEFAULT_ACTIVATION_RESERVED % 256) as u8);
        assert(payload@ == activation_payload(self.spec_source_address()));
        let kind = VehicleConnectionPayloadType::RoutingActivationRequest.code();
        Ok(encode_doip_message(kind, Some(payload.as_slice())))
    }

    /// Interprets the ECU's answer to a routing activation request for
    /// `target_address`, and on success records the address once.
    pub fn routing_active(&mut self, target_address: u16, response: &[u8]) -> (r: Result<
        (),
        UdsError,
    >)
        requires
            old(self).wf(),
        ensures
            final(self).wf(),
            final(self).spec_connected() == old(self).spec_connected(),
            final(self).spec_source_address() == old(self).spec_source_address(),
            r == if !old(self).spec_connected() {
                Err(UdsError::NotConnected)
            } else {
                activation_outcome(response@)
            },
            final(self).targets() == if r is Ok {
                record_target(old(self).targets(), target_address)
            } else {
                old(self).targets()
            },
    {
        if !self.connected {
            return Err(UdsError::NotConnected);
        }
        if response.len() < 5 {
            return Err(UdsError::MalformedResponse);
        }
        let payload_type = (response[2] as u16) * 256 + response[3] as u16;
        if payload_type != VehicleConnectionPayloadType::RoutingActivationResponse.code() {
            return Err(UdsError::UnexpectedPayloadType(payload_type));
        }
        let routing_result = response[4];
        if routing_result != 0x00 {
            return Err(UdsError::ActivationRejected(routing_result));
        }
        if !self.is_activated(target_address) {
            self.target_address.push(target_address);
        }
        Ok(())
    }

    /// Validates an outgoing UDS request and gives the diagnostic message frame
    /// that carries it: the session must be connected, the bytes non-empty, and
    /// the first byte a known service identifier.
    pub fn doip(&self, uds_data: Option<&[u8]>) -> (r: Result<Vec<u8>, UdsError>)
        requires
            uds_data is Some ==> uds_data.unwrap()@.len() <= u32::MAX,
        ensures
            match diagnose_spec(self.spec_connected(), view_payload(uds_data)) {
                Ok(f) => r is Ok && r->Ok_0@ == f,
                Err(e) => r == Err::<Vec<u8>, UdsError>(e),
            },
    {
        if !self.connected {
            return Err(UdsError::NotConnected);
        }
        let uds = match uds_data {
            Some(u) => u,
            None => {
                return Err(UdsError::EmptyPayload);
            },
        };
        if uds.len() == 0 {
            return Err(UdsError::EmptyPayload);
        }
        let service_id = uds[0];
        if !is_service_defined(service_id) {
            return Err(UdsError::UnknownService(service_id));
        }
        let kind = DiagnosticPayloadType::DiagnosticMessage.code();
        Ok(encode_doip_message(kind, Some(uds)))
    }
}

impl UdsClient {
    /// Validates the UDS bytes of a request to `target_address` and gives the
    /// diagnostic message frame that carries them, addressed from this session's
    /// tester address: the session must be connected, the bytes non-empty, and
    /// their first byte a known service identifier.
    pub fn diagnostic_message(&self, target_address: u16, uds: &[u8]) -> (r: Result<Vec<u8>, UdsError>)
        requires
            uds@.len() + 4 <= u32::MAX,
        ensures
            match diagnostic_message_spec(
                self.spec_connected(),
                self.spec_source_address(),
                target_address,
                uds@,
            ) {
                Ok(f) => r is Ok && r->Ok_0@ == f,
                Err(e) => r == Err::<Vec<u8>, UdsError>(e),
            },
    {
        if !self.connected {
            return Err(UdsError::NotConnected);
        }
        if uds.len() == 0 {
            return Err(UdsError::EmptyPayload);
        }
        let service_id = uds[0];
        if !is_service_defined(service_id) {
            return Err(UdsError::UnknownService(service_id));
        }
        let mut payload: Vec<u8> = Vec::new();
        payload.push((self.source_address / 256) as u8);
        payload.push((self.source_address % 256) as u8);
        payload.push((target_address / 256) as u8);
        payload.push((target_address % 256) as u8);
        let ghost head = payload@;
        let mut i: usize = 0;
        while i < uds.len()
            invariant
                0 <= i <= uds@.len(),
                payload@ == head + uds@.subrange(0, i as int),
            decreases uds@.len() - i,
        {
            payload.push(uds[i]);
            i = i + 1;
            assert(uds@.subrange(0, i as int) == uds@.subrange(0, i - 1 as int).push(uds@[i - 1]));
        }
        assert(uds@.subrange(0, i as int) == uds@);
        assert(payload@ == addressed_payload(self.spec_source_address(), target_address, uds@));
        let kind = DiagnosticPayloadType::DiagnosticMessage.code();
        Ok(encode_doip_message(kind, Some(payload.as_slice())))
    }
}

/// Activating the same target twice records it once: the second activation
/// leaves the targets as the first left them, and no address is duplicated.
pub proof fn lemma_activation_idempotent(targets: Seq<u16>, t: u16)
    requires
        targets.no_duplicates(),
    ensures
        record_target(targets, t).contains(t),
        record_target(targets, t).no_duplicates(),
        record_target(record_target(targets, t), t) == record_target(targets, t),
{
    if !targets.contains(t) {
        let s = targets.push(t);
        assert(s[s.len() - 1] == t);
        assert forall|i: int, j: int| 0 <= i < s.len() && 0 <= j < s.len() && i != j implies s[i] != s[j] by {
            if i == s.len() - 1 {
                assert(!targets.contains(s[j]) || s[j] != t);
            } else if j == s.len() - 1 {
                assert(targets[i] == s[i]);
            }
        }
    }
}

/// A request with a known service identifier on a connected session passes
/// validation, whatever data follows the identifier and whatever the addresses.
pub proof fn lemma_known_service_accepted(t: UdsServiceType, source: u16, target: u16, uds: Seq<u8>)
    requires
        uds.len() > 0,
        uds[0] == t.spec_code(),
    ensures
        diagnose_spec(true, Some(uds)) is Ok,
        diagnostic_message_spec(true, source, target, uds) == Ok::<Seq<u8>, UdsError>(
            frame(0x8001, be_u16(source) + be_u16(target) + uds),
        ),
{
}

/// A request whose first UDS byte is not a known service identifier is refused
/// with that identifier, before anything is sent.
pub proof fn lemma_unknown_service_refused(source: u16, target: u16, uds: Seq<u8>)
    requires
        uds.len() > 0,
        !is_known_service(uds[0]),
    ensures
        diagnose_spec(true, Some(uds)) == Err::<Seq<u8>, UdsError>(UdsError::UnknownService(uds[0])),
        diagnostic_message_spec(true, source, target, uds) == Err::<Seq<u8>, UdsError>(
            UdsError::UnknownService(uds[0]),
        ),
{
}

/// On a session whose connection was never established every diagnostic request
/// fails with `NotConnected`.
pub proof fn lemma_disconnected_refuses(source: u16, target: u16, uds: Seq<u8>, raw: Option<Seq<u8>>)
    ensures
        diagnose_spec(false, raw) == Err::<Seq<u8>, UdsError>(UdsError::NotConnected),
        diagnostic_message_spec(false, source, target, uds) == Err::<Seq<u8>, UdsError>(
            UdsError::NotConnected,
        ),
{
}

} // verus!
