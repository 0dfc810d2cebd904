//! The session supervisor, as a state machine. One accepted connection is
//! one session; the caller owns the sockets and drives the machine: it
//! performs the action the last step asked for (read so many bytes, dial,
//! start the relay, close), then hands the outcome back as the next event.
//! Every transition, including exactly which bytes are written to the
//! client and when, is fixed by `step_rel`.

use vstd::prelude::*;

use crate::codec::Endpoint;
use crate::error::SocksError;
use crate::negotiate::{check_greeting_version, greeting_reply, has_no_auth, method_reply,
    select_method};
use crate::reply::{encode_reply, reply_frame};
use crate::request::{domain_endpoint, parse_domain_payload, parse_ipv4_payload,
    parse_request_header, utf8_ok, v4_endpoint, AddrType};
use vstd::pervasive::unreached;

verus! {

/// Where a session stands. The byte-reading states name exactly how many
/// bytes of the client's next frame are still owed.
pub enum SessionState {
    /// Awaiting the 2-byte greeting header: version and method count.
    Greeting,
    /// Awaiting `count` method identifiers.
    MethodList { count: u8 },
    /// Awaiting the 4-byte request header.
    RequestHeader,
    /// Awaiting the 6-byte IPv4 payload: address and port.
    Ipv4Payload,
    /// Awaiting the 1-byte domain length.
    DomainLen,
    /// Awaiting `len` domain bytes followed by the 2-byte port.
    DomainPayload { len: u8 },
    /// Awaiting the outcome of the dial to this endpoint.
    Dialing { endpoint: Endpoint },
    /// The success reply is out; the relay pumps own the session now.
    Relaying,
    /// The session is over; nothing more is read or written.
    Failed { error: SocksError },
}

/// What the caller hands back: the bytes the machine asked it to read, or
/// the outcome of the dial it asked for.
pub enum SessionEvent {
    BytesRead(Vec<u8>),
    DialSucceeded,
    DialFailed,
}

/// What the caller must do next.
pub enum SessionAction {
    /// Read exactly this many bytes from the client.
    Read(usize),
    /// Attempt a TCP connect to this endpoint.
    Dial(Endpoint),
    /// Start the two relay pumps.
    Relay,
    /// Close both sockets; the session is over.
    Close,
}

/// One step's outcome: the next state, the bytes to write to the client
/// (written before the action is performed), and the next action.
pub struct StepResult {
    pub state: SessionState,
    pub output: Vec<u8>,
    pub action: SessionAction,
}

/// Whether an event is the one a state awaits: the exact byte count the
/// machine asked to read, or a dial outcome only while dialing. Terminal
/// states await nothing.
pub open spec fn session_expects(state: SessionState, event: SessionEvent) -> bool {
    match state {
        SessionState::Greeting => event matches SessionEvent::BytesRead(b) && b@.len() == 2,
        SessionState::MethodList { count } => event matches SessionEvent::BytesRead(b)
            && b@.len() == count as int,
        SessionState::RequestHeader => event matches SessionEvent::BytesRead(b) && b@.len() == 4,
        SessionState::Ipv4Payload => event matches SessionEvent::BytesRead(b) && b@.len() == 6,
        SessionState::DomainLen => event matches SessionEvent::BytesRead(b) && b@.len() == 1,
        SessionState::DomainPayload { len } => event matches SessionEvent::BytesRead(b)
            && b@.len() == len as int + 2,
        SessionState::Dialing { endpoint } => event is DialSucceeded || event is DialFailed,
        SessionState::Relaying => false,
        SessionState::Failed { error } => false,
    }
}

/// A silent abort: the session fails with `e`, nothing is written, both
/// sockets are closed.
pub open spec fn failure_step(e: SocksError, r: StepResult) -> bool {
    &&& r.state matches SessionState::Failed { error } && error == e
    &&& r.output@.len() == 0
    &&& r.action is Close
}

/// The step on the greeting header `[VER, NMETHODS]`: version 4 or 5 moves
/// on to read the declared methods; any other version is a silent abort.
pub open spec fn greeting_step(b: Seq<u8>, r: StepResult) -> bool {
    if b[0] == 4 || b[0] == 5 {
        &&& r.state matches SessionState::MethodList { count } && count == b[1]
        &&& r.output@.len() == 0
        &&& r.action matches SessionAction::Read(n) && n == b[1] as int
    } else {
        failure_step(SocksError::ProtocolVersionMismatch, r)
    }
}

/// The step on the method list: when the no-authentication method is
/// offered, the greeting reply [5, 0] goes out and the 4-byte request
/// header is read next; otherwise a silent abort.
pub open spec fn methods_step(b: Seq<u8>, r: StepResult) -> bool {
    if has_no_auth(b) {
        &&& r.state is RequestHeader
        &&& r.output@ == greeting_reply()
        &&& r.action matches SessionAction::Read(n) && n == 4
    } else {
        failure_step(SocksError::NoAcceptableMethod, r)
    }
}

/// The step on the request header `[VER, CMD, RSV, ATYP]`: the checks run
/// in order (version, reserved byte, command, address type) and the first
/// violation aborts silently; a valid header moves on to its address
/// payload.
pub open spec fn request_header_step(b: Seq<u8>, r: StepResult) -> bool {
    if b[0] != 5 {
        failure_step(SocksError::ProtocolVersionMismatch, r)
    } else if b[2] != 0 {
        failure_step(SocksError::MalformedHeader, r)
    } else if b[1] != 1 {
        failure_step(SocksError::UnsupportedCommand, r)
    } else if b[3] == 1 {
        &&& r.state is Ipv4Payload
        &&& r.output@.len() == 0
        &&& r.action matches SessionAction::Read(n) && n == 6
    } else if b[3] == 3 {
        &&& r.state is DomainLen
        &&& r.output@.len() == 0
        &&& r.action matches SessionAction::Read(n) && n == 1
    } else {
        failure_step(SocksError::UnsupportedAddressType, r)
    }
}

/// The step on the IPv4 payload: the endpoint is decoded and dialed.
pub open spec fn ipv4_step(b: Seq<u8>, r: StepResult) -> bool {
    &&& r.state matches SessionState::Dialing { endpoint } && v4_endpoint(endpoint, b)
    &&& r.output@.len() == 0
    &&& r.action matches SessionAction::Dial(ep) && v4_endpoint(ep, b)
}

/// The step on the domain length byte: that many name bytes plus the
/// 2-byte port are read next.
pub open spec fn domain_len_step(b: Seq<u8>, r: StepResult) -> bool {
    &&& r.state matches SessionState::DomainPayload { len } && len == b[0]
    &&& r.output@.len() == 0
    &&& r.action matches SessionAction::Read(n) && n == b[0] as int + 2
}

/// The step on the domain payload: a valid-UTF-8 name is dialed verbatim
/// with its port; anything else is a silent abort.
pub open spec fn domain_payload_step(len: u8, b: Seq<u8>, r: StepResult) -> bool {
    if utf8_ok(b.subrange(0, len as int)) {
        &&& r.state matches SessionState::Dialing { endpoint }
            && domain_endpoint(endpoint, b.subrange(0, len as int), b[len as int], b[len as int + 1])
        &&& r.output@.len() == 0
        &&& r.action matches SessionAction::Dial(ep)
            && domain_endpoint(ep, b.subrange(0, len as int), b[len as int], b[len as int + 1])
    } else {
        failure_step(SocksError::InvalidDomainEncoding, r)
    }
}

/// The step on the dial outcome: success sends the success reply and
/// starts the relay; failure sends the failure reply and closes.
pub open spec fn dial_step(event: SessionEvent, r: StepResult) -> bool {
    if event is DialSucceeded {
        &&& r.state is Relaying
        &&& r.output@ == reply_frame(true)
        &&& r.action is Relay
    } else {
        &&& r.state matches SessionState::Failed { error } && error == SocksError::DialFailure
        &&& r.output@ == reply_frame(false)
        &&& r.action is Close
    }
}

/// The full transition relation of the session machine.
pub open spec fn step_rel(state: SessionState, event: SessionEvent, r: StepResult) -> bool {
    match state {
        SessionState::Greeting => event matches SessionEvent::BytesRead(b) && greeting_step(b@, r),
        SessionState::MethodList { count } => event matches SessionEvent::BytesRead(b)
            && methods_step(b@, r),
        SessionState::RequestHeader => event matches SessionEvent::BytesRead(b)
            && request_header_step(b@, r),
        SessionState::Ipv4Payload => event matches SessionEvent::BytesRead(b) && ipv4_step(b@, r),
        SessionState::DomainLen => event matches SessionEvent::BytesRead(b)
            && domain_len_step(b@, r),
        SessionState::DomainPayload { len } => event matches SessionEvent::BytesRead(b)
            && domain_payload_step(len, b@, r),
        SessionState::Dialing { endpoint } => (event is DialSucceeded || event is DialFailed)
            && dial_step(event, r),
        SessionState::Relaying => false,
        SessionState::Failed { error } => false,
    }
}

/// Builds the silent-abort step for error `e`.
fn fail_with(e: SocksError) -> (r: StepResult)
    ensures
        failure_step(e, r),
{
    StepResult {
        state: SessionState::Failed { error: e },
        output: Vec::new(),
        action: SessionAction::Close,
    }
}

/// Runs one step of the session machine: from the current state and the
/// event the caller observed, the next state, the bytes owed to the
/// client, and the next action.
pub fn session_step(state: SessionState, event: SessionEvent) -> (r: StepResult)
    requires
        session_expects(state, event),
    ensures
        step_rel(state, event, r),
{
    match (state, event) {
        (SessionState::Greeting, SessionEvent::BytesRead(b)) => {
            match check_greeting_version(b[0]) {
                Ok(_) => StepResult {
                    state: SessionState::MethodList { count: b[1] },
                    output: Vec::new(),
                    action: SessionAction::Read(b[1] as usize),
                },
                Err(e) => fail_with(e),
            }
        }
        (SessionState::MethodList { count }, SessionEvent::BytesRead(b)) => {
            match select_method(&b) {
                Ok(_) => StepResult {
                    state: SessionState::RequestHeader,
                    output: method_reply(),
                    action: SessionAction::Read(4),
                },
                Err(e) => fail_with(e),
            }
        }
        (SessionState::RequestHeader, SessionEvent::BytesRead(b)) => {
            match parse_request_header(&b) {
                Ok(AddrType::V4) => StepResult {
                    state: SessionState::Ipv4Payload,
                    output: Vec::new(),
                    action: SessionAction::Read(6),
                },
                Ok(AddrType::Domain) => StepResult {
                    state: SessionState::DomainLen,
                    output: Vec::new(),
                    action: SessionAction::Read(1),
                },
                Err(e) => fail_with(e),
            }
        }
        (SessionState::Ipv4Payload, SessionEvent::BytesRead(b)) => {
            let target = parse_ipv4_payload(&b);
            let dialed = target.duplicate();
            StepResult {
                state: SessionState::Dialing { endpoint: target },
                output: Vec::new(),
                action: SessionAction::Dial(dialed),
            }
        }
        (SessionState::DomainLen, SessionEvent::BytesRead(b)) => StepResult {
            state: SessionState::DomainPayload { len: b[0] },
            output: Vec::new(),
            action: SessionAction::Read(b[0] as usize + 2),
        },
        (SessionState::DomainPayload { len }, SessionEvent::BytesRead(b)) => {
            let name_len = len as usize;
            let name = crate::codec::copy_range(&b, 0, name_len);
            match parse_domain_payload(&name, b[name_len], b[name_len + 1]) {
                Ok(target) => {
                    let dialed = target.duplicate();
                    StepResult {
                        state: SessionState::Dialing { endpoint: target },
                        output: Vec::new(),
                        action: SessionAction::Dial(dialed),
                    }
                }
                Err(e) => fail_with(e),
            }
        }
        (SessionState::Dialing { endpoint }, SessionEvent::DialSucceeded) => StepResult {
            state: SessionState::Relaying,
            output: encode_reply(true),
            action: SessionAction::Relay,
        },
        (SessionState::Dialing { endpoint }, SessionEvent::DialFailed) => StepResult {
            state: SessionState::Failed { error: SocksError::DialFailure },
            output: encode_reply(false),
            action: SessionAction::Close,
        },
        _ => unreached(),
    }
}

/// Every greeting whose version byte is 4 or 5 is accepted: the machine
/// asks for exactly the declared number of method bytes and writes
/// nothing yet.
pub proof fn lemma_greeting_accepted(b: Seq<u8>, r: StepResult)
    requires
        b.len() == 2,
        b[0] == 4 || b[0] == 5,
        greeting_step(b, r),
    ensures
        r.state matches SessionState::MethodList { count } && count == b[1],
        r.output@.len() == 0,
        r.action matches SessionAction::Read(n) && n == b[1] as int,
{
}

/// Every method list that offers the no-authentication method, whatever
/// its length, is accepted, and exactly the 2-byte reply [5, 0] goes out.
pub proof fn lemma_no_auth_accepted(b: Seq<u8>, r: StepResult)
    requires
        has_no_auth(b),
        methods_step(b, r),
    ensures
        r.state is RequestHeader,
        r.output@ =~= seq![5u8, 0u8],
{
}

/// Every greeting whose version is neither 4 nor 5 ends the session with
/// `ProtocolVersionMismatch` before any byte is written to the client.
pub proof fn lemma_bad_version_silent(b: Seq<u8>, r: StepResult)
    requires
        b[0] != 4 && b[0] != 5,
        greeting_step(b, r),
    ensures
        r.state matches SessionState::Failed { error } && error
            == SocksError::ProtocolVersionMismatch,
        r.output@.len() == 0,
        r.action is Close,
{
}

/// Every method list that does not offer the no-authentication method
/// ends the session with `NoAcceptableMethod` and no reply is written.
pub proof fn lemma_no_acceptable_method_silent(b: Seq<u8>, r: StepResult)
    requires
        !has_no_auth(b),
        methods_step(b, r),
    ensures
        r.state matches SessionState::Failed { error } && error == SocksError::NoAcceptableMethod,
        r.output@.len() == 0,
        r.action is Close,
{
}

/// Every request whose command is not CONNECT ends the session with
/// `UnsupportedCommand`, with zero further bytes written to the client.
pub proof fn lemma_unsupported_command_aborts(b: Seq<u8>, r: StepResult)
    requires
        b[0] == 5 && b[2] == 0 && b[1] != 1,
        request_header_step(b, r),
    ensures
        r.state matches SessionState::Failed { error } && error == SocksError::UnsupportedCommand,
        r.output@.len() == 0,
        r.action is Close,
{
}

/// A failed dial sends exactly the 10-byte failure reply
/// [5, 1, 0, 1, 0, 0, 0, 0, 0, 0] and closes both sockets without ever
/// entering the relay phase.
pub proof fn lemma_dial_failure_reply(event: SessionEvent, r: StepResult)
    requires
        event is DialFailed,
        dial_step(event, r),
    ensures
        r.output@ =~= seq![5u8, 1u8, 0u8, 1u8, 0u8, 0u8, 0u8, 0u8, 0u8, 0u8],
        r.action is Close,
        r.state matches SessionState::Failed { error } && error == SocksError::DialFailure,
{
}

/// A successful dial sends exactly the 10-byte success reply
/// [5, 0, 0, 1, 0, 0, 0, 0, 0, 0] and only then starts the relay.
pub proof fn lemma_dial_success_reply(event: SessionEvent, r: StepResult)
    requires
        event is DialSucceeded,
        dial_step(event, r),
    ensures
        r.output@ =~= seq![5u8, 0u8, 0u8, 1u8, 0u8, 0u8, 0u8, 0u8, 0u8, 0u8],
        r.action is Relay,
        r.state is Relaying,
{
}

/// The relay phase starts only as the immediate successor of a successful
/// dial, and then only together with the success reply frame: no step of
/// any session reaches the relay another way.
pub proof fn lemma_relay_needs_success_reply(state: SessionState, event: SessionEvent,
    r: StepResult)
    requires
        step_rel(state, event, r),
        r.action is Relay,
    ensures
        state is Dialing,
        event is DialSucceeded,
        r.state is Relaying,
        r.output@ == reply_frame(true),
{
}

/// The machine writes bytes to the client on exactly two occasions: the
/// greeting reply when method selection succeeds, and the 10-byte reply
/// frame once the dial outcome is known. In particular every protocol
/// violation before the dial aborts silently.
pub proof fn lemma_every_output(state: SessionState, event: SessionEvent, r: StepResult)
    requires
        step_rel(state, event, r),
        r.output@.len() != 0,
    ensures
        (state is MethodList && r.output@ == greeting_reply()) || (state is Dialing && (
        if event is DialSucceeded {
            r.output@ == reply_frame(true)
        } else {
            event is DialFailed && r.output@ == reply_frame(false)
        })),
{
}

} // verus!
