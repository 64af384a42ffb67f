use vstd::prelude::*;
use crate::auth::{extract_ntlm_challenge, SpnegoToken};
use crate::challenge::Host;
use crate::error::HarvestError;

verus! {

/// Settings of an SMB probe.
#[derive(Clone, Copy, Debug)]
pub struct SmbOptions {
    /// The time allowed for the connection and for each phase, in milliseconds.
    pub timeout_ms: u64,
    pub port: u16,
}

pub const SMB_PORT: u16 = 445;

pub const SMB_FLAGS_CASE_INSENSITIVE: u8 = 0x08;
pub const SMB_FLAGS_CANONICALIZED_PATHS: u8 = 0x10;
pub const SMB_FLAGS2_LONG_NAMES: u16 = 0x0001;
pub const SMB_FLAGS2_EXTENDED_SECURITY: u16 = 0x0800;
pub const SMB_FLAGS2_NT_STATUS: u16 = 0x4000;
pub const SMB2_DIA_202: u16 = 0x0202;
pub const SMB2_DIA_210: u16 = 0x0210;
pub const SMB2_DIA_300: u16 = 0x0300;
pub const SMB2_NEGOTIATE_SIGNING_ENABLED: u16 = 0x0001;
pub const SMB2_GLOBAL_CAP_ENCRYPTION: u32 = 0x0000_0040;

/// The SMB1 dialect negotiation request.
pub struct Smb1NegotiateRequest {
    pub flags: u8,
    pub flags2: u16,
    pub dialects: Vec<String>,
}

/// The SMB2 negotiation request.
pub struct Smb2NegotiateRequest {
    pub message_id: u64,
    pub security_mode: u16,
    pub capabilities: u32,
    pub client_guid: Vec<u8>,
    pub dialects: Vec<u16>,
}

/// The SMB2 session setup request; its security buffer is the SPNEGO token
/// that wraps the NTLM NEGOTIATE message.
pub struct SessionSetupRequest {
    pub message_id: u64,
    pub security_mode: u8,
}

/// The SMB1 negotiation offers the NT LM dialect and the two SMB2 ones.
pub fn smb_negotiate() -> (r: Smb1NegotiateRequest)
    ensures
        r.flags == SMB_FLAGS_CANONICALIZED_PATHS | SMB_FLAGS_CASE_INSENSITIVE,
        r.flags2 == SMB_FLAGS2_NT_STATUS | SMB_FLAGS2_LONG_NAMES | SMB_FLAGS2_EXTENDED_SECURITY,
        r.dialects@.len() == 3,
        r.dialects@[0]@ == "NT LM 0.12"@,
        r.dialects@[1]@ == "SMB 2.002"@,
        r.dialects@[2]@ == "SMB 2.???"@,
{
    Smb1NegotiateRequest {
        flags: SMB_FLAGS_CANONICALIZED_PATHS | SMB_FLAGS_CASE_INSENSITIVE,
        flags2: SMB_FLAGS2_NT_STATUS | SMB_FLAGS2_LONG_NAMES | SMB_FLAGS2_EXTENDED_SECURITY,
        dialects: vec![
            String::from_str("NT LM 0.12"),
            String::from_str("SMB 2.002"),
            String::from_str("SMB 2.???"),
        ],
    }
}

/// The SMB2 negotiation: message 1, signing enabled, encryption capable, a
/// fixed client GUID and three dialects.
pub fn smb_negotiate2() -> (r: Smb2NegotiateRequest)
    ensures
        r.message_id == 1,
        r.security_mode == SMB2_NEGOTIATE_SIGNING_ENABLED,
        r.capabilities == SMB2_GLOBAL_CAP_ENCRYPTION,
        r.client_guid@ == seq![
            0x4fu8, 0x49, 0x7a, 0x4d, 0x6c, 0x4d, 0x4f, 0x43,
            0x59, 0x77, 0x69, 0x42, 0x69, 0x54, 0x67, 0x76,
        ],
        r.dialects@ == seq![SMB2_DIA_202, SMB2_DIA_210, SMB2_DIA_300],
{
    Smb2NegotiateRequest {
        message_id: 1,
        security_mode: SMB2_NEGOTIATE_SIGNING_ENABLED,
        capabilities: SMB2_GLOBAL_CAP_ENCRYPTION,
        client_guid: vec![
            0x4fu8, 0x49, 0x7a, 0x4d, 0x6c, 0x4d, 0x4f, 0x43,
            0x59, 0x77, 0x69, 0x42, 0x69, 0x54, 0x67, 0x76,
        ],
        dialects: vec![SMB2_DIA_202, SMB2_DIA_210, SMB2_DIA_300],
    }
}

/// The session setup: message 2, signing enabled.
pub fn smb_session_setup2() -> (r: SessionSetupRequest)
    ensures
        r.message_id == 2,
        r.security_mode == 1,
{
    SessionSetupRequest { message_id: 2, security_mode: 1 }
}

/// The phase of an SMB handshake.
#[derive(Clone, Copy, Debug, PartialEq, Eq, Structural)]
pub enum SmbPhase {
    /// Waiting for the TCP connection.
    Connect,
    /// Waiting for the SMB1 negotiation reply.
    Negotiate,
    /// Waiting for the SMB2 negotiation reply.
    Negotiate2,
    /// Waiting for the session setup reply.
    SessionSetup,
    /// Finished, with a challenge or an error.
    Done,
}

/// The outcome of the step that the handshake asked for last.
pub enum SmbEvent {
    /// The connection was made, or the negotiation reply was read.
    Completed,
    /// The step failed or timed out; the text says why.
    Failed(String),
    /// The session setup reply: its security buffer, and what the SPNEGO
    /// parser made of it.
    SetupReply(Vec<u8>, Option<SpnegoToken>),
}

/// What the driver of a handshake does next.
pub enum SmbAction {
    /// Send the request of [`smb_negotiate`].
    Negotiate,
    /// Send the request of [`smb_negotiate2`].
    Negotiate2,
    /// Send the request of [`smb_session_setup2`].
    SessionSetup,
    /// Stop: the handshake ended with the NTLM challenge bytes or an error.
    Finish(Result<Vec<u8>, HarvestError>),
    /// The event did not answer the current phase; nothing changes.
    Ignore,
}

/// The phase after an event.
pub open spec fn next_phase(p: SmbPhase, ev: SmbEvent) -> SmbPhase {
    match (p, ev) {
        (SmbPhase::Connect, SmbEvent::Completed) => SmbPhase::Negotiate,
        (SmbPhase::Negotiate, SmbEvent::Completed) => SmbPhase::Negotiate2,
        (SmbPhase::Negotiate2, SmbEvent::Completed) => SmbPhase::SessionSetup,
        (SmbPhase::Connect, SmbEvent::Failed(_)) => SmbPhase::Done,
        (SmbPhase::Negotiate, SmbEvent::Failed(_)) => SmbPhase::Done,
        (SmbPhase::Negotiate2, SmbEvent::Failed(_)) => SmbPhase::Done,
        (SmbPhase::SessionSetup, SmbEvent::Failed(_)) => SmbPhase::Done,
        (SmbPhase::SessionSetup, SmbEvent::SetupReply(_, _)) => SmbPhase::Done,
        _ => p,
    }
}

/// The handshake with one SMB server, from the TCP connection to the
/// session setup reply that holds the NTLM challenge.
pub struct SmbHandshake {
    addr: String,
    phase: SmbPhase,
}

impl SmbHandshake {
    pub closed spec fn address(&self) -> Seq<char> {
        self.addr@
    }

    pub closed spec fn current(&self) -> SmbPhase {
        self.phase
    }

    /// A handshake with the server at `addr` (its text, as errors show it),
    /// waiting for the connection.
    pub fn new(addr: String) -> (r: Self)
        ensures
            r.address() == addr@,
            r.current() == SmbPhase::Connect,
    {
        SmbHandshake { addr, phase: SmbPhase::Connect }
    }

    pub fn phase(&self) -> (r: SmbPhase)
        ensures
            r == self.current(),
    {
        self.phase
    }

    /// Takes the outcome of the current phase and says what to do next.
    pub fn advance(&mut self, ev: SmbEvent) -> (r: SmbAction)
        ensures
            final(self).address() == old(self).address(),
            final(self).current() == next_phase(old(self).current(), ev),
            match (old(self).current(), ev) {
                (SmbPhase::Connect, SmbEvent::Completed) => r is Negotiate,
                (SmbPhase::Negotiate, SmbEvent::Completed) => r is Negotiate2,
                (SmbPhase::Negotiate2, SmbEvent::Completed) => r is SessionSetup,
                (SmbPhase::Connect, SmbEvent::Failed(d)) => r is Finish && r->Finish_0 is Err
                    && r->Finish_0->Err_0 is Connect
                    && r->Finish_0->Err_0->Connect_addr@ == old(self).address()
                    && r->Finish_0->Err_0->Connect_detail == d,
                (SmbPhase::Negotiate, SmbEvent::Failed(d)) => r is Finish && r->Finish_0 is Err
                    && r->Finish_0->Err_0 is Smb1Negotiate
                    && r->Finish_0->Err_0->Smb1Negotiate_addr@ == old(self).address()
                    && r->Finish_0->Err_0->Smb1Negotiate_detail == d,
                (SmbPhase::Negotiate2, SmbEvent::Failed(d)) => r is Finish && r->Finish_0 is Err
                    && r->Finish_0->Err_0 is Smb2Negotiate
                    && r->Finish_0->Err_0->Smb2Negotiate_addr@ == old(self).address()
                    && r->Finish_0->Err_0->Smb2Negotiate_detail == d,
                (SmbPhase::SessionSetup, SmbEvent::Failed(_)) => r is Finish && r->Finish_0 is Err
                    && r->Finish_0->Err_0 is SessionSetup,
                (SmbPhase::SessionSetup, SmbEvent::SetupReply(raw, parsed)) => r is Finish && (
                raw@.len() == 0 ==> r->Finish_0 is Err && r->Finish_0->Err_0 is NoSmb2Challenge) && (
                raw@.len() > 0 ==> match parsed {
                    None => r->Finish_0 is Err && r->Finish_0->Err_0 is SpnegoParse,
                    Some(SpnegoToken::Init) => r->Finish_0 is Err
                        && r->Finish_0->Err_0 is UnexpectedSpnego,
                    Some(SpnegoToken::Resp(None)) => r->Finish_0 is Err
                        && r->Finish_0->Err_0 is NoSmb2Challenge,
                    Some(SpnegoToken::Resp(Some(t))) => r->Finish_0 is Ok && r->Finish_0->Ok_0@
                        == t@,
                }),
                _ => r is Ignore,
            },
    {
        match (self.phase, ev) {
            (SmbPhase::Connect, SmbEvent::Completed) => {
                self.phase = SmbPhase::Negotiate;
                SmbAction::Negotiate
            },
            (SmbPhase::Negotiate, SmbEvent::Completed) => {
                self.phase = SmbPhase::Negotiate2;
                SmbAction::Negotiate2
            },
            (SmbPhase::Negotiate2, SmbEvent::Completed) => {
                self.phase = SmbPhase::SessionSetup;
                SmbAction::SessionSetup
            },
            (SmbPhase::Connect, SmbEvent::Failed(d)) => {
                self.phase = SmbPhase::Done;
                SmbAction::Finish(Err(HarvestError::Connect { addr: self.addr.clone(), detail: d }))
            },
            (SmbPhase::Negotiate, SmbEvent::Failed(d)) => {
                self.phase = SmbPhase::Done;
                SmbAction::Finish(
                    Err(HarvestError::Smb1Negotiate { addr: self.addr.clone(), detail: d }),
                )
            },
            (SmbPhase::Negotiate2, SmbEvent::Failed(d)) => {
                self.phase = SmbPhase::Done;
                SmbAction::Finish(
                    Err(HarvestError::Smb2Negotiate { addr: self.addr.clone(), detail: d }),
                )
            },
            (SmbPhase::SessionSetup, SmbEvent::Failed(_)) => {
                self.phase = SmbPhase::Done;
                SmbAction::Finish(Err(HarvestError::SessionSetup))
            },
            (SmbPhase::SessionSetup, SmbEvent::SetupReply(raw, parsed)) => {
                self.phase = SmbPhase::Done;
                SmbAction::Finish(extract_ntlm_challenge(raw.as_slice(), parsed))
            },
            _ => SmbAction::Ignore,
        }
    }
}

/// Picks the address of a resolved host name: the first one that the
/// resolver answered, as text.
pub fn resolve_hostname(hostname: &str, answer: Result<Vec<String>, String>) -> (r: Result<
    String,
    HarvestError,
>)
    ensures
        match answer {
            Err(d) => r is Err && r->Err_0 is Resolve && r->Err_0->Resolve_name@ == hostname@
                && r->Err_0->Resolve_detail == d,
            Ok(v) => if v@.len() == 0 {
                r is Err && r->Err_0 is NoEntries && r->Err_0->NoEntries_name@ == hostname@
            } else {
                r is Ok && r->Ok_0 == v@[0]
            },
        },
{
    match answer {
        Err(d) => Err(HarvestError::Resolve { name: String::from_str(hostname), detail: d }),
        Ok(v) => {
            if v.len() == 0 {
                Err(HarvestError::NoEntries { name: String::from_str(hostname) })
            } else {
                Ok(v[0].clone())
            }
        },
    }
}

/// How the address of a target was found: the target was itself an address
/// (given as the address parser prints it), or it went to the resolver.
pub enum Lookup {
    Literal(String),
    Resolved(Result<Vec<String>, String>),
}

/// The host that a target names: an address stands for itself and has no
/// name; a resolved name keeps the target as its name.
pub fn identify_host(target: String, lookup: Lookup) -> (r: Result<Host, HarvestError>)
    ensures
        match lookup {
            Lookup::Literal(ip) => r is Ok && r->Ok_0.ip == ip && r->Ok_0.name is None,
            Lookup::Resolved(Err(d)) => r is Err && r->Err_0 is Resolve
                && r->Err_0->Resolve_name@ == target@ && r->Err_0->Resolve_detail == d,
            Lookup::Resolved(Ok(v)) => if v@.len() == 0 {
                r is Err && r->Err_0 is NoEntries && r->Err_0->NoEntries_name@ == target@
            } else {
                r is Ok && r->Ok_0.ip == v@[0] && r->Ok_0.name == Some(target)
            },
        },
{
    match lookup {
        Lookup::Literal(ip) => Ok(Host::new(ip, None)),
        Lookup::Resolved(answer) => {
            let ip = resolve_hostname(target.as_str(), answer)?;
            Ok(Host::new(ip, Some(target)))
        },
    }
}

} // verus!
