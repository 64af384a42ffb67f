use vstd::prelude::*;
use crate::error::HarvestError;

verus! {

pub const NTLM_NEG_56: u32 = 0x8000_0000;
pub const NTLM_NEG_KEY_EXCH: u32 = 0x4000_0000;
pub const NTLM_NEG_128: u32 = 0x2000_0000;
pub const NTLM_NEG_VERSION: u32 = 0x0200_0000;
pub const NTLM_NEG_EXTENDED_SECURITY: u32 = 0x0008_0000;
pub const NTLM_NEG_ALWAYS_SIGN: u32 = 0x0000_8000;
pub const NTLM_NEG_NTLM: u32 = 0x0000_0200;
pub const NTLM_NEG_LM_KEY: u32 = 0x0000_0080;
pub const NTLM_NEG_SIGN: u32 = 0x0000_0010;
pub const NTLM_REQUEST_TARGET: u32 = 0x0000_0004;
pub const NTLM_NEG_OEM: u32 = 0x0000_0002;
pub const NTLM_NEG_UNICODE: u32 = 0x0000_0001;

/// The version block of an NTLM message.
#[derive(Clone, Copy, Debug, PartialEq, Eq, Structural)]
pub struct NtlmVersion {
    pub major: u8,
    pub minor: u8,
    pub build: u16,
    pub ntlm_revision: u8,
}

/// What the NEGOTIATE message sent to every target holds: its flags and its
/// version block.
#[derive(Clone, Copy, Debug, PartialEq, Eq, Structural)]
pub struct NegotiateParams {
    pub flags: u32,
    pub version: NtlmVersion,
}

/// The flags of the NEGOTIATE message.
pub open spec fn negotiate_flags() -> u32 {
    NTLM_NEG_56 | NTLM_NEG_KEY_EXCH | NTLM_NEG_128 | NTLM_NEG_VERSION | NTLM_NEG_EXTENDED_SECURITY
        | NTLM_NEG_ALWAYS_SIGN | NTLM_NEG_NTLM | NTLM_NEG_LM_KEY | NTLM_NEG_SIGN
        | NTLM_REQUEST_TARGET | NTLM_NEG_OEM | NTLM_NEG_UNICODE
}

/// The version block of Windows 7 SP1 (6.1, build 7601, NTLM revision 15).
pub open spec fn windows7_7601() -> NtlmVersion {
    NtlmVersion { major: 6, minor: 1, build: 7601, ntlm_revision: 15 }
}

/// The NEGOTIATE message that every probe sends: a maximal flag set and a
/// Windows 7 version block.
pub fn new_ntlm_negotiate() -> (r: NegotiateParams)
    ensures
        r.flags == negotiate_flags(),
        r.flags == 0xe208_8297u32,
        r.version == windows7_7601(),
{
    let flags = NTLM_NEG_56 | NTLM_NEG_KEY_EXCH | NTLM_NEG_128 | NTLM_NEG_VERSION
        | NTLM_NEG_EXTENDED_SECURITY | NTLM_NEG_ALWAYS_SIGN | NTLM_NEG_NTLM | NTLM_NEG_LM_KEY
        | NTLM_NEG_SIGN | NTLM_REQUEST_TARGET | NTLM_NEG_OEM | NTLM_NEG_UNICODE;
    assert(flags == 0xe208_8297u32) by (bit_vector)
        requires
            flags == (0x8000_0000u32 | 0x4000_0000u32 | 0x2000_0000u32 | 0x0200_0000u32
                | 0x0008_0000u32 | 0x0000_8000u32 | 0x0000_0200u32 | 0x0000_0080u32
                | 0x0000_0010u32 | 0x0000_0004u32 | 0x0000_0002u32 | 0x0000_0001u32),
    ;
    NegotiateParams {
        flags,
        version: NtlmVersion { major: 6, minor: 1, build: 7601, ntlm_revision: 15 },
    }
}

/// What the SPNEGO parser made of a session setup buffer that it could read.
pub enum SpnegoToken {
    /// An initial token (`NegTokenInit` or `NegTokenInit2`).
    Init,
    /// A response token (`NegTokenResp`), with its embedded response token if any.
    Resp(Option<Vec<u8>>),
}

/// Picks the NTLM CHALLENGE bytes out of a session setup response buffer.
/// `parsed` is what the SPNEGO parser made of `raw` (`None`: not a token).
pub fn extract_ntlm_challenge(raw: &[u8], parsed: Option<SpnegoToken>) -> (r: Result<
    Vec<u8>,
    HarvestError,
>)
    ensures
        raw@.len() == 0 ==> r is Err && r->Err_0 is NoSmb2Challenge,
        raw@.len() > 0 ==> match parsed {
            None => r is Err && r->Err_0 is SpnegoParse,
            Some(SpnegoToken::Init) => r is Err && r->Err_0 is UnexpectedSpnego,
            Some(SpnegoToken::Resp(None)) => r is Err && r->Err_0 is NoSmb2Challenge,
            Some(SpnegoToken::Resp(Some(t))) => r is Ok && r->Ok_0@ == t@,
        },
{
    if raw.len() == 0 {
        return Err(HarvestError::NoSmb2Challenge);
    }
    match parsed {
        None => Err(HarvestError::SpnegoParse),
        Some(SpnegoToken::Init) => Err(HarvestError::UnexpectedSpnego),
        Some(SpnegoToken::Resp(None)) => Err(HarvestError::NoSmb2Challenge),
        Some(SpnegoToken::Resp(Some(t))) => Ok(t),
    }
}

} // verus!
