use vstd::prelude::*;

verus! {

/// Why one target gave no challenge. Each failure is local to its target.
#[derive(Debug)]
pub enum HarvestError {
    /// The resolver failed on a host name.
    Resolve { name: String, detail: String },
    /// The resolver answered with no address.
    NoEntries { name: String },
    /// The TCP connection could not be made in time.
    Connect { addr: String, detail: String },
    /// The SMB1 dialect negotiation failed.
    Smb1Negotiate { addr: String, detail: String },
    /// The SMB2 negotiation failed.
    Smb2Negotiate { addr: String, detail: String },
    /// The SMB2 session setup exchange failed.
    SessionSetup,
    /// The session setup buffer is no SPNEGO token.
    SpnegoParse,
    /// The SPNEGO token is not a response.
    UnexpectedSpnego,
    /// The SMB2 session setup response carries no NTLM token.
    NoSmb2Challenge,
    /// The NTLM token is no CHALLENGE message.
    NtlmParse,
    /// The HTTP request failed.
    Request { url: String, detail: String },
    /// The HTTP response has no `www-authenticate` header.
    NoAuthHeader,
    /// The `www-authenticate` header does not offer NTLM.
    NtlmNotOffered,
    /// The HTTP challenge could not be decoded.
    HttpDecode,
}

/// The text of an error, as it is logged.
pub open spec fn message_of(e: HarvestError) -> Seq<char> {
    match e {
        HarvestError::Resolve { name, detail } => "Error resolving '"@ + name@ + "' : '"@ + detail@
            + "'"@,
        HarvestError::NoEntries { name } => "Error resolving '"@ + name@
            + "': No entries found"@,
        HarvestError::Connect { addr, detail } => "Error connecting with '"@ + addr@ + "': "@
            + detail@,
        HarvestError::Smb1Negotiate { addr, detail } => "Error in SMB negotiation with '"@ + addr@
            + "': "@ + detail@,
        HarvestError::Smb2Negotiate { addr, detail } => "Error in SMB2 negotiation with '"@ + addr@
            + "': "@ + detail@,
        HarvestError::SessionSetup => "Error in SMB2 session setup"@,
        HarvestError::SpnegoParse => "Error parsing spnego response"@,
        HarvestError::UnexpectedSpnego => "Unexpected spnego response"@,
        HarvestError::NoSmb2Challenge => "No NTLM challenge in SMB2 response"@,
        HarvestError::NtlmParse => "Error parsing NTLM challenge"@,
        HarvestError::Request { url, detail } => "Error requesting "@ + url@ + ": "@ + detail@,
        HarvestError::NoAuthHeader => "No NTLM challenge in HTTP response (no www-authenticate header)"@,
        HarvestError::NtlmNotOffered => "No NTLM challenge in HTTP response (Not supported)"@,
        HarvestError::HttpDecode => "Error decoding NTLM challenge"@,
    }
}

fn joined(head: &str, first: &String, middle: &str, second: &String) -> (r: String)
    ensures
        r@ == head@ + first@ + middle@ + second@,
{
    String::from_str(head).concat(first.as_str()).concat(middle).concat(second.as_str())
}

impl HarvestError {
    /// The text of the error.
    pub fn message(&self) -> (r: String)
        ensures
            r@ == message_of(*self),
    {
        match self {
            HarvestError::Resolve { name, detail } => joined("Error resolving '", name, "' : '", detail).concat("'"),
            HarvestError::NoEntries { name } => String::from_str("Error resolving '").concat(
                name.as_str(),
            ).concat("': No entries found"),
            HarvestError::Connect { addr, detail } => joined("Error connecting with '", addr, "': ", detail),
            HarvestError::Smb1Negotiate { addr, detail } => joined("Error in SMB negotiation with '", addr, "': ", detail),
            HarvestError::Smb2Negotiate { addr, detail } => joined("Error in SMB2 negotiation with '", addr, "': ", detail),
            HarvestError::SessionSetup => String::from_str("Error in SMB2 session setup"),
            HarvestError::SpnegoParse => String::from_str("Error parsing spnego response"),
            HarvestError::UnexpectedSpnego => String::from_str("Unexpected spnego response"),
            HarvestError::NoSmb2Challenge => String::from_str("No NTLM challenge in SMB2 response"),
            HarvestError::NtlmParse => String::from_str("Error parsing NTLM challenge"),
            HarvestError::Request { url, detail } => joined("Error requesting ", url, ": ", detail),
            HarvestError::NoAuthHeader => String::from_str(
                "No NTLM challenge in HTTP response (no www-authenticate header)",
            ),
            HarvestError::NtlmNotOffered => String::from_str(
                "No NTLM challenge in HTTP response (Not supported)",
            ),
            HarvestError::HttpDecode => String::from_str("Error decoding NTLM challenge"),
        }
    }
}

} // verus!
