use vstd::prelude::*;
use crate::error::HarvestError;

verus! {

/// Settings of an HTTP probe.
#[derive(Clone, Copy, Debug)]
pub struct HttpOptions {
    /// The time allowed for the whole exchange, in milliseconds.
    pub timeout_ms: u64,
}

/// The standard base64 encoding of a byte string.
pub uninterp spec fn base64_encoded(b: Seq<u8>) -> Seq<char>;

/// The bytes that a standard base64 text stands for, or `None` when the text
/// is no valid base64.
pub uninterp spec fn base64_decoded(s: Seq<char>) -> Option<Seq<u8>>;

/// Relies on `base64::encode`: the standard, padded base64 text of the bytes.
#[verifier::external_body]
fn encode_base64(b: &[u8]) -> (r: String)
    ensures
        r@ == base64_encoded(b@),
{
    base64::encode(b)
}

/// Relies on `base64::decode`: the bytes of a standard base64 text, or an
/// error when the text is not valid base64.
#[verifier::external_body]
fn decode_base64(s: &str) -> (r: Option<Vec<u8>>)
    ensures
        match r {
            Some(v) => base64_decoded(s@) == Some(v@),
            None => base64_decoded(s@) is None,
        },
{
    base64::decode(s).ok()
}

/// The value of the `Authorization` header that carries an NTLM NEGOTIATE
/// message.
pub fn authorization_value(negotiate: &[u8]) -> (r: String)
    ensures
        r@ == "NTLM "@ + base64_encoded(negotiate@),
{
    String::from_str("NTLM ").concat(encode_base64(negotiate).as_str())
}

/// Whether `s` holds `pat` at position `i`.
pub open spec fn occurs_at(s: Seq<char>, pat: Seq<char>, i: int) -> bool {
    0 <= i && i + pat.len() <= s.len() && s.subrange(i, i + pat.len()) == pat
}

/// Whether the header mentions NTLM anywhere.
pub open spec fn offers_ntlm(h: Seq<char>) -> bool {
    exists|i: int| occurs_at(h, "NTLM"@, i)
}

/// The index of the first space at or after `from`, or the length of `s`.
pub open spec fn space_from(s: Seq<char>, from: int) -> int
    decreases s.len() - from,
{
    if from >= s.len() {
        s.len() as int
    } else if s[from] == ' ' {
        from
    } else {
        space_from(s, from + 1)
    }
}

/// The second field of the header when it is split on spaces, if it has one.
pub open spec fn second_field(h: Seq<char>) -> Option<Seq<char>> {
    let a = space_from(h, 0);
    if a >= h.len() {
        None
    } else {
        Some(h.subrange(a + 1, space_from(h, a + 1)))
    }
}

proof fn lemma_space_from_bounds(s: Seq<char>, from: int)
    requires
        0 <= from,
    ensures
        from <= space_from(s, from) || from > s.len(),
        space_from(s, from) <= s.len(),
        space_from(s, from) < s.len() ==> s[space_from(s, from)] == ' ',
    decreases s.len() - from,
{
    if from < s.len() && s[from] != ' ' {
        lemma_space_from_bounds(s, from + 1);
    }
}

fn find_space(s: &str, from: usize) -> (r: usize)
    requires
        from <= s@.len(),
    ensures
        r == space_from(s@, from as int),
{
    let n = s.unicode_len();
    let mut i = from;
    while i < n
        invariant
            n == s@.len(),
            from <= i <= n,
            space_from(s@, from as int) == space_from(s@, i as int),
        decreases n - i,
    {
        if s.get_char(i) == ' ' {
            return i;
        }
        i = i + 1;
    }
    i
}

fn contains_ntlm(h: &str) -> (r: bool)
    ensures
        r == offers_ntlm(h@),
{
    proof {
        reveal_strlit("NTLM");
    }
    assert("NTLM"@ =~= seq!['N', 'T', 'L', 'M']);
    let n = h.unicode_len();
    if n < 4 {
        assert forall|i: int| !occurs_at(h@, "NTLM"@, i) by {}
        return false;
    }
    let mut i: usize = 0;
    while i < n - 3
        invariant
            n == h@.len(),
            n >= 4,
            i <= n - 3,
            "NTLM"@ == seq!['N', 'T', 'L', 'M'],
            forall|j: int| 0 <= j < i ==> !occurs_at(h@, "NTLM"@, j),
        decreases n - i,
    {
        if h.get_char(i) == 'N' && h.get_char(i + 1) == 'T' && h.get_char(i + 2) == 'L'
            && h.get_char(i + 3) == 'M' {
            assert(h@.subrange(i as int, i + 4) =~= "NTLM"@);
            assert(occurs_at(h@, "NTLM"@, i as int));
            return true;
        }
        assert(!occurs_at(h@, "NTLM"@, i as int)) by {
            if h@.subrange(i as int, i + 4) == "NTLM"@ {
                assert(h@.subrange(i as int, i + 4)[0] == 'N');
                assert(h@.subrange(i as int, i + 4)[1] == 'T');
                assert(h@.subrange(i as int, i + 4)[2] == 'L');
                assert(h@.subrange(i as int, i + 4)[3] == 'M');
            }
        }
        i = i + 1;
    }
    false
}

/// Finds the base64 text of the NTLM challenge in the `www-authenticate`
/// header of a response: the header must exist and mention NTLM, and the
/// challenge is its second space-separated field.
pub fn challenge_field(header: Option<&str>) -> (r: Result<String, HarvestError>)
    ensures
        header is None ==> r is Err && r->Err_0 is NoAuthHeader,
        header is Some && !offers_ntlm(header->0@) ==> r is Err && r->Err_0 is NtlmNotOffered,
        header is Some && offers_ntlm(header->0@) ==> match second_field(header->0@) {
            None => r is Err && r->Err_0 is HttpDecode,
            Some(f) => r is Ok && r->Ok_0@ == f,
        },
{
    let h = match header {
        None => return Err(HarvestError::NoAuthHeader),
        Some(h) => h,
    };
    if !contains_ntlm(h) {
        return Err(HarvestError::NtlmNotOffered);
    }
    let a = find_space(h, 0);
    let n = h.unicode_len();
    if a >= n {
        return Err(HarvestError::HttpDecode);
    }
    let b = find_space(h, a + 1);
    proof {
        lemma_space_from_bounds(h@, a + 1);
    }
    Ok(String::from_str(h.substring_char(a + 1, b)))
}

/// Reads the NTLM challenge bytes out of the `www-authenticate` header of a
/// response: the base64 text of [`challenge_field`], decoded.
pub fn challenge_from_auth_header(header: Option<&str>) -> (r: Result<Vec<u8>, HarvestError>)
    ensures
        header is None ==> r is Err && r->Err_0 is NoAuthHeader,
        header is Some && !offers_ntlm(header->0@) ==> r is Err && r->Err_0 is NtlmNotOffered,
        header is Some && offers_ntlm(header->0@) ==> match second_field(header->0@) {
            None => r is Err && r->Err_0 is HttpDecode,
            Some(f) => match base64_decoded(f) {
                None => r is Err && r->Err_0 is HttpDecode,
                Some(b) => r is Ok && r->Ok_0@ == b,
            },
        },
{
    let field = challenge_field(header)?;
    match decode_base64(field.as_str()) {
        Some(bytes) => Ok(bytes),
        None => Err(HarvestError::HttpDecode),
    }
}

} // verus!
