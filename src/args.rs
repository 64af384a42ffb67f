use vstd::prelude::*;

verus! {

pub open spec fn is_digit(c: char) -> bool {
    '0' <= c && c <= '9'
}

pub open spec fn all_digits(s: Seq<char>) -> bool {
    forall|i: int| 0 <= i < s.len() ==> is_digit(#[trigger] s[i])
}

/// The number that a text of decimal digits stands for.
pub open spec fn digits_value(s: Seq<char>) -> nat
    decreases s.len(),
{
    if s.len() == 0 {
        0
    } else {
        digits_value(s.drop_last()) * 10 + (s.last() as nat - '0' as nat) as nat
    }
}

/// What `usize`'s parser reads from a text: an optional `+`, then at least one
/// decimal digit, with a value that fits.
pub open spec fn usize_value(s: Seq<char>) -> Option<nat> {
    let d = if s.len() > 0 && s[0] == '+' {
        s.drop_first()
    } else {
        s
    };
    if d.len() > 0 && all_digits(d) && digits_value(d) <= usize::MAX {
        Some(digits_value(d))
    } else {
        None
    }
}

proof fn lemma_prefix_value_bounded(s: Seq<char>, k: int)
    requires
        all_digits(s),
        0 <= k <= s.len(),
    ensures
        digits_value(s.subrange(0, k)) <= digits_value(s),
    decreases s.len() - k,
{
    if k < s.len() {
        lemma_prefix_value_bounded(s, k + 1);
        let p = s.subrange(0, k + 1);
        assert(p.drop_last() =~= s.subrange(0, k));
        assert(is_digit(s[k]));
    } else {
        assert(s.subrange(0, k) =~= s);
    }
}

/// Reads a `usize` in decimal the way `str::parse` does.
pub fn parse_usize(s: &str) -> (r: Option<usize>)
    ensures
        match r {
            Some(v) => usize_value(s@) == Some(v as nat),
            None => usize_value(s@) is None,
        },
{
    let n = s.unicode_len();
    let start: usize = if n > 0 && s.get_char(0) == '+' {
        1
    } else {
        0
    };
    let ghost d = if s@.len() > 0 && s@[0] == '+' {
        s@.drop_first()
    } else {
        s@
    };
    assert(d =~= s@.subrange(start as int, n as int));
    if start >= n {
        return None;
    }
    let mut acc: usize = 0;
    let mut i: usize = start;
    while i < n
        invariant
            n == s@.len(),
            start <= i <= n,
            d == s@.subrange(start as int, n as int),
            d == (if s@.len() > 0 && s@[0] == '+' {
                s@.drop_first()
            } else {
                s@
            }),
            all_digits(s@.subrange(start as int, i as int)),
            acc as nat == digits_value(s@.subrange(start as int, i as int)),
        decreases n - i,
    {
        let c = s.get_char(i);
        let ghost prev = s@.subrange(start as int, i as int);
        let ghost next = s@.subrange(start as int, i + 1);
        assert(next.drop_last() =~= prev);
        if !('0' <= c && c <= '9') {
            assert(d[i - start] == c);
            assert(!is_digit(d[i - start]));
            return None;
        }
        let digit = (c as u32 - '0' as u32) as usize;
        let m = acc.checked_mul(10);
        let v = match m {
            Some(m) => m.checked_add(digit),
            None => None,
        };
        match v {
            Some(v) => {
                acc = v;
            },
            None => {
                assert(next.last() == c);
                assert(digits_value(next) > usize::MAX);
                proof {
                    if all_digits(d) {
                        lemma_prefix_value_bounded(d, i + 1 - start);
                        assert(d.subrange(0, i + 1 - start) =~= next);
                    }
                }
                return None;
            },
        }
        i = i + 1;
        assert forall|j: int| 0 <= j < next.len() implies is_digit(#[trigger] next[j]) by {
            if j < prev.len() {
                assert(next[j] == prev[j]);
            }
        }
    }
    Some(acc)
}

pub const POSITIVE_ERROR: &'static str = "Must be a positive integer bigger than 0";

/// Accepts a text that reads as a `usize` above zero.
pub fn is_usize_major_than_zero(v: String) -> (r: Result<(), String>)
    ensures
        r is Ok <==> (usize_value(v@) is Some && usize_value(v@)->0 > 0),
        r is Err ==> r->Err_0@ == POSITIVE_ERROR@,
{
    match parse_usize(v.as_str()) {
        Some(n) => {
            if n == 0 {
                Err(String::from_str(POSITIVE_ERROR))
            } else {
                Ok(())
            }
        },
        None => Err(String::from_str(POSITIVE_ERROR)),
    }
}

/// The settings of the `http` command.
pub struct HttpArgs {
    pub json: Option<String>,
    pub timeout_ms: u64,
    pub urls: Vec<String>,
    pub verbosity: usize,
    pub workers: usize,
}

/// The settings of the `smb` command.
pub struct SmbArgs {
    pub json: Option<String>,
    pub targets: Vec<String>,
    pub timeout_ms: u64,
    pub verbosity: usize,
    pub workers: usize,
}

/// The command chosen on the command line.
pub enum Args {
    Http(HttpArgs),
    Smb(SmbArgs),
}

pub const HTTP_COM: &'static str = "http";
pub const SMB_COM: &'static str = "smb";
pub const DEFAULT_TIMEOUT: &'static str = "10000";
pub const DEFAULT_WORKERS: &'static str = "1";

/// The value of an option above zero, its default when it is absent.
fn positive_option(v: &Option<String>, default: &str) -> (r: Option<usize>)
    ensures
        ({
            let t = match v {
                Some(s) => s@,
                None => default@,
            };
            match r {
                Some(n) => usize_value(t) == Some(n as nat) && n > 0,
                None => usize_value(t) is None || usize_value(t)->0 == 0,
            }
        }),
{
    let parsed = match v {
        Some(s) => parse_usize(s.as_str()),
        None => parse_usize(default),
    };
    match parsed {
        Some(n) => {
            if n == 0 {
                None
            } else {
                Some(n)
            }
        },
        None => None,
    }
}

/// The text of an option, or its default when it is absent.
pub open spec fn option_text(v: Option<String>, default: Seq<char>) -> Seq<char> {
    match v {
        Some(s) => s@,
        None => default,
    }
}

/// A positive value of an option, read from its text.
pub open spec fn positive_value(t: Seq<char>) -> Option<nat> {
    match usize_value(t) {
        Some(n) => if n > 0 {
            Some(n)
        } else {
            None
        },
        None => None,
    }
}

fn same_text(a: &str, b: &str) -> (r: bool)
    ensures
        r == (a@ == b@),
{
    let n = a.unicode_len();
    if n != b.unicode_len() {
        return false;
    }
    let mut i: usize = 0;
    while i < n
        invariant
            n == a@.len(),
            n == b@.len(),
            i <= n,
            a@.subrange(0, i as int) == b@.subrange(0, i as int),
        decreases n - i,
    {
        if a.get_char(i) != b.get_char(i) {
            assert(a@[i as int] != b@[i as int]);
            return false;
        }
        assert(a@.subrange(0, i + 1) =~= a@.subrange(0, i as int).push(a@[i as int]));
        assert(b@.subrange(0, i + 1) =~= b@.subrange(0, i as int).push(b@[i as int]));
        i = i + 1;
    }
    assert(a@.subrange(0, n as int) =~= a@);
    assert(b@.subrange(0, n as int) =~= b@);
    true
}

impl Args {
    /// Builds the settings of a command from what the command line gave:
    /// the command's name, its positional targets, the texts of its timeout
    /// (milliseconds, default 10000) and worker count (default 1) options,
    /// how often the verbosity flag was repeated, and the export path.
    /// Fails with the validator's message when a number is not above zero,
    /// and names an unknown command.
    pub fn parse_args(
        command: &str,
        targets: Vec<String>,
        timeout: Option<String>,
        workers: Option<String>,
        verbosity: usize,
        json: Option<String>,
    ) -> (r: Result<Args, String>)
        ensures
            ({
                let t = positive_value(option_text(timeout, DEFAULT_TIMEOUT@));
                let w = positive_value(option_text(workers, DEFAULT_WORKERS@));
                if command@ != HTTP_COM@ && command@ != SMB_COM@ {
                    r is Err && r->Err_0@ == command@
                } else if t is None || w is None {
                    r is Err && r->Err_0@ == POSITIVE_ERROR@
                } else if command@ == HTTP_COM@ {
                    r is Ok && r->Ok_0 is Http && r->Ok_0->Http_0 == (HttpArgs {
                        json,
                        timeout_ms: t->0 as u64,
                        urls: targets,
                        verbosity,
                        workers: w->0 as usize,
                    })
                } else {
                    r is Ok && r->Ok_0 is Smb && r->Ok_0->Smb_0 == (SmbArgs {
                        json,
                        targets,
                        timeout_ms: t->0 as u64,
                        verbosity,
                        workers: w->0 as usize,
                    })
                }
            }),
    {
        let is_http = same_text(command, HTTP_COM);
        let is_smb = same_text(command, SMB_COM);
        if !is_http && !is_smb {
            return Err(String::from_str(command));
        }
        let t = positive_option(&timeout, DEFAULT_TIMEOUT);
        let w = positive_option(&workers, DEFAULT_WORKERS);
        match (t, w) {
            (Some(t), Some(w)) => {
                if is_http {
                    Ok(
                        Args::Http(
                            HttpArgs { json, timeout_ms: t as u64, urls: targets, verbosity, workers: w },
                        ),
                    )
                } else {
                    Ok(
                        Args::Smb(
                            SmbArgs { json, targets, timeout_ms: t as u64, verbosity, workers: w },
                        ),
                    )
                }
            },
            _ => Err(String::from_str(POSITIVE_ERROR)),
        }
    }
}

} // verus!
