use vstd::prelude::*;

verus! {

/// A probed host: its address, as text, and the name it was resolved from,
/// if it was resolved.
pub struct Host {
    pub ip: String,
    pub name: Option<String>,
}

impl Host {
    pub fn new(ip: String, name: Option<String>) -> (r: Self)
        ensures
            r.ip == ip,
            r.name == name,
    {
        Host { ip, name }
    }

    /// `ip/name`, or `ip` alone when there is no name.
    pub open spec fn text(&self) -> Seq<char> {
        match self.name {
            Some(n) => self.ip@ + "/"@ + n@,
            None => self.ip@,
        }
    }

    pub fn to_text(&self) -> (r: String)
        ensures
            r@ == self.text(),
    {
        match &self.name {
            Some(n) => self.ip.clone().concat("/").concat(n.as_str()),
            None => self.ip.clone(),
        }
    }
}

/// Where a challenge came from: a host (SMB) or a URL (HTTP).
pub enum ChallengeTarget {
    Host(Host),
    Url(String),
}

impl ChallengeTarget {
    pub open spec fn text(&self) -> Seq<char> {
        match self {
            ChallengeTarget::Host(h) => h.text(),
            ChallengeTarget::Url(u) => u@,
        }
    }

    pub fn to_text(&self) -> (r: String)
        ensures
            r@ == self.text(),
    {
        match self {
            ChallengeTarget::Host(h) => h.to_text(),
            ChallengeTarget::Url(u) => u.clone(),
        }
    }

    pub fn from_host(h: Host) -> (r: Self)
        ensures
            r == ChallengeTarget::Host(h),
    {
        ChallengeTarget::Host(h)
    }

    pub fn from_url(u: &str) -> (r: Self)
        ensures
            r is Url && r->Url_0@ == u@,
    {
        ChallengeTarget::Url(String::from_str(u))
    }
}

/// The operating system version that a CHALLENGE message reports, with the
/// names of the systems that have it.
pub struct OsVersion {
    pub major: u8,
    pub minor: u8,
    pub build: u16,
    pub os_names: Vec<String>,
}

/// What a server's NTLM CHALLENGE message tells of it.
pub struct ChallengeInfo {
    pub nb_computer: Option<String>,
    pub nb_domain: Option<String>,
    pub dns_computer: Option<String>,
    pub dns_domain: Option<String>,
    pub dns_tree: Option<String>,
    pub version: Option<OsVersion>,
}

/// One harvested challenge and where it came from.
pub struct Challenge {
    pub target: ChallengeTarget,
    pub challenge: ChallengeInfo,
}

impl Challenge {
    pub fn new(target: ChallengeTarget, challenge: ChallengeInfo) -> (r: Self)
        ensures
            r == (Challenge { target, challenge }),
    {
        Challenge { target, challenge }
    }
}

pub open spec fn digit_char(d: nat) -> char {
    if d == 0 {
        '0'
    } else if d == 1 {
        '1'
    } else if d == 2 {
        '2'
    } else if d == 3 {
        '3'
    } else if d == 4 {
        '4'
    } else if d == 5 {
        '5'
    } else if d == 6 {
        '6'
    } else if d == 7 {
        '7'
    } else if d == 8 {
        '8'
    } else {
        '9'
    }
}

/// The decimal digits of `n`, without leading zeros.
pub open spec fn decimal(n: nat) -> Seq<char>
    decreases n,
{
    if n < 10 {
        seq![digit_char(n)]
    } else {
        decimal(n / 10).push(digit_char(n % 10))
    }
}

fn digit_text(d: u64) -> (r: String)
    requires
        d < 10,
    ensures
        r@ == seq![digit_char(d as nat)],
{
    let s = if d == 0 {
        "0"
    } else if d == 1 {
        "1"
    } else if d == 2 {
        "2"
    } else if d == 3 {
        "3"
    } else if d == 4 {
        "4"
    } else if d == 5 {
        "5"
    } else if d == 6 {
        "6"
    } else if d == 7 {
        "7"
    } else if d == 8 {
        "8"
    } else {
        "9"
    };
    proof {
        reveal_strlit("0");
        reveal_strlit("1");
        reveal_strlit("2");
        reveal_strlit("3");
        reveal_strlit("4");
        reveal_strlit("5");
        reveal_strlit("6");
        reveal_strlit("7");
        reveal_strlit("8");
        reveal_strlit("9");
    }
    let r = String::from_str(s);
    assert(r@ =~= seq![digit_char(d as nat)]);
    r
}

/// The decimal text of a number.
pub fn decimal_text(n: u64) -> (r: String)
    ensures
        r@ == decimal(n as nat),
    decreases n,
{
    if n < 10 {
        digit_text(n)
    } else {
        let head = decimal_text(n / 10);
        let tail = digit_text(n % 10);
        let r = head.concat(tail.as_str());
        assert(r@ =~= decimal(n as nat));
        r
    }
}

/// `major.minor.build`.
pub open spec fn version_text(v: OsVersion) -> Seq<char> {
    decimal(v.major as nat) + "."@ + decimal(v.minor as nat) + "."@ + decimal(v.build as nat)
}

impl OsVersion {
    pub fn to_text(&self) -> (r: String)
        ensures
            r@ == version_text(*self),
    {
        decimal_text(self.major as u64).concat(".").concat(
            decimal_text(self.minor as u64).as_str(),
        ).concat(".").concat(decimal_text(self.build as u64).as_str())
    }
}

/// The texts joined with `sep` between each two.
pub open spec fn join(parts: Seq<Seq<char>>, sep: Seq<char>) -> Seq<char>
    decreases parts.len(),
{
    if parts.len() == 0 {
        Seq::empty()
    } else if parts.len() == 1 {
        parts[0]
    } else {
        join(parts.drop_last(), sep) + sep + parts.last()
    }
}

pub open spec fn views(v: Seq<String>) -> Seq<Seq<char>> {
    v.map_values(|s: String| s@)
}

pub fn join_texts(parts: &Vec<String>, sep: &str) -> (r: String)
    ensures
        r@ == join(views(parts@), sep@),
{
    let mut r = String::new();
    let mut i: usize = 0;
    while i < parts.len()
        invariant
            i <= parts.len(),
            r@ == join(views(parts@.subrange(0, i as int)), sep@),
        decreases parts.len() - i,
    {
        let ghost before = parts@.subrange(0, i as int);
        let ghost after = parts@.subrange(0, i + 1);
        assert(views(after).drop_last() =~= views(before));
        assert(views(after).last() == parts@[i as int]@);
        if i == 0 {
            r = parts[i].clone();
            assert(views(after) =~= seq![parts@[0]@]);
        } else {
            r = r.concat(sep).concat(parts[i].as_str());
        }
        i = i + 1;
    }
    assert(parts@.subrange(0, parts@.len() as int) =~= parts@);
    r
}

/// Prefixes each present field with its label, in the report's order.
pub open spec fn labelled(label: Seq<char>, v: Option<String>) -> Seq<Seq<char>> {
    match v {
        Some(s) => seq![label + s@],
        None => Seq::empty(),
    }
}

/// The lines that describe a challenge: each name that it holds, then the
/// version and the systems that have it.
pub open spec fn report_lines(c: ChallengeInfo) -> Seq<Seq<char>> {
    labelled("NbComputer: "@, c.nb_computer) + labelled("NbDomain: "@, c.nb_domain) + labelled(
        "DnsComputer: "@,
        c.dns_computer,
    ) + labelled("DnsDomain: "@, c.dns_domain) + labelled("DnsTree: "@, c.dns_tree) + match c.version {
        Some(v) => seq!["Version: "@ + version_text(v)] + if v.os_names.len() > 0 {
            seq!["OS: "@ + join(views(v.os_names@), " | "@)]
        } else {
            Seq::empty()
        },
        None => Seq::empty(),
    }
}

fn push_labelled(lines: &mut Vec<String>, label: &str, v: &Option<String>)
    ensures
        views(final(lines)@) == views(old(lines)@) + labelled(label@, *v),
{
    match v {
        Some(s) => {
            lines.push(String::from_str(label).concat(s.as_str()));
            assert(views(final(lines)@) =~= views(old(lines)@) + labelled(label@, *v));
        },
        None => {
            assert(views(final(lines)@) =~= views(old(lines)@) + labelled(label@, *v));
        },
    }
}

/// The text that describes a challenge, one line per field that it holds.
pub fn ntlm_challenge_to_string(c: &ChallengeInfo) -> (r: String)
    ensures
        r@ == join(report_lines(*c), "\n"@),
{
    let mut lines: Vec<String> = Vec::new();
    assert(views(lines@) =~= Seq::empty());
    push_labelled(&mut lines, "NbComputer: ", &c.nb_computer);
    push_labelled(&mut lines, "NbDomain: ", &c.nb_domain);
    push_labelled(&mut lines, "DnsComputer: ", &c.dns_computer);
    push_labelled(&mut lines, "DnsDomain: ", &c.dns_domain);
    push_labelled(&mut lines, "DnsTree: ", &c.dns_tree);
    let ghost before = views(lines@);
    match &c.version {
        Some(v) => {
            lines.push(String::from_str("Version: ").concat(v.to_text().as_str()));
            assert(views(lines@) =~= before + seq!["Version: "@ + version_text(*v)]);
            if v.os_names.len() > 0 {
                let ghost mid = views(lines@);
                lines.push(String::from_str("OS: ").concat(join_texts(&v.os_names, " | ").as_str()));
                assert(views(lines@) =~= mid + seq!["OS: "@ + join(views(v.os_names@), " | "@)]);
            }
        },
        None => {},
    }
    assert(views(lines@) =~= report_lines(*c));
    join_texts(&lines, "\n")
}

/// The report printed for a challenge as it arrives.
pub open spec fn report_text(ch: Challenge) -> Seq<char> {
    "\nTarget: "@ + ch.target.text() + "\n"@ + join(report_lines(ch.challenge), "\n"@)
}

pub fn challenge_report(ch: &Challenge) -> (r: String)
    ensures
        r@ == report_text(*ch),
{
    String::from_str("\nTarget: ").concat(ch.target.to_text().as_str()).concat("\n").concat(
        ntlm_challenge_to_string(&ch.challenge).as_str(),
    )
}

} // verus!
