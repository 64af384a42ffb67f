use ntlm_challenger::args::{is_usize_major_than_zero, parse_usize, Args};
use ntlm_challenger::auth::{extract_ntlm_challenge, new_ntlm_negotiate, SpnegoToken};
use ntlm_challenger::challenge::{
    challenge_report, decimal_text, ntlm_challenge_to_string, Challenge, ChallengeInfo, ChallengeTarget, Host,
    OsVersion,
};
use ntlm_challenger::error::HarvestError;
use ntlm_challenger::http::{authorization_value, challenge_field, challenge_from_auth_header};
use ntlm_challenger::printer::{export_record, Output};
use ntlm_challenger::smb::{
    identify_host, resolve_hostname, smb_negotiate, smb_negotiate2, smb_session_setup2, Lookup, SmbAction,
    SmbEvent, SmbHandshake, SmbPhase,
};

fn err_text<T>(r: Result<T, HarvestError>) -> String {
    match r {
        Ok(_) => panic!("expected an error"),
        Err(e) => e.message(),
    }
}

fn info() -> ChallengeInfo {
    ChallengeInfo {
        nb_computer: Some("SRV01".to_string()),
        nb_domain: Some("CORP".to_string()),
        dns_computer: None,
        dns_domain: Some("corp.example".to_string()),
        dns_tree: None,
        version: Some(OsVersion {
            major: 10,
            minor: 0,
            build: 17763,
            os_names: vec!["Windows 10".to_string(), "Windows Server 2019".to_string()],
        }),
    }
}

fn bare_info() -> ChallengeInfo {
    ChallengeInfo {
        nb_computer: None,
        nb_domain: None,
        dns_computer: None,
        dns_domain: None,
        dns_tree: None,
        version: None,
    }
}

fn host_challenge(ip: &str) -> Challenge {
    Challenge::new(ChallengeTarget::from_host(Host::new(ip.to_string(), None)), bare_info())
}

fn run_handshake(events: Vec<SmbEvent>) -> Vec<SmbAction> {
    let mut hs = SmbHandshake::new("10.0.0.1:445".to_string());
    events.into_iter().map(|ev| hs.advance(ev)).collect()
}

fn scripted_server() -> Vec<SmbEvent> {
    vec![
        SmbEvent::Completed,
        SmbEvent::Completed,
        SmbEvent::Completed,
        SmbEvent::SetupReply(vec![0xa1, 0x81], Some(SpnegoToken::Resp(Some(b"NTLMSSP\0challenge".to_vec())))),
    ]
}

fn final_bytes(actions: Vec<SmbAction>) -> Vec<u8> {
    match actions.into_iter().last() {
        Some(SmbAction::Finish(Ok(b))) => b,
        _ => panic!("no challenge"),
    }
}

#[test]
fn error_messages() {
    let e = HarvestError::Resolve { name: "h".to_string(), detail: "boom".to_string() };
    assert_eq!(e.message(), "Error resolving 'h' : 'boom'");
    let e = HarvestError::NoEntries { name: "h".to_string() };
    assert_eq!(e.message(), "Error resolving 'h': No entries found");
    let e = HarvestError::Connect { addr: "1.2.3.4:445".to_string(), detail: "timed out".to_string() };
    assert_eq!(e.message(), "Error connecting with '1.2.3.4:445': timed out");
    let e = HarvestError::Request { url: "http://x".to_string(), detail: "d".to_string() };
    assert_eq!(e.message(), "Error requesting http://x: d");
    assert_eq!(HarvestError::NoSmb2Challenge.message(), "No NTLM challenge in SMB2 response");
    assert_eq!(
        HarvestError::NoAuthHeader.message(),
        "No NTLM challenge in HTTP response (no www-authenticate header)"
    );
}

#[test]
fn authorization_header_is_base64() {
    assert_eq!(authorization_value(b"hello"), "NTLM aGVsbG8=");
    assert_eq!(authorization_value(b""), "NTLM ");
}

#[test]
fn auth_header_without_header() {
    assert_eq!(
        err_text(challenge_from_auth_header(None)),
        "No NTLM challenge in HTTP response (no www-authenticate header)"
    );
}

#[test]
fn auth_header_without_ntlm() {
    assert_eq!(
        err_text(challenge_from_auth_header(Some("Negotiate, Basic realm=x"))),
        "No NTLM challenge in HTTP response (Not supported)"
    );
}

#[test]
fn auth_header_without_token_or_bad_base64() {
    assert_eq!(err_text(challenge_from_auth_header(Some("NTLM"))), "Error decoding NTLM challenge");
    assert_eq!(err_text(challenge_from_auth_header(Some("NTLM !!!"))), "Error decoding NTLM challenge");
}

#[test]
fn auth_header_decodes_second_field() {
    assert_eq!(challenge_from_auth_header(Some("NTLM aGVsbG8=")).unwrap(), b"hello".to_vec());
    assert_eq!(challenge_from_auth_header(Some("NTLM aGk= more")).unwrap(), b"hi".to_vec());
}

#[test]
fn negotiate_flags_and_version() {
    let n = new_ntlm_negotiate();
    assert_eq!(n.flags, 0xe208_8297);
    assert_eq!((n.version.major, n.version.minor, n.version.build, n.version.ntlm_revision), (6, 1, 7601, 15));
}

#[test]
fn empty_session_setup_buffer_has_no_challenge() {
    assert_eq!(err_text(extract_ntlm_challenge(&[], None)), "No NTLM challenge in SMB2 response");
}

#[test]
fn spnego_variants() {
    assert_eq!(err_text(extract_ntlm_challenge(&[1], None)), "Error parsing spnego response");
    assert_eq!(err_text(extract_ntlm_challenge(&[1], Some(SpnegoToken::Init))), "Unexpected spnego response");
    assert_eq!(
        err_text(extract_ntlm_challenge(&[1], Some(SpnegoToken::Resp(None)))),
        "No NTLM challenge in SMB2 response"
    );
    assert_eq!(extract_ntlm_challenge(&[1], Some(SpnegoToken::Resp(Some(vec![7, 8])))).unwrap(), vec![7, 8]);
}

#[test]
fn smb_requests() {
    let r = smb_negotiate();
    assert_eq!(r.flags, 0x18);
    assert_eq!(r.flags2, 0x4801);
    assert_eq!(r.dialects, vec!["NT LM 0.12".to_string(), "SMB 2.002".to_string(), "SMB 2.???".to_string()]);
    let r = smb_negotiate2();
    assert_eq!(r.message_id, 1);
    assert_eq!(r.dialects, vec![0x0202, 0x0210, 0x0300]);
    assert_eq!(r.client_guid.len(), 16);
    assert_eq!(r.capabilities, 0x40);
    assert_eq!(smb_session_setup2().message_id, 2);
}

#[test]
fn handshake_runs_to_the_challenge() {
    let actions = run_handshake(scripted_server());
    assert!(matches!(actions[0], SmbAction::Negotiate));
    assert!(matches!(actions[1], SmbAction::Negotiate2));
    assert!(matches!(actions[2], SmbAction::SessionSetup));
    assert_eq!(final_bytes(actions), b"NTLMSSP\0challenge".to_vec());
}

#[test]
fn handshake_twice_gives_the_same_challenge() {
    let first = final_bytes(run_handshake(scripted_server()));
    let second = final_bytes(run_handshake(scripted_server()));
    assert_eq!(first, second);
}

#[test]
fn connect_timeout_gives_no_challenge() {
    let mut hs = SmbHandshake::new("10.0.0.9:445".to_string());
    match hs.advance(SmbEvent::Failed("connection timed out".to_string())) {
        SmbAction::Finish(r) => {
            assert_eq!(err_text(r), "Error connecting with '10.0.0.9:445': connection timed out")
        }
        _ => panic!("expected the end"),
    }
    assert_eq!(hs.phase(), SmbPhase::Done);
    assert!(matches!(hs.advance(SmbEvent::Completed), SmbAction::Ignore));
    let mut out = Output::new(None);
    out.record(Err(HarvestError::Connect { addr: "10.0.0.9:445".to_string(), detail: "t".to_string() }));
    assert_eq!(out.len(), 0);
}

#[test]
fn handshake_phase_failures() {
    let a = run_handshake(vec![SmbEvent::Completed, SmbEvent::Failed("reset".to_string())]);
    match a.into_iter().last() {
        Some(SmbAction::Finish(r)) => assert_eq!(err_text(r), "Error in SMB negotiation with '10.0.0.1:445': reset"),
        _ => panic!(),
    }
    let a = run_handshake(vec![SmbEvent::Completed, SmbEvent::Completed, SmbEvent::Failed("bad".to_string())]);
    match a.into_iter().last() {
        Some(SmbAction::Finish(r)) => assert_eq!(err_text(r), "Error in SMB2 negotiation with '10.0.0.1:445': bad"),
        _ => panic!(),
    }
    let a = run_handshake(vec![
        SmbEvent::Completed,
        SmbEvent::Completed,
        SmbEvent::Completed,
        SmbEvent::Failed("x".to_string()),
    ]);
    match a.into_iter().last() {
        Some(SmbAction::Finish(r)) => assert_eq!(err_text(r), "Error in SMB2 session setup"),
        _ => panic!(),
    }
}

#[test]
fn resolution_takes_the_first_address() {
    let r = resolve_hostname("srv", Ok(vec!["10.1.1.1".to_string(), "10.1.1.2".to_string()]));
    assert_eq!(r.unwrap(), "10.1.1.1");
    assert_eq!(err_text(resolve_hostname("srv", Ok(vec![]))), "Error resolving 'srv': No entries found");
    assert_eq!(err_text(resolve_hostname("srv", Err("nx".to_string()))), "Error resolving 'srv' : 'nx'");
}

#[test]
fn hosts_are_named_only_when_resolved() {
    let h = identify_host("10.0.0.1".to_string(), Lookup::Literal("10.0.0.1".to_string())).unwrap();
    assert_eq!(h.to_text(), "10.0.0.1");
    let h = identify_host("srv".to_string(), Lookup::Resolved(Ok(vec!["10.1.1.1".to_string()]))).unwrap();
    assert_eq!(h.to_text(), "10.1.1.1/srv");
}

#[test]
fn decimal_numbers() {
    assert_eq!(decimal_text(0), "0");
    assert_eq!(decimal_text(7601), "7601");
    assert_eq!(decimal_text(u64::MAX), "18446744073709551615");
}

#[test]
fn challenge_text() {
    assert_eq!(
        ntlm_challenge_to_string(&info()),
        "NbComputer: SRV01\nNbDomain: CORP\nDnsDomain: corp.example\nVersion: 10.0.17763\nOS: Windows 10 | Windows Server 2019"
    );
    assert_eq!(ntlm_challenge_to_string(&bare_info()), "");
    let ch = Challenge::new(ChallengeTarget::from_url("http://x.test"), info());
    assert!(challenge_report(&ch).starts_with("\nTarget: http://x.test\nNbComputer: SRV01\n"));
}

#[test]
fn export_records() {
    let ch = Challenge::new(ChallengeTarget::from_host(Host::new("10.0.0.1".to_string(), Some("srv".to_string()))), info());
    let r = export_record(&ch);
    assert_eq!(r.target, "10.0.0.1/srv");
    assert_eq!(r.nb_computer.as_deref(), Some("SRV01"));
    assert_eq!(r.dns_computer, None);
    assert_eq!(r.version.as_deref(), Some("10.0.17763"));
    assert_eq!(r.os_names.unwrap().len(), 2);
}

#[test]
fn collector_keeps_successes_only() {
    let mut out = Output::new(Some("out.json".to_string()));
    out.record(Ok(host_challenge("10.0.0.1")));
    out.record(Err(HarvestError::NoSmb2Challenge));
    out.record(Ok(host_challenge("10.0.0.2")));
    out.record(Err(HarvestError::SessionSetup));
    assert_eq!(out.len(), 2);
    let (path, records) = out.finish().unwrap();
    assert_eq!(path, "out.json");
    let targets: Vec<String> = records.into_iter().map(|r| r.target).collect();
    assert_eq!(targets, vec!["10.0.0.1".to_string(), "10.0.0.2".to_string()]);
}

#[test]
fn collector_without_destination_exports_nothing() {
    let mut out = Output::new(None);
    out.add(host_challenge("10.0.0.1"));
    assert!(out.finish().is_none());
}

#[test]
fn usize_parsing() {
    assert_eq!(parse_usize("10000"), Some(10000));
    assert_eq!(parse_usize("+3"), Some(3));
    assert_eq!(parse_usize(""), None);
    assert_eq!(parse_usize("+"), None);
    assert_eq!(parse_usize("-1"), None);
    assert_eq!(parse_usize("1a"), None);
    assert_eq!(parse_usize("18446744073709551615"), Some(usize::MAX));
    assert_eq!(parse_usize("18446744073709551616"), None);
}

#[test]
fn positive_validator() {
    assert!(is_usize_major_than_zero("5".to_string()).is_ok());
    assert_eq!(is_usize_major_than_zero("0".to_string()).unwrap_err(), "Must be a positive integer bigger than 0");
    assert!(is_usize_major_than_zero("x".to_string()).is_err());
}

#[test]
fn command_arguments() {
    match Args::parse_args("smb", vec!["10.0.0.0/30".to_string()], None, Some("2".to_string()), 1, None) {
        Ok(Args::Smb(a)) => {
            assert_eq!(a.timeout_ms, 10000);
            assert_eq!(a.workers, 2);
            assert_eq!(a.targets, vec!["10.0.0.0/30".to_string()]);
            assert_eq!(a.verbosity, 1);
        }
        _ => panic!("expected smb"),
    }
    match Args::parse_args("http", vec![], Some("500".to_string()), None, 0, Some("o.json".to_string())) {
        Ok(Args::Http(a)) => {
            assert_eq!(a.timeout_ms, 500);
            assert_eq!(a.workers, 1);
            assert_eq!(a.json.as_deref(), Some("o.json"));
        }
        _ => panic!("expected http"),
    }
    assert!(matches!(Args::parse_args("smb", vec![], Some("0".to_string()), None, 0, None), Err(_)));
    assert!(matches!(Args::parse_args("ftp", vec![], None, None, 0, None), Err(_)));
}

#[test]
fn challenge_field_is_the_second_token() {
    assert_eq!(challenge_field(Some("NTLM TlRMTVNTUAACAAAA")).unwrap(), "TlRMTVNTUAACAAAA");
    assert_eq!(challenge_field(Some("NTLM abc def")).unwrap(), "abc");
    assert_eq!(challenge_field(Some("NTLM ")).unwrap(), "");
    assert_eq!(err_text(challenge_field(Some("xNTLMx"))), "Error decoding NTLM challenge");
    assert_eq!(err_text(challenge_field(Some("Basic"))), "No NTLM challenge in HTTP response (Not supported)");
}
