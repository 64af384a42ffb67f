use ntlm_challenger::readin::{keep_line, normalize_target, read_inputs, Event, FileStringIter, InputReader, Request, StdinIter};
use ntlm_challenger::target::{expand_target, network_hosts, Cidr, Expansion, HostAddress};

fn drain(reader: &mut InputReader, events: Vec<Event>) -> Vec<String> {
    let mut out = Vec::new();
    for ev in events {
        if let Some(t) = reader.feed(ev) {
            out.push(t);
        }
    }
    out
}

fn line(s: &str) -> Event {
    Event::Line(s.to_string())
}

fn hosts(target: &str) -> Vec<HostAddress> {
    match expand_target(target.to_string()) {
        Expansion::Range(mut r) => {
            let mut v = Vec::new();
            while let Some(a) = r.next_host() {
                v.push(a);
            }
            v
        }
        Expansion::Literal(_) => panic!("not a range"),
    }
}

#[test]
fn normalize_trims_surrounding_space() {
    assert_eq!(normalize_target("  host.example \n", true), Some("host.example".to_string()));
    assert_eq!(normalize_target("\t10.0.0.1", false), Some("10.0.0.1".to_string()));
}

#[test]
fn normalize_drops_comments_under_every_flag() {
    assert_eq!(normalize_target("# comment", true), None);
    assert_eq!(normalize_target("# comment", false), None);
    assert_eq!(normalize_target("   #indented", false), None);
    assert_eq!(normalize_target("a#b", true), Some("a#b".to_string()));
}

#[test]
fn normalize_blank_lines_follow_the_flag() {
    assert_eq!(normalize_target("   ", true), None);
    assert_eq!(normalize_target("   ", false), Some(String::new()));
}

#[test]
fn empty_list_with_stdin_reads_stdin() {
    let reader = read_inputs(vec![], true, true);
    assert!(matches!(reader.request(), Request::StdinLine));
}

#[test]
fn empty_list_without_stdin_is_finished() {
    let reader = read_inputs(vec![], false, true);
    assert!(matches!(reader.request(), Request::Finished));
}

#[test]
fn explicit_list_never_asks_for_stdin() {
    let mut reader = read_inputs(vec!["a".to_string(), "b".to_string()], true, true);
    let mut asked = Vec::new();
    for _ in 0..10 {
        match reader.request() {
            Request::StdinLine => panic!("stdin requested"),
            Request::Open(p) => {
                asked.push(p);
                reader.feed(Event::OpenFailed);
            }
            Request::FileLine => {
                reader.feed(Event::End);
            }
            Request::Finished => break,
        }
    }
    assert_eq!(asked, vec!["a".to_string(), "b".to_string()]);
}

#[test]
fn stdin_scenario_keeps_one_url() {
    let mut reader = read_inputs(vec![], true, true);
    let out = drain(
        &mut reader,
        vec![line("# comment\n"), line("\n"), line("http://example.test\n"), Event::End],
    );
    assert_eq!(out, vec!["http://example.test".to_string()]);
    assert!(matches!(reader.request(), Request::Finished));
}

#[test]
fn stdin_read_error_ends_the_sequence() {
    let mut reader = read_inputs(vec![], true, false);
    let out = drain(&mut reader, vec![line("x"), Event::ReadFailed, line("y")]);
    assert_eq!(out, vec!["x".to_string()]);
}

#[test]
fn file_lines_replace_the_path() {
    let mut reader = read_inputs(vec!["list.txt".to_string(), "host2".to_string()], false, true);
    assert!(matches!(reader.request(), Request::Open(ref p) if p == "list.txt"));
    let out = drain(
        &mut reader,
        vec![Event::Opened, line(" h1 "), line(""), line("#x"), line("h2"), Event::End],
    );
    assert_eq!(out, vec!["h1".to_string(), "h2".to_string()]);
    assert!(matches!(reader.request(), Request::Open(ref p) if p == "host2"));
    let out = drain(&mut reader, vec![Event::OpenFailed]);
    assert_eq!(out, vec!["host2".to_string()]);
    assert!(matches!(reader.request(), Request::Finished));
}

#[test]
fn unreadable_file_yields_its_path() {
    let mut reader = read_inputs(vec!["f".to_string()], false, true);
    let out = drain(&mut reader, vec![Event::Opened, line("a"), Event::ReadFailed]);
    assert_eq!(out, vec!["a".to_string(), "f".to_string()]);
    assert!(matches!(reader.request(), Request::Finished));
}

#[test]
fn blank_lines_kept_without_filter() {
    let mut reader = read_inputs(vec!["f".to_string()], false, false);
    let out = drain(&mut reader, vec![Event::Opened, line("  "), Event::End]);
    assert_eq!(out, vec![String::new()]);
}

#[test]
fn iterators_construct() {
    let _ = StdinIter::new();
    let _ = FileStringIter::new(vec!["x".to_string()]);
}

#[test]
fn slash_30_gives_two_hosts() {
    assert_eq!(hosts("10.0.0.0/30"), vec![HostAddress::V4(0x0a00_0001), HostAddress::V4(0x0a00_0002)]);
}

#[test]
fn slash_24_skips_network_and_broadcast() {
    let h = hosts("192.168.1.0/24");
    assert_eq!(h.len(), 254);
    assert_eq!(h[0], HostAddress::V4(0xc0a8_0101));
    assert_eq!(h[253], HostAddress::V4(0xc0a8_01fe));
}

#[test]
fn slash_31_and_32_keep_every_address() {
    assert_eq!(hosts("10.0.0.0/31"), vec![HostAddress::V4(0x0a00_0000), HostAddress::V4(0x0a00_0001)]);
    assert_eq!(hosts("10.0.0.7/32"), vec![HostAddress::V4(0x0a00_0007)]);
}

#[test]
fn address_with_host_bits_expands_its_network() {
    assert_eq!(hosts("10.0.0.3/30"), vec![HostAddress::V4(0x0a00_0001), HostAddress::V4(0x0a00_0002)]);
}

#[test]
fn ipv6_range_keeps_every_address() {
    let base: u128 = 0xfd00 << 112;
    assert_eq!(
        hosts("fd00::/126"),
        vec![HostAddress::V6(base), HostAddress::V6(base + 1), HostAddress::V6(base + 2), HostAddress::V6(base + 3)]
    );
}

#[test]
fn non_range_is_one_literal() {
    for t in ["host.example", "10.0.0.1", "10.0.0.0/33", ""] {
        match expand_target(t.to_string()) {
            Expansion::Literal(s) => assert_eq!(s, t),
            Expansion::Range(_) => panic!("unexpected range for {}", t),
        }
    }
}

#[test]
fn keep_line_on_trimmed_text() {
    assert!(keep_line("host", true));
    assert!(!keep_line("#host", false));
    assert!(!keep_line("", true));
    assert!(keep_line("", false));
}

#[test]
fn network_hosts_of_parsed_networks() {
    let mut r = network_hosts(&Cidr { v4: true, network: 0x0a00_0000, broadcast: 0x0a00_0003, prefix_len: 30 });
    assert_eq!(r.next_host(), Some(HostAddress::V4(0x0a00_0001)));
    assert_eq!(r.next_host(), Some(HostAddress::V4(0x0a00_0002)));
    assert_eq!(r.next_host(), None);
    assert_eq!(r.next_host(), None);
    let mut r = network_hosts(&Cidr { v4: false, network: 16, broadcast: 17, prefix_len: 127 });
    assert_eq!(r.next_host(), Some(HostAddress::V6(16)));
    assert_eq!(r.next_host(), Some(HostAddress::V6(17)));
    assert_eq!(r.next_host(), None);
}
