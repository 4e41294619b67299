use vpn_client::dns::{
    DnsSnapshot, apply_full_tunnel_dns, apply_full_tunnel_dns_windows, restore_dns,
    restore_dns_windows, snapshot_dns,
};
use vpn_client::enroll::{enrollment_succeeded, probe_target, split_http_url};
use vpn_client::host_cmd::{HostPlatform, open_url_command};
use vpn_client::kill_switch::{
    apply_kill_switch, apply_kill_switch_windows, revert_kill_switch, revert_kill_switch_windows,
};
use vpn_client::net::{
    CidrBlock, EndpointAddr, HostAddr, endpoint_host, is_valid_ipv6, parse_cidr, parse_decimal,
    parse_endpoint, parse_ipv4, parse_number, parse_port,
};
use vpn_client::route::{host_route_to_endpoint, restore_default, snapshot_default, split_tokens};

#[test]
fn decimal_fields_follow_the_grammar() {
    assert_eq!(parse_decimal("0", 255), Some(0));
    assert_eq!(parse_decimal("255", 255), Some(255));
    assert_eq!(parse_decimal("256", 255), None);
    assert_eq!(parse_decimal("", 255), None);
    assert_eq!(parse_decimal("007", 255), None);
    assert_eq!(parse_decimal("1a", 255), None);
    assert_eq!(parse_decimal("65535", 65535), Some(65535));
    assert_eq!(parse_decimal("65536", 65535), None);
    assert_eq!(parse_decimal("123456", 65535), None);
}

#[test]
fn ipv4_addresses_parse_exactly() {
    let q = parse_ipv4("192.168.1.10").unwrap();
    assert_eq!((q.a, q.b, q.c, q.d), (192, 168, 1, 10));
    assert_eq!(parse_ipv4("0.0.0.0").map(|q| (q.a, q.b, q.c, q.d)), Some((0, 0, 0, 0)));
    assert!(parse_ipv4("256.0.0.1").is_none());
    assert!(parse_ipv4("1.2.3").is_none());
    assert!(parse_ipv4("1.2.3.4.5").is_none());
    assert!(parse_ipv4("01.2.3.4").is_none());
    assert!(parse_ipv4("a.b.c.d").is_none());
    assert!(parse_ipv4("").is_none());
}

fn v4_host(e: &EndpointAddr) -> (u8, u8, u8, u8) {
    match &e.host {
        HostAddr::V4(q) => (q.a, q.b, q.c, q.d),
        HostAddr::V6(_) => panic!("expected an IPv4 host"),
    }
}

#[test]
fn endpoints_need_address_and_port() {
    let e = parse_endpoint("127.0.0.1:51820").unwrap();
    assert_eq!(v4_host(&e), (127, 0, 0, 1));
    assert_eq!(e.port, 51820);
    assert!(parse_endpoint("127.0.0.1").is_none());
    assert!(parse_endpoint("127.0.0.1:").is_none());
    assert!(parse_endpoint("127.0.0.1:99999").is_none());
    assert!(parse_endpoint("example.com:80").is_none());
    assert_eq!(parse_endpoint("10.0.0.1:0").map(|e| e.port), Some(0));
    // The port grammar allows leading zeros, as socket-address text does.
    assert_eq!(parse_endpoint("127.0.0.1:0080").map(|e| e.port), Some(80));
}

#[test]
fn ipv6_addresses_follow_the_grammar() {
    assert!(is_valid_ipv6("::1"));
    assert!(is_valid_ipv6("::"));
    assert!(is_valid_ipv6("2001:db8::1"));
    assert!(is_valid_ipv6("fe80:0:0:0:0:0:0:1"));
    assert!(is_valid_ipv6("1:2:3:4:5:6:7::"));
    assert!(is_valid_ipv6("::ffff:192.168.1.1"));
    assert!(is_valid_ipv6("1:2:3:4:5:6:192.168.1.1"));
    assert!(!is_valid_ipv6("1:2:3:4:5:6:7:8:9"));
    assert!(!is_valid_ipv6("1:2:3:4:5:6:7:8::"));
    assert!(!is_valid_ipv6("1::2::3"));
    assert!(!is_valid_ipv6(":::"));
    assert!(!is_valid_ipv6("12345::1"));
    assert!(!is_valid_ipv6("192.168.1.1"));
    assert!(!is_valid_ipv6("g::1"));
    assert!(!is_valid_ipv6(""));
}

#[test]
fn ipv6_endpoints_are_bracketed() {
    let e = parse_endpoint("[::1]:51820").unwrap();
    match &e.host {
        HostAddr::V6(h) => assert_eq!(h, "::1"),
        HostAddr::V4(_) => panic!("expected an IPv6 host"),
    }
    assert_eq!(e.port, 51820);
    assert!(parse_endpoint("[2001:db8::1]:443").is_some());
    assert!(parse_endpoint("::1").is_none());
    assert!(parse_endpoint("[::1]").is_none());
    assert!(parse_endpoint("[::1]:").is_none());
    assert!(parse_endpoint("[not-an-address]:80").is_none());
}

fn v4_addr(c: &CidrBlock) -> (u8, u8, u8, u8) {
    match &c.addr {
        HostAddr::V4(q) => (q.a, q.b, q.c, q.d),
        HostAddr::V6(_) => panic!("expected an IPv4 address"),
    }
}

#[test]
fn cidr_blocks_cap_the_prefix() {
    let c = parse_cidr("10.8.0.2/32").unwrap();
    assert_eq!(v4_addr(&c), (10, 8, 0, 2));
    assert_eq!(c.prefix, 32);
    assert_eq!(parse_cidr("0.0.0.0/0").map(|c| c.prefix), Some(0));
    assert!(parse_cidr("10.8.0.2/33").is_none());
    assert!(parse_cidr("10.8.0.2").is_none());
    assert!(parse_cidr("10.8.0/24").is_none());

    let c = parse_cidr("2001:db8::/32").unwrap();
    match &c.addr {
        HostAddr::V6(h) => assert_eq!(h, "2001:db8::"),
        HostAddr::V4(_) => panic!("expected an IPv6 address"),
    }
    assert_eq!(c.prefix, 32);
    assert_eq!(parse_cidr("::1/128").map(|c| c.prefix), Some(128));
    assert!(parse_cidr("::1/129").is_none());
    assert!(parse_cidr("10.8.0.2/128").is_none());
}

#[test]
fn ports_and_bare_numbers_read_leniently() {
    assert_eq!(parse_port("0080"), Some(80));
    assert_eq!(parse_port("65535"), Some(65535));
    assert_eq!(parse_port("65536"), None);
    assert_eq!(parse_port("+80"), None);
    assert_eq!(parse_port(""), None);
    assert_eq!(parse_number("+81", 65535), Some(81));
    assert_eq!(parse_number("0032", 32), Some(32));
    assert_eq!(parse_number("33", 32), None);
    assert_eq!(parse_number("+", 65535), None);
}

#[test]
fn endpoint_host_takes_everything_before_the_colon() {
    assert_eq!(endpoint_host("127.0.0.1:51820"), "127.0.0.1");
    assert_eq!(endpoint_host("10.0.0.1"), "10.0.0.1");
    assert_eq!(endpoint_host(":443"), "");
}

#[test]
fn tokenizer_splits_on_runs_of_whitespace() {
    assert_eq!(
        split_tokens("default via 192.168.1.1 dev eth0"),
        vec!["default", "via", "192.168.1.1", "dev", "eth0"]
    );
    assert_eq!(split_tokens("  a \t b \n"), vec!["a", "b"]);
    assert_eq!(split_tokens(""), Vec::<String>::new());
    assert_eq!(split_tokens("   "), Vec::<String>::new());
}

#[test]
fn default_route_snapshot_reads_gateway_and_device() {
    let out = "default via 192.168.1.1 dev eth0 proto dhcp metric 100";
    let (gw, dev) = snapshot_default(out).unwrap();
    assert_eq!(gw, "192.168.1.1");
    assert_eq!(dev, "eth0");
    assert!(snapshot_default("default via 192.168.1.1").is_none());
    assert!(snapshot_default("").is_none());
}

#[test]
fn host_route_command_pins_the_endpoint() {
    let cmd = host_route_to_endpoint("203.0.113.5", "192.168.1.1", "eth0");
    assert_eq!(cmd.program, "ip");
    assert_eq!(
        cmd.args,
        vec!["route", "add", "203.0.113.5/32", "via", "192.168.1.1", "dev", "eth0"]
    );
}

#[test]
fn restore_default_deletes_the_pinned_host_route() {
    let cmds = restore_default("203.0.113.5", &Some(("192.168.1.1".into(), "eth0".into())));
    assert_eq!(cmds.len(), 1);
    assert_eq!(cmds[0].program, "ip");
    assert_eq!(
        cmds[0].args,
        vec!["route", "del", "203.0.113.5/32", "via", "192.168.1.1", "dev", "eth0"]
    );
    assert!(restore_default("203.0.113.5", &None).is_empty());
}

#[test]
fn kill_switch_commands_are_exact() {
    let apply = apply_kill_switch("wg-client");
    assert_eq!(apply.len(), 2);
    assert_eq!(apply[0].program, "iptables");
    assert_eq!(apply[0].args, vec!["-P", "OUTPUT", "DROP"]);
    assert_eq!(apply[1].args, vec!["-A", "OUTPUT", "-o", "wg-client", "-j", "ACCEPT"]);

    let revert = revert_kill_switch("wg-client");
    assert_eq!(revert[0].args, vec!["-P", "OUTPUT", "ACCEPT"]);
    assert_eq!(revert[1].args, vec!["-D", "OUTPUT", "-o", "wg-client", "-j", "ACCEPT"]);
}

#[test]
fn dns_override_and_restore_are_symmetric() {
    let cmds = apply_full_tunnel_dns("wg-client");
    assert_eq!(cmds[0].program, "resolvectl");
    assert_eq!(cmds[0].args, vec!["dns", "wg-client", "1.1.1.1", "8.8.8.8"]);
    assert_eq!(cmds[1].args, vec!["domain", "wg-client", "~."]);

    let snap = snapshot_dns(Some("nameserver 10.0.0.53\n".to_string()));
    assert_eq!(restore_dns(&snap).as_deref(), Some("nameserver 10.0.0.53\n"));
    let empty: DnsSnapshot = snapshot_dns(None);
    assert!(restore_dns(&empty).is_none());
}

#[test]
fn http_urls_split_into_host_port_and_path() {
    let t = split_http_url("http://127.0.0.1:8080/enroll").unwrap();
    assert_eq!(t.host, "127.0.0.1");
    assert_eq!(t.port, 8080);
    assert_eq!(t.path, "/enroll");

    let t = split_http_url("http://10.0.0.1/").unwrap();
    assert_eq!(t.host, "10.0.0.1");
    assert_eq!(t.port, 8080);
    assert_eq!(t.path, "/");

    let t = split_http_url("http://example.org:81").unwrap();
    assert_eq!(t.host, "example.org");
    assert_eq!(t.port, 81);
    assert_eq!(t.path, "/");

    let t = split_http_url("http://example.org:notaport/x").unwrap();
    assert_eq!(t.port, 8080);

    // The port is read as free text reads a number: leading zeros and a
    // leading plus sign are fine.
    let t = split_http_url("http://example.org:0081/x").unwrap();
    assert_eq!(t.port, 81);

    assert!(split_http_url("https://example.org/").is_none());
    assert!(split_http_url("ftp://example.org/").is_none());
    assert!(split_http_url("").is_none());
}

#[test]
fn probe_target_is_fixed_and_dns_free() {
    assert_eq!(probe_target(), "1.1.1.1:443");
}

#[test]
fn enrollment_succeeds_only_on_a_200_status() {
    assert!(enrollment_succeeded("HTTP/1.1 200 OK\r\nContent-Length: 0\r\n\r\n"));
    assert!(enrollment_succeeded("HTTP/1.0 200 OK"));
    assert!(enrollment_succeeded("HTTP/1.1 204 No Content"));
    assert!(enrollment_succeeded("HTTP/1.1 299 Whatever"));
    assert!(!enrollment_succeeded("HTTP/1.1 2ab"));
    assert!(!enrollment_succeeded("HTTP/1.1 404 Not Found"));
    assert!(!enrollment_succeeded("HTTP/1.1 500 Internal Server Error"));
    assert!(!enrollment_succeeded("HTTP/2 200"));
    assert!(!enrollment_succeeded(""));
    assert!(!enrollment_succeeded("200 OK"));
}

#[test]
fn windows_kill_switch_and_dns_commands_are_exact() {
    let apply = apply_kill_switch_windows();
    assert_eq!(apply.len(), 1);
    assert_eq!(apply[0].program, "netsh");
    assert_eq!(apply[0].args, vec!["advfirewall", "set", "allprofiles", "state", "on"]);
    assert!(revert_kill_switch_windows().is_empty());

    let dns = apply_full_tunnel_dns_windows("wg-client");
    assert_eq!(dns.len(), 1);
    assert_eq!(dns[0].program, "powershell");
    assert_eq!(
        dns[0].args,
        vec![
            "-Command",
            "Set-DnsClientServerAddress -InterfaceAlias 'wg-client' -ServerAddresses @('1.1.1.1','8.8.8.8')",
        ]
    );
    let reset = restore_dns_windows("wg-client");
    assert_eq!(
        reset[0].args,
        vec![
            "-Command",
            "Set-DnsClientServerAddress -InterfaceAlias 'wg-client' -ResetServerAddresses",
        ]
    );
}

#[test]
fn open_url_commands_per_platform() {
    let linux = open_url_command(HostPlatform::Linux, "http://10.0.0.1:8080/");
    assert_eq!(linux.program, "xdg-open");
    assert_eq!(linux.args, vec!["http://10.0.0.1:8080/"]);
    let mac = open_url_command(HostPlatform::MacOs, "http://10.0.0.1:8080/");
    assert_eq!(mac.program, "open");
    let win = open_url_command(HostPlatform::Windows, "http://10.0.0.1:8080/");
    assert_eq!(win.program, "powershell");
    assert_eq!(win.args, vec!["-Command", "Start-Process 'http://10.0.0.1:8080/'"]);
}
