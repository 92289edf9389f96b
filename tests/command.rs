use talpid_openvpn::command::OpenVpnCommand;
use talpid_openvpn::decimal::decimal_string;
use talpid_openvpn::net::{
    Endpoint, LocalProxySettings, Platform, ProxyAuth, ProxySettings, RemoteProxySettings,
    ShadowsocksProxySettings, SocketAddress, TransportProtocol, TunnelOptions,
};

fn contains(args: &[String], s: &str) -> bool {
    args.iter().any(|a| a == s)
}

fn position(args: &[String], s: &str) -> usize {
    args.iter().position(|a| a == s).expect("argument missing")
}

fn words(list: &[&str]) -> Vec<String> {
    list.iter().map(|s| s.to_string()).collect()
}

#[test]
fn passes_one_remote() {
    let remote = Endpoint::new(String::from("127.0.0.1"), 3333, TransportProtocol::Udp);

    let testee_args = OpenVpnCommand::new("").remote(remote).get_arguments();

    assert!(contains(&testee_args, "udp"));
    assert!(contains(&testee_args, "127.0.0.1"));
    assert!(contains(&testee_args, "3333"));
}

#[test]
fn passes_plugin_path() {
    let path = "./a/path";
    let testee_args = OpenVpnCommand::new("").plugin(path, vec![]).get_arguments();
    assert!(contains(&testee_args, "./a/path"));
}

#[test]
fn passes_plugin_args() {
    let args = vec![String::from("123"), String::from("cde")];
    let testee_args = OpenVpnCommand::new("").plugin("", args).get_arguments();
    assert!(contains(&testee_args, "123"));
    assert!(contains(&testee_args, "cde"));
}

#[test]
fn linux_base_arguments_exactly() {
    let args = OpenVpnCommand::new("openvpn").get_arguments();
    let expected = words(&[
        "--client",
        "--tls-client",
        "--nobind",
        "--mute-replay-warnings",
        "--dev",
        "tun",
        "--ping",
        "4",
        "--ping-exit",
        "25",
        "--connect-timeout",
        "30",
        "--connect-retry",
        "0",
        "0",
        "--connect-retry-max",
        "1",
        "--remote-cert-tls",
        "server",
        "--rcvbuf",
        "1048576",
        "--sndbuf",
        "1048576",
        "--fast-io",
        "--data-ciphers-fallback",
        "AES-256-GCM",
        "--tls-version-min",
        "1.3",
        "--verb",
        "3",
        "--route-noexec",
        "--tls-ciphersuites",
        "TLS_AES_256_GCM_SHA384:TLS_CHACHA20_POLY1305_SHA256",
    ]);
    assert_eq!(args, expected);
}

#[test]
fn windows_base_arguments() {
    let args = OpenVpnCommand::new("openvpn").platform(Platform::Windows).get_arguments();
    assert!(contains(&args, "--dev-type"));
    assert!(!contains(&args, "--dev"));
    assert!(!contains(&args, "--route-noexec"));
    let i = position(&args, "--route-gateway");
    assert_eq!(
        args[i..i + 11].to_vec(),
        words(&[
            "--route-gateway",
            "dhcp",
            "--route",
            "0.0.0.0",
            "0.0.0.0",
            "vpn_gateway",
            "1",
            "--ip-win32",
            "ipapi",
            "--windows-driver",
            "wintun",
        ])
    );
}

#[test]
fn remote_tokens_in_order_over_tcp() {
    let remote = Endpoint::new(String::from("10.0.0.7"), 443, TransportProtocol::Tcp);
    let args = OpenVpnCommand::new("openvpn")
        .config("/etc/openvpn.conf")
        .ca("/ca.crt")
        .enable_ipv6(false)
        .remote(remote)
        .get_arguments();
    let i = position(&args, "--proto");
    assert_eq!(args[i..i + 5].to_vec(), words(&["--proto", "tcp-client", "--remote", "10.0.0.7", "443"]));
}

#[test]
fn plugin_args_follow_path() {
    let args = OpenVpnCommand::new("openvpn")
        .plugin("./a/path", vec![String::from("123"), String::from("cde")])
        .get_arguments();
    let i = position(&args, "./a/path");
    assert_eq!(args[i - 1], "--plugin");
    assert_eq!(args[i + 1], "123");
    assert_eq!(args[i + 2], "cde");
}

#[test]
fn arguments_are_repeatable() {
    let cmd = OpenVpnCommand::new("openvpn")
        .remote(Endpoint::new(String::from("1.2.3.4"), 1194, TransportProtocol::Udp))
        .log("/var/log/openvpn.log")
        .fwmark(Some(0x6d6f6c65));
    assert_eq!(cmd.get_arguments(), cmd.get_arguments());
}

#[test]
fn disabling_ipv6_adds_four_entries() {
    let on = OpenVpnCommand::new("openvpn").user_pass("/up").get_arguments();
    let off = OpenVpnCommand::new("openvpn").user_pass("/up").enable_ipv6(false).get_arguments();
    assert_eq!(off.len(), on.len() + 4);
    let k = position(&off, "--pull-filter");
    assert_eq!(
        off[k..k + 4].to_vec(),
        words(&["--pull-filter", "ignore route-ipv6", "--pull-filter", "ignore ifconfig-ipv6"])
    );
    let mut rest = off[..k].to_vec();
    rest.extend_from_slice(&off[k + 4..]);
    assert_eq!(rest, on);
}

#[test]
fn optional_paths_and_values() {
    let args = OpenVpnCommand::new("openvpn")
        .config("/c")
        .user_pass("/up")
        .ca("/ca")
        .crl("/crl")
        .log("/log")
        .tunnel_options(&TunnelOptions { mssfix: Some(1400) })
        .tunnel_alias(Some(String::from("wg-mullvad")))
        .fwmark(Some(78))
        .get_arguments();
    for (flag, value) in [
        ("--config", "/c"),
        ("--auth-user-pass", "/up"),
        ("--ca", "/ca"),
        ("--crl-verify", "/crl"),
        ("--log", "/log"),
        ("--mssfix", "1400"),
        ("--dev-node", "wg-mullvad"),
        ("--mark", "78"),
    ] {
        let i = position(&args, flag);
        assert_eq!(args[i + 1], value);
    }
    assert_eq!(args[args.len() - 2..].to_vec(), words(&["--mark", "78"]));
}

#[test]
fn fwmark_only_on_linux() {
    let args = OpenVpnCommand::new("openvpn").platform(Platform::Other).fwmark(Some(5)).get_arguments();
    assert!(!contains(&args, "--mark"));
}

#[test]
fn local_proxy_arguments() {
    let proxy = ProxySettings::Local(LocalProxySettings {
        port: 1080,
        peer: SocketAddress::new(String::from("192.168.1.1"), 443),
    });
    let args = OpenVpnCommand::new("openvpn").proxy_settings(proxy).get_arguments();
    let i = position(&args, "--socks-proxy");
    assert_eq!(
        args[i..].to_vec(),
        words(&["--socks-proxy", "127.0.0.1", "1080", "--route", "192.168.1.1", "255.255.255.255", "net_gateway"])
    );
}

#[test]
fn remote_proxy_with_auth_file() {
    let proxy = ProxySettings::Remote(RemoteProxySettings {
        address: SocketAddress::new(String::from("8.8.4.4"), 1080),
        auth: Some(ProxyAuth { username: String::from("u"), password: String::from("p") }),
    });
    let args = OpenVpnCommand::new("openvpn")
        .proxy_auth("/proxy-auth")
        .proxy_settings(proxy)
        .get_arguments();
    let i = position(&args, "--socks-proxy");
    assert_eq!(
        args[i..].to_vec(),
        words(&["--socks-proxy", "8.8.4.4", "1080", "/proxy-auth", "--route", "8.8.4.4", "255.255.255.255", "net_gateway"])
    );
}

#[test]
fn remote_proxy_auth_without_file() {
    let proxy = ProxySettings::Remote(RemoteProxySettings {
        address: SocketAddress::new(String::from("8.8.4.4"), 1080),
        auth: Some(ProxyAuth { username: String::from("u"), password: String::from("p") }),
    });
    let args = OpenVpnCommand::new("openvpn").proxy_settings(proxy).get_arguments();
    let i = position(&args, "--socks-proxy");
    assert_eq!(
        args[i..].to_vec(),
        words(&["--socks-proxy", "8.8.4.4", "1080", "--route", "8.8.4.4", "255.255.255.255", "net_gateway"])
    );
}

#[test]
fn dynamic_proxy_uses_recorded_port() {
    let proxy = ProxySettings::Shadowsocks(ShadowsocksProxySettings {
        peer: SocketAddress::new(String::from("185.65.135.1"), 443),
    });
    let cmd = OpenVpnCommand::new("openvpn").proxy_settings(proxy).proxy_port(61234);
    assert!(cmd.has_required_proxy_port());
    let args = cmd.get_arguments();
    let i = position(&args, "--socks-proxy");
    assert_eq!(
        args[i..].to_vec(),
        words(&["--socks-proxy", "127.0.0.1", "61234", "--route", "185.65.135.1", "255.255.255.255", "net_gateway"])
    );
}

#[test]
fn dynamic_proxy_without_port_is_refused() {
    let proxy = ProxySettings::Shadowsocks(ShadowsocksProxySettings {
        peer: SocketAddress::new(String::from("185.65.135.1"), 443),
    });
    let cmd = OpenVpnCommand::new("openvpn").proxy_settings(proxy);
    assert!(!cmd.has_required_proxy_port());
    assert!(OpenVpnCommand::new("openvpn").has_required_proxy_port());
}

#[test]
fn display_quotes_where_needed() {
    let cmd = OpenVpnCommand::new("/usr/sbin/open vpn").log("it's!");
    let line = cmd.display_string();
    assert!(line.starts_with("'/usr/sbin/open vpn' --client --tls-client "));
    assert!(line.contains(" --log 'it'\\''s'\\!''"));
    assert!(line.ends_with(" --tls-ciphersuites 'TLS_AES_256_GCM_SHA384:TLS_CHACHA20_POLY1305_SHA256'"));
}

#[test]
fn display_quotes_empty_words() {
    let line = OpenVpnCommand::new("").display_string();
    assert!(line.starts_with("'' --client"));
}

#[test]
fn decimal_rendering() {
    assert_eq!(decimal_string(0), "0");
    assert_eq!(decimal_string(7), "7");
    assert_eq!(decimal_string(3333), "3333");
    assert_eq!(decimal_string(65535), "65535");
    assert_eq!(decimal_string(4294967295), "4294967295");
}
