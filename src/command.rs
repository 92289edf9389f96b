//! The OpenVPN command line, derived from a configuration.

use vstd::prelude::*;
use crate::decimal::{decimal, decimal_string};
use crate::escape::{shell_escape, shell_quoted};
use crate::net::{
    Endpoint, EndpointView, Platform, ProxySettings, ProxySettingsView, SocketAddressView,
    TransportProtocol, TunnelOptions,
};

verus! {

/// The configuration as the argument list depends on it.
pub struct CommandView {
    pub openvpn_bin: Seq<char>,
    pub config: Option<Seq<char>>,
    pub remote: Option<EndpointView>,
    pub user_pass_path: Option<Seq<char>>,
    pub proxy_auth_path: Option<Seq<char>>,
    pub ca: Option<Seq<char>>,
    pub crl: Option<Seq<char>>,
    pub plugin: Option<(Seq<char>, Seq<Seq<char>>)>,
    pub log: Option<Seq<char>>,
    pub mssfix: Option<u16>,
    pub proxy_settings: Option<ProxySettingsView>,
    pub tunnel_alias: Option<Seq<char>>,
    pub enable_ipv6: bool,
    pub proxy_port: Option<u16>,
    pub fwmark: Option<u32>,
    pub platform: Platform,
}

/// The characters of each string.
pub open spec fn views(v: Seq<String>) -> Seq<Seq<char>> {
    v.map_values(|s: String| s@)
}

pub open spec fn opt_view(o: Option<String>) -> Option<Seq<char>> {
    match o {
        Some(s) => Some(s@),
        None => None,
    }
}

/// A flag followed by its value, when there is a value.
pub open spec fn flag_value(flag: Seq<char>, value: Option<Seq<char>>) -> Seq<Seq<char>> {
    match value {
        Some(v) => seq![flag, v],
        None => Seq::empty(),
    }
}

/// The device flag, which differs between Windows and the other systems.
pub open spec fn device_arguments(p: Platform) -> Seq<Seq<char>> {
    if p == Platform::Windows {
        seq!["--dev-type"@, "tun"@]
    } else {
        seq!["--dev"@, "tun"@]
    }
}

/// Routing and driver flags of a single platform.
pub open spec fn platform_arguments(p: Platform) -> Seq<Seq<char>> {
    match p {
        Platform::Windows => seq![
            "--route-gateway"@,
            "dhcp"@,
            "--route"@,
            "0.0.0.0"@,
            "0.0.0.0"@,
            "vpn_gateway"@,
            "1"@,
            "--ip-win32"@,
            "ipapi"@,
            "--windows-driver"@,
            "wintun"@,
        ],
        Platform::Linux => seq!["--route-noexec"@],
        Platform::Other => Seq::empty(),
    }
}

/// The flags that every invocation starts with.
pub open spec fn base_arguments_of(p: Platform) -> Seq<Seq<char>> {
    seq!["--client"@, "--tls-client"@, "--nobind"@, "--mute-replay-warnings"@]
        + device_arguments(p) + seq![
        "--ping"@,
        "4"@,
        "--ping-exit"@,
        "25"@,
        "--connect-timeout"@,
        "30"@,
        "--connect-retry"@,
        "0"@,
        "0"@,
        "--connect-retry-max"@,
        "1"@,
        "--remote-cert-tls"@,
        "server"@,
        "--rcvbuf"@,
        "1048576"@,
        "--sndbuf"@,
        "1048576"@,
        "--fast-io"@,
        "--data-ciphers-fallback"@,
        "AES-256-GCM"@,
        "--tls-version-min"@,
        "1.3"@,
        "--verb"@,
        "3"@,
    ] + platform_arguments(p)
}

/// The word OpenVPN expects for a transport protocol.
pub open spec fn protocol_token(p: TransportProtocol) -> Seq<char> {
    match p {
        TransportProtocol::Udp => "udp"@,
        TransportProtocol::Tcp => "tcp-client"@,
    }
}

pub open spec fn remote_arguments_of(remote: Option<EndpointView>) -> Seq<Seq<char>> {
    match remote {
        Some(e) => seq![
            "--proto"@,
            protocol_token(e.protocol),
            "--remote"@,
            e.address.ip,
            decimal(e.address.port as nat),
        ],
        None => Seq::empty(),
    }
}

pub open spec fn plugin_arguments_of(plugin: Option<(Seq<char>, Seq<Seq<char>>)>) -> Seq<Seq<char>> {
    match plugin {
        Some((path, args)) => seq!["--plugin"@, path] + args,
        None => Seq::empty(),
    }
}

pub open spec fn mssfix_arguments_of(mssfix: Option<u16>) -> Seq<Seq<char>> {
    match mssfix {
        Some(m) => seq!["--mssfix"@, decimal(m as nat)],
        None => Seq::empty(),
    }
}

/// Without IPv6, two directives that ignore the IPv6 routes and the IPv6 interface configuration
/// that the server pushes.
pub open spec fn ipv6_arguments_of(enable_ipv6: bool) -> Seq<Seq<char>> {
    if enable_ipv6 {
        Seq::empty()
    } else {
        seq!["--pull-filter"@, "ignore route-ipv6"@, "--pull-filter"@, "ignore ifconfig-ipv6"@]
    }
}

/// The TLS 1.3 cipher suites that may be negotiated, joined by a colon.
pub open spec fn tls_cipher_arguments_of() -> Seq<Seq<char>> {
    seq!["--tls-ciphersuites"@, "TLS_AES_256_GCM_SHA384:TLS_CHACHA20_POLY1305_SHA256"@]
}

/// A route for `peer` alone through the network's own gateway.
pub open spec fn peer_route(peer: SocketAddressView) -> Seq<Seq<char>> {
    seq!["--route"@, peer.ip, "255.255.255.255"@, "net_gateway"@]
}

/// A dynamic-port proxy can only be used once its port has been recorded.
pub open spec fn proxy_port_known(c: CommandView) -> bool {
    (c.proxy_settings matches Some(ProxySettingsView::Shadowsocks { .. })) ==> c.proxy_port is Some
}

pub open spec fn proxy_arguments_of(c: CommandView) -> Seq<Seq<char>> {
    match c.proxy_settings {
        Some(ProxySettingsView::Local { port, peer }) => seq![
            "--socks-proxy"@,
            "127.0.0.1"@,
            decimal(port as nat),
        ] + peer_route(peer),
        Some(ProxySettingsView::Remote { address, has_auth }) => seq![
            "--socks-proxy"@,
            address.ip,
            decimal(address.port as nat),
        ] + (if has_auth {
            match c.proxy_auth_path {
                Some(p) => seq![p],
                None => Seq::empty(),
            }
        } else {
            Seq::empty()
        }) + peer_route(address),
        Some(ProxySettingsView::Shadowsocks { peer }) => seq![
            "--socks-proxy"@,
            "127.0.0.1"@,
            decimal(c.proxy_port.unwrap() as nat),
        ] + peer_route(peer),
        None => Seq::empty(),
    }
}

pub open spec fn fwmark_arguments_of(p: Platform, fwmark: Option<u32>) -> Seq<Seq<char>> {
    match fwmark {
        Some(m) if p == Platform::Linux => seq!["--mark"@, decimal(m as nat)],
        _ => Seq::empty(),
    }
}

/// Every argument that OpenVPN is started with, in order.
pub open spec fn arguments_of(c: CommandView) -> Seq<Seq<char>> {
    base_arguments_of(c.platform) + flag_value("--config"@, c.config) + remote_arguments_of(
        c.remote,
    ) + flag_value("--auth-user-pass"@, c.user_pass_path) + flag_value("--ca"@, c.ca)
        + flag_value("--crl-verify"@, c.crl) + plugin_arguments_of(c.plugin) + flag_value(
        "--log"@,
        c.log,
    ) + mssfix_arguments_of(c.mssfix) + ipv6_arguments_of(c.enable_ipv6) + flag_value(
        "--dev-node"@,
        c.tunnel_alias,
    ) + tls_cipher_arguments_of() + proxy_arguments_of(c) + fwmark_arguments_of(
        c.platform,
        c.fwmark,
    )
}

/// The words joined into one line, each after a space.
pub open spec fn spaced(words: Seq<Seq<char>>) -> Seq<char>
    decreases words.len(),
{
    if words.len() == 0 {
        Seq::empty()
    } else {
        spaced(words.drop_last()) + seq![' '] + words.last()
    }
}

/// The program and its arguments as one shell line.
pub open spec fn display_of(c: CommandView) -> Seq<char> {
    shell_quoted(c.openvpn_bin) + spaced(arguments_of(c).map_values(|a: Seq<char>| shell_quoted(a)))
}

fn push_str(args: &mut Vec<String>, s: &str)
    ensures
        views(final(args)@) == views(old(args)@).push(s@),
{
    args.push(String::from_str(s));
    assert(views(args@) =~= views(old(args)@).push(s@));
}

fn push_string(args: &mut Vec<String>, s: String)
    ensures
        views(final(args)@) == views(old(args)@).push(s@),
{
    args.push(s);
    assert(views(args@) =~= views(old(args)@).push(s@));
}

fn extend(args: &mut Vec<String>, more: Vec<String>)
    ensures
        views(final(args)@) == views(old(args)@) + views(more@),
{
    let mut more = more;
    let ghost added = more@;
    args.append(&mut more);
    assert(views(args@) =~= views(old(args)@) + views(added));
}

fn clone_strings(v: &Vec<String>) -> (r: Vec<String>)
    ensures
        views(r@) == views(v@),
{
    let mut r: Vec<String> = Vec::new();
    let mut i: usize = 0;
    while i < v.len()
        invariant
            i <= v.len(),
            views(r@) == views(v@.subrange(0, i as int)),
        decreases v.len() - i,
    {
        push_string(&mut r, v[i].clone());
        assert(v@.subrange(0, i + 1) =~= v@.subrange(0, i as int).push(v@[i as int]));
        assert(views(v@.subrange(0, i + 1)) =~= views(v@.subrange(0, i as int)).push(v@[i as int]@));
        i += 1;
    }
    assert(v@.subrange(0, v@.len() as int) =~= v@);
    r
}

fn clone_opt(o: &Option<String>) -> (r: Option<String>)
    ensures
        opt_view(r) == opt_view(*o),
{
    match o {
        Some(s) => Some(s.clone()),
        None => None,
    }
}

fn flag_value_arguments(flag: &str, value: &Option<String>) -> (r: Vec<String>)
    ensures
        views(r@) == flag_value(flag@, opt_view(*value)),
{
    let mut args: Vec<String> = Vec::new();
    match value {
        Some(v) => {
            push_str(&mut args, flag);
            push_string(&mut args, v.clone());
        },
        None => {},
    }
    assert(views(args@) =~= flag_value(flag@, opt_view(*value)));
    args
}

fn peer_route_arguments(args: &mut Vec<String>, ip: &String)
    ensures
        views(final(args)@) == views(old(args)@) + peer_route(SocketAddressView { ip: ip@, port: 0 }),
{
    push_str(args, "--route");
    push_string(args, ip.clone());
    push_str(args, "255.255.255.255");
    push_str(args, "net_gateway");
    assert(views(args@) =~= views(old(args)@) + peer_route(SocketAddressView { ip: ip@, port: 0 }));
}

/// An OpenVPN process builder, providing control over the different arguments that the OpenVPN
/// binary accepts. Each setter returns the updated builder.
#[derive(Clone)]
pub struct OpenVpnCommand {
    openvpn_bin: String,
    config: Option<String>,
    remote: Option<Endpoint>,
    user_pass_path: Option<String>,
    proxy_auth_path: Option<String>,
    ca: Option<String>,
    crl: Option<String>,
    plugin: Option<(String, Vec<String>)>,
    log: Option<String>,
    tunnel_options: TunnelOptions,
    proxy_settings: Option<ProxySettings>,
    tunnel_alias: Option<String>,
    enable_ipv6: bool,
    proxy_port: Option<u16>,
    fwmark: Option<u32>,
    platform: Platform,
}

pub open spec fn opt_endpoint_view(o: Option<Endpoint>) -> Option<EndpointView> {
    match o {
        Some(e) => Some(e@),
        None => None,
    }
}

pub open spec fn opt_proxy_view(o: Option<ProxySettings>) -> Option<ProxySettingsView> {
    match o {
        Some(p) => Some(p@),
        None => None,
    }
}

pub open spec fn opt_plugin_view(o: Option<(String, Vec<String>)>) -> Option<(Seq<char>, Seq<Seq<char>>)> {
    match o {
        Some((path, args)) => Some((path@, views(args@))),
        None => None,
    }
}

impl View for OpenVpnCommand {
    type V = CommandView;

    closed spec fn view(&self) -> CommandView {
        CommandView {
            openvpn_bin: self.openvpn_bin@,
            config: opt_view(self.config),
            remote: opt_endpoint_view(self.remote),
            user_pass_path: opt_view(self.user_pass_path),
            proxy_auth_path: opt_view(self.proxy_auth_path),
            ca: opt_view(self.ca),
            crl: opt_view(self.crl),
            plugin: opt_plugin_view(self.plugin),
            log: opt_view(self.log),
            mssfix: self.tunnel_options.mssfix,
            proxy_settings: opt_proxy_view(self.proxy_settings),
            tunnel_alias: opt_view(self.tunnel_alias),
            enable_ipv6: self.enable_ipv6,
            proxy_port: self.proxy_port,
            fwmark: self.fwmark,
            platform: self.platform,
        }
    }
}

impl OpenVpnCommand {
    /// A command for launching the OpenVPN binary at `openvpn_bin`, with nothing else set, IPv6
    /// enabled, for Linux.
    pub fn new(openvpn_bin: &str) -> (r: Self)
        ensures
            r@ == (CommandView {
                openvpn_bin: openvpn_bin@,
                config: None,
                remote: None,
                user_pass_path: None,
                proxy_auth_path: None,
                ca: None,
                crl: None,
                plugin: None,
                log: None,
                mssfix: None,
                proxy_settings: None,
                tunnel_alias: None,
                enable_ipv6: true,
                proxy_port: None,
                fwmark: None,
                platform: Platform::Linux,
            }),
    {
        OpenVpnCommand {
            openvpn_bin: String::from_str(openvpn_bin),
            config: None,
            remote: None,
            user_pass_path: None,
            proxy_auth_path: None,
            ca: None,
            crl: None,
            plugin: None,
            log: None,
            tunnel_options: TunnelOptions::new(),
            proxy_settings: None,
            tunnel_alias: None,
            enable_ipv6: true,
            proxy_port: None,
            fwmark: None,
            platform: Platform::Linux,
        }
    }

    /// Sets the platform whose flags the command carries.
    pub fn platform(self, platform: Platform) -> (r: Self)
        ensures
            r@ == (CommandView { platform, ..self@ }),
    {
        OpenVpnCommand { platform, ..self }
    }

    /// Sets what the firewall mark should be (used on Linux).
    pub fn fwmark(self, fwmark: Option<u32>) -> (r: Self)
        ensures
            r@ == (CommandView { fwmark, ..self@ }),
    {
        OpenVpnCommand { fwmark, ..self }
    }

    /// Sets what configuration file will be given to OpenVPN.
    pub fn config(self, path: &str) -> (r: Self)
        ensures
            r@ == (CommandView { config: Some(path@), ..self@ }),
    {
        OpenVpnCommand { config: Some(String::from_str(path)), ..self }
    }

    /// Sets the address and protocol that OpenVPN will connect to.
    pub fn remote(self, remote: Endpoint) -> (r: Self)
        ensures
            r@ == (CommandView { remote: Some(remote@), ..self@ }),
    {
        OpenVpnCommand { remote: Some(remote), ..self }
    }

    /// Sets the path to the file where the username and password for user-pass authentication
    /// is stored.
    pub fn user_pass(self, path: &str) -> (r: Self)
        ensures
            r@ == (CommandView { user_pass_path: Some(path@), ..self@ }),
    {
        OpenVpnCommand { user_pass_path: Some(String::from_str(path)), ..self }
    }

    /// Sets the path to the file where the username and password for proxy authentication
    /// is stored.
    pub fn proxy_auth(self, path: &str) -> (r: Self)
        ensures
            r@ == (CommandView { proxy_auth_path: Some(path@), ..self@ }),
    {
        OpenVpnCommand { proxy_auth_path: Some(String::from_str(path)), ..self }
    }

    /// Sets the path to the CA certificate file.
    pub fn ca(self, path: &str) -> (r: Self)
        ensures
            r@ == (CommandView { ca: Some(path@), ..self@ }),
    {
        OpenVpnCommand { ca: Some(String::from_str(path)), ..self }
    }

    /// Sets the path to the certificate revocation list file.
    pub fn crl(self, path: &str) -> (r: Self)
        ensures
            r@ == (CommandView { crl: Some(path@), ..self@ }),
    {
        OpenVpnCommand { crl: Some(String::from_str(path)), ..self }
    }

    /// Sets a plugin and its arguments that OpenVPN will be started with.
    pub fn plugin(self, path: &str, args: Vec<String>) -> (r: Self)
        ensures
            r@ == (CommandView { plugin: Some((path@, views(args@))), ..self@ }),
    {
        OpenVpnCommand { plugin: Some((String::from_str(path), args)), ..self }
    }

    /// Sets a log file path.
    pub fn log(self, path: &str) -> (r: Self)
        ensures
            r@ == (CommandView { log: Some(path@), ..self@ }),
    {
        OpenVpnCommand { log: Some(String::from_str(path)), ..self }
    }

    /// Sets extra options.
    pub fn tunnel_options(self, tunnel_options: &TunnelOptions) -> (r: Self)
        ensures
            r@ == (CommandView { mssfix: tunnel_options.mssfix, ..self@ }),
    {
        OpenVpnCommand { tunnel_options: TunnelOptions { mssfix: tunnel_options.mssfix }, ..self }
    }

    /// Sets the alias of the tunnel device that OpenVPN will use.
    pub fn tunnel_alias(self, tunnel_alias: Option<String>) -> (r: Self)
        ensures
            r@ == (CommandView { tunnel_alias: opt_view(tunnel_alias), ..self@ }),
    {
        OpenVpnCommand { tunnel_alias, ..self }
    }

    /// Configures if IPv6 should be allowed in the tunnel.
    pub fn enable_ipv6(self, enable_ipv6: bool) -> (r: Self)
        ensures
            r@ == (CommandView { enable_ipv6, ..self@ }),
    {
        OpenVpnCommand { enable_ipv6, ..self }
    }

    /// Sets the local proxy port bound to. With a dynamic-port proxy this is only known once the
    /// proxy has been started.
    pub fn proxy_port(self, proxy_port: u16) -> (r: Self)
        ensures
            r@ == (CommandView { proxy_port: Some(proxy_port), ..self@ }),
    {
        OpenVpnCommand { proxy_port: Some(proxy_port), ..self }
    }

    /// Sets the proxy settings.
    pub fn proxy_settings(self, proxy_settings: ProxySettings) -> (r: Self)
        ensures
            r@ == (CommandView { proxy_settings: Some(proxy_settings@), ..self@ }),
    {
        OpenVpnCommand { proxy_settings: Some(proxy_settings), ..self }
    }

    /// The OpenVPN binary that the command launches.
    pub fn openvpn_bin(&self) -> (r: &String)
        ensures
            r@ == self@.openvpn_bin,
    {
        &self.openvpn_bin
    }

    /// Whether the command can be given to OpenVPN: a dynamic-port proxy needs the port that
    /// it has bound.
    pub fn has_required_proxy_port(&self) -> (r: bool)
        ensures
            r == proxy_port_known(self@),
    {
        match (&self.proxy_settings, &self.proxy_port) {
            (Some(ProxySettings::Shadowsocks(_)), None) => false,
            _ => true,
        }
    }

    /// All arguments that the process would be spawned with.
    pub fn get_arguments(&self) -> (r: Vec<String>)
        requires
            proxy_port_known(self@),
        ensures
            views(r@) == arguments_of(self@),
    {
        let mut args = Self::base_arguments(self.platform);
        extend(&mut args, flag_value_arguments("--config", &self.config));
        extend(&mut args, self.remote_arguments());
        extend(&mut args, self.authentication_arguments());
        extend(&mut args, flag_value_arguments("--ca", &self.ca));
        extend(&mut args, flag_value_arguments("--crl-verify", &self.crl));
        extend(&mut args, self.plugin_arguments());
        extend(&mut args, flag_value_arguments("--log", &self.log));
        extend(&mut args, self.mssfix_arguments());
        extend(&mut args, self.ipv6_arguments());
        extend(&mut args, flag_value_arguments("--dev-node", &self.tunnel_alias));
        extend(&mut args, Self::tls_cipher_arguments());
        extend(&mut args, self.proxy_arguments());
        extend(&mut args, self.fwmark_arguments());
        args
    }

    fn base_arguments(platform: Platform) -> (r: Vec<String>)
        ensures
            views(r@) == base_arguments_of(platform),
    {
        let mut args: Vec<String> = Vec::new();
        push_str(&mut args, "--client");
        push_str(&mut args, "--tls-client");
        push_str(&mut args, "--nobind");
        push_str(&mut args, "--mute-replay-warnings");
        if platform == Platform::Windows {
            push_str(&mut args, "--dev-type");
        } else {
            push_str(&mut args, "--dev");
        }
        push_str(&mut args, "tun");
        push_str(&mut args, "--ping");
        push_str(&mut args, "4");
        push_str(&mut args, "--ping-exit");
        push_str(&mut args, "25");
        push_str(&mut args, "--connect-timeout");
        push_str(&mut args, "30");
        push_str(&mut args, "--connect-retry");
        push_str(&mut args, "0");
        push_str(&mut args, "0");
        push_str(&mut args, "--connect-retry-max");
        push_str(&mut args, "1");
        push_str(&mut args, "--remote-cert-tls");
        push_str(&mut args, "server");
        push_str(&mut args, "--rcvbuf");
        push_str(&mut args, "1048576");
        push_str(&mut args, "--sndbuf");
        push_str(&mut args, "1048576");
        push_str(&mut args, "--fast-io");
        push_str(&mut args, "--data-ciphers-fallback");
        push_str(&mut args, "AES-256-GCM");
        push_str(&mut args, "--tls-version-min");
        push_str(&mut args, "1.3");
        push_str(&mut args, "--verb");
        push_str(&mut args, "3");
        match platform {
            Platform::Windows => {
                push_str(&mut args, "--route-gateway");
                push_str(&mut args, "dhcp");
                push_str(&mut args, "--route");
                push_str(&mut args, "0.0.0.0");
                push_str(&mut args, "0.0.0.0");
                push_str(&mut args, "vpn_gateway");
                push_str(&mut args, "1");
                push_str(&mut args, "--ip-win32");
                push_str(&mut args, "ipapi");
                push_str(&mut args, "--windows-driver");
                push_str(&mut args, "wintun");
            },
            Platform::Linux => {
                push_str(&mut args, "--route-noexec");
            },
            Platform::Other => {},
        }
        assert(views(args@) =~= base_arguments_of(platform));
        args
    }

    fn tls_cipher_arguments() -> (r: Vec<String>)
        ensures
            views(r@) == tls_cipher_arguments_of(),
    {
        let mut args: Vec<String> = Vec::new();
        push_str(&mut args, "--tls-ciphersuites");
        push_str(&mut args, "TLS_AES_256_GCM_SHA384:TLS_CHACHA20_POLY1305_SHA256");
        assert(views(args@) =~= tls_cipher_arguments_of());
        args
    }

    fn remote_arguments(&self) -> (r: Vec<String>)
        ensures
            views(r@) == remote_arguments_of(self@.remote),
    {
        let mut args: Vec<String> = Vec::new();
        if let Some(endpoint) = &self.remote {
            push_str(&mut args, "--proto");
            match endpoint.protocol {
                TransportProtocol::Udp => push_str(&mut args, "udp"),
                TransportProtocol::Tcp => push_str(&mut args, "tcp-client"),
            }
            push_str(&mut args, "--remote");
            push_string(&mut args, endpoint.address.ip.clone());
            push_string(&mut args, decimal_string(endpoint.address.port as u32));
        }
        assert(views(args@) =~= remote_arguments_of(self@.remote));
        args
    }

    fn authentication_arguments(&self) -> (r: Vec<String>)
        ensures
            views(r@) == flag_value("--auth-user-pass"@, self@.user_pass_path),
    {
        flag_value_arguments("--auth-user-pass", &self.user_pass_path)
    }

    fn plugin_arguments(&self) -> (r: Vec<String>)
        ensures
            views(r@) == plugin_arguments_of(self@.plugin),
    {
        let mut args: Vec<String> = Vec::new();
        if let Some((path, plugin_args)) = &self.plugin {
            push_str(&mut args, "--plugin");
            push_string(&mut args, path.clone());
            extend(&mut args, clone_strings(plugin_args));
        }
        assert(views(args@) =~= plugin_arguments_of(self@.plugin));
        args
    }

    fn mssfix_arguments(&self) -> (r: Vec<String>)
        ensures
            views(r@) == mssfix_arguments_of(self@.mssfix),
    {
        let mut args: Vec<String> = Vec::new();
        if let Some(mssfix) = self.tunnel_options.mssfix {
            push_str(&mut args, "--mssfix");
            push_string(&mut args, decimal_string(mssfix as u32));
        }
        assert(views(args@) =~= mssfix_arguments_of(self@.mssfix));
        args
    }

    fn ipv6_arguments(&self) -> (r: Vec<String>)
        ensures
            views(r@) == ipv6_arguments_of(self@.enable_ipv6),
    {
        let mut args: Vec<String> = Vec::new();
        if !self.enable_ipv6 {
            push_str(&mut args, "--pull-filter");
            push_str(&mut args, "ignore route-ipv6");
            push_str(&mut args, "--pull-filter");
            push_str(&mut args, "ignore ifconfig-ipv6");
        }
        assert(views(args@) =~= ipv6_arguments_of(self@.enable_ipv6));
        args
    }

    fn proxy_arguments(&self) -> (r: Vec<String>)
        requires
            proxy_port_known(self@),
        ensures
            views(r@) == proxy_arguments_of(self@),
    {
        let mut args: Vec<String> = Vec::new();
        match &self.proxy_settings {
            Some(ProxySettings::Local(local_proxy)) => {
                push_str(&mut args, "--socks-proxy");
                push_str(&mut args, "127.0.0.1");
                push_string(&mut args, decimal_string(local_proxy.port as u32));
                peer_route_arguments(&mut args, &local_proxy.peer.ip);
            },
            Some(ProxySettings::Remote(remote_proxy)) => {
                push_str(&mut args, "--socks-proxy");
                push_string(&mut args, remote_proxy.address.ip.clone());
                push_string(&mut args, decimal_string(remote_proxy.address.port as u32));
                if remote_proxy.auth.is_some() {
                    if let Some(auth_file) = &self.proxy_auth_path {
                        push_string(&mut args, auth_file.clone());
                    }
                }
                peer_route_arguments(&mut args, &remote_proxy.address.ip);
            },
            Some(ProxySettings::Shadowsocks(ss)) => {
                push_str(&mut args, "--socks-proxy");
                push_str(&mut args, "127.0.0.1");
                if let Some(proxy_port) = self.proxy_port {
                    push_string(&mut args, decimal_string(proxy_port as u32));
                }
                peer_route_arguments(&mut args, &ss.peer.ip);
            },
            None => {},
        }
        assert(views(args@) =~= proxy_arguments_of(self@));
        args
    }

    fn fwmark_arguments(&self) -> (r: Vec<String>)
        ensures
            views(r@) == fwmark_arguments_of(self@.platform, self@.fwmark),
    {
        let mut args: Vec<String> = Vec::new();
        if self.platform == Platform::Linux {
            if let Some(mark) = self.fwmark {
                push_str(&mut args, "--mark");
                push_string(&mut args, decimal_string(mark));
            }
        }
        assert(views(args@) =~= fwmark_arguments_of(self@.platform, self@.fwmark));
        args
    }

    /// The program and its arguments as one line for a POSIX shell, each word quoted where it
    /// needs to be.
    pub fn display_string(&self) -> (r: String)
        requires
            proxy_port_known(self@),
        ensures
            r@ == display_of(self@),
    {
        let args = self.get_arguments();
        let ghost quoted = arguments_of(self@).map_values(|a: Seq<char>| shell_quoted(a));
        let mut line = shell_escape(self.openvpn_bin.as_str());
        let mut i: usize = 0;
        while i < args.len()
            invariant
                i <= args.len(),
                views(args@) == arguments_of(self@),
                quoted == arguments_of(self@).map_values(|a: Seq<char>| shell_quoted(a)),
                line@ == shell_quoted(self@.openvpn_bin) + spaced(quoted.subrange(0, i as int)),
            decreases args.len() - i,
        {
            line.append(" ");
            let word = shell_escape(args[i].as_str());
            line.append(word.as_str());
            proof {
                reveal_strlit(" ");
                assert(views(args@)[i as int] == args@[i as int]@);
                assert(quoted.subrange(0, i + 1).drop_last() =~= quoted.subrange(0, i as int));
                assert(line@ =~= shell_quoted(self@.openvpn_bin) + spaced(quoted.subrange(0, i + 1)));
            }
            i += 1;
        }
        assert(quoted.subrange(0, args@.len() as int) =~= quoted);
        line
    }
}

/// With a remote endpoint set, the arguments hold the protocol word, the address and the port
/// as separate entries in that order, whatever else is configured.
pub proof fn lemma_remote_endpoint_passed(c: CommandView)
    requires
        c.remote is Some,
    ensures
        ({
            let args = arguments_of(c);
            let e = c.remote.unwrap();
            exists|i: int|
                0 <= i && i + 3 < args.len() && args[i] == protocol_token(e.protocol) && args[i
                    + 2] == e.address.ip && #[trigger] args[i + 3] == decimal(e.address.port as nat)
        }),
{
    let args = arguments_of(c);
    let pre = base_arguments_of(c.platform) + flag_value("--config"@, c.config);
    let i: int = pre.len() as int + 1;
    assert(args[i] == protocol_token(c.remote.unwrap().protocol));
    assert(args[i + 2] == c.remote.unwrap().address.ip);
    assert(args[i + 3] == decimal(c.remote.unwrap().address.port as nat));
}

/// With a plugin set, the plugin path is followed at once by each plugin argument, in the order
/// given.
pub proof fn lemma_plugin_passed(c: CommandView)
    requires
        c.plugin is Some,
    ensures
        ({
            let args = arguments_of(c);
            let (path, plugin_args) = c.plugin.unwrap();
            exists|i: int|
                0 <= i && i + plugin_args.len() < args.len() && #[trigger] args[i] == path
                    && forall|j: int|
                    0 <= j < plugin_args.len() ==> args[i + 1 + j] == #[trigger] plugin_args[j]
        }),
{
    let args = arguments_of(c);
    let (path, plugin_args) = c.plugin.unwrap();
    let pre = base_arguments_of(c.platform) + flag_value("--config"@, c.config)
        + remote_arguments_of(c.remote) + flag_value("--auth-user-pass"@, c.user_pass_path)
        + flag_value("--ca"@, c.ca) + flag_value("--crl-verify"@, c.crl);
    let i: int = pre.len() as int + 1;
    assert(args[i] == path);
    assert forall|j: int| 0 <= j < plugin_args.len() implies args[i + 1 + j] == plugin_args[j] by {
        assert((pre + plugin_arguments_of(c.plugin))[i + 1 + j] == plugin_args[j]);
    }
}

/// Two calls of `get_arguments` on the same command give the same arguments.
pub proof fn lemma_arguments_deterministic(c: OpenVpnCommand, a: Vec<String>, b: Vec<String>)
    requires
        call_ensures(OpenVpnCommand::get_arguments, (&c,), a),
        call_ensures(OpenVpnCommand::get_arguments, (&c,), b),
    ensures
        views(a@) == views(b@),
{
}

/// Turning IPv6 off inserts the two ignore directives, four entries, and changes nothing else.
pub proof fn lemma_ipv6_directives(c: CommandView)
    ensures
        ({
            let on = arguments_of(CommandView { enable_ipv6: true, ..c });
            let off = arguments_of(CommandView { enable_ipv6: false, ..c });
            exists|k: int|
                0 <= k <= on.len() && off == on.subrange(0, k) + ipv6_arguments_of(false)
                    + on.subrange(k, on.len() as int)
        }),
{
    let con = CommandView { enable_ipv6: true, ..c };
    let coff = CommandView { enable_ipv6: false, ..c };
    let on = arguments_of(con);
    let off = arguments_of(coff);
    let head = base_arguments_of(c.platform) + flag_value("--config"@, c.config)
        + remote_arguments_of(c.remote) + flag_value("--auth-user-pass"@, c.user_pass_path)
        + flag_value("--ca"@, c.ca) + flag_value("--crl-verify"@, c.crl) + plugin_arguments_of(
        c.plugin,
    ) + flag_value("--log"@, c.log) + mssfix_arguments_of(c.mssfix);
    let tail = flag_value("--dev-node"@, c.tunnel_alias) + tls_cipher_arguments_of()
        + proxy_arguments_of(c) + fwmark_arguments_of(c.platform, c.fwmark);
    assert(proxy_arguments_of(con) == proxy_arguments_of(c));
    assert(proxy_arguments_of(coff) == proxy_arguments_of(c));
    assert(on =~= head + tail);
    assert(off =~= head + ipv6_arguments_of(false) + tail);
    let k: int = head.len() as int;
    assert(on.subrange(0, k) =~= head);
    assert(on.subrange(k, on.len() as int) =~= tail);
}

/// A command with a dynamic-port proxy and no recorded port is refused by `get_arguments`.
pub proof fn lemma_dynamic_proxy_needs_port(c: CommandView)
    requires
        c.proxy_settings matches Some(ProxySettingsView::Shadowsocks { .. }),
        c.proxy_port is None,
    ensures
        !proxy_port_known(c),
{
}
} // verus!
