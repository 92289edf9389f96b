//! Network values that a tunnel configuration refers to.

use vstd::prelude::*;

verus! {

/// Transport protocol of a tunnel endpoint.
#[derive(Clone, Copy, Debug, PartialEq, Eq, Structural)]
pub enum TransportProtocol {
    Udp,
    Tcp,
}

/// A socket address: the IP address in its textual form and a port.
#[derive(Clone, Debug)]
pub struct SocketAddress {
    pub ip: String,
    pub port: u16,
}

/// A socket address as the logic reads it.
pub struct SocketAddressView {
    pub ip: Seq<char>,
    pub port: u16,
}

impl View for SocketAddress {
    type V = SocketAddressView;

    open spec fn view(&self) -> SocketAddressView {
        SocketAddressView { ip: self.ip@, port: self.port }
    }
}

impl SocketAddress {
    pub fn new(ip: String, port: u16) -> (r: Self)
        ensures
            r@ == (SocketAddressView { ip: ip@, port }),
    {
        SocketAddress { ip, port }
    }
}

/// An address, port and transport protocol to connect to.
#[derive(Clone, Debug)]
pub struct Endpoint {
    pub address: SocketAddress,
    pub protocol: TransportProtocol,
}

/// An endpoint as the logic reads it.
pub struct EndpointView {
    pub address: SocketAddressView,
    pub protocol: TransportProtocol,
}

impl View for Endpoint {
    type V = EndpointView;

    open spec fn view(&self) -> EndpointView {
        EndpointView { address: self.address@, protocol: self.protocol }
    }
}

impl Endpoint {
    pub fn new(ip: String, port: u16, protocol: TransportProtocol) -> (r: Self)
        ensures
            r@ == (EndpointView { address: SocketAddressView { ip: ip@, port }, protocol }),
    {
        Endpoint { address: SocketAddress::new(ip, port), protocol }
    }
}

/// Extra options for the tunnel.
#[derive(Clone, Debug)]
pub struct TunnelOptions {
    /// Value for the MSS fix, if one should be applied.
    pub mssfix: Option<u16>,
}

impl TunnelOptions {
    /// Options with nothing set.
    pub fn new() -> (r: Self)
        ensures
            r.mssfix is None,
    {
        TunnelOptions { mssfix: None }
    }
}

/// Credentials that a remote SOCKS proxy asks for.
#[derive(Clone, Debug)]
pub struct ProxyAuth {
    pub username: String,
    pub password: String,
}

/// A SOCKS proxy listening on this machine, in front of `peer`.
#[derive(Clone, Debug)]
pub struct LocalProxySettings {
    pub port: u16,
    pub peer: SocketAddress,
}

/// A SOCKS proxy reached over the network.
#[derive(Clone, Debug)]
pub struct RemoteProxySettings {
    pub address: SocketAddress,
    pub auth: Option<ProxyAuth>,
}

/// A local proxy process whose listening port is only known once it has bound one.
#[derive(Clone, Debug)]
pub struct ShadowsocksProxySettings {
    pub peer: SocketAddress,
}

/// How the tunnel traffic is proxied.
#[derive(Clone, Debug)]
pub enum ProxySettings {
    Local(LocalProxySettings),
    Remote(RemoteProxySettings),
    Shadowsocks(ShadowsocksProxySettings),
}

/// Proxy settings as the logic reads them: of a remote proxy's credentials, only whether there
/// are any.
pub enum ProxySettingsView {
    Local { port: u16, peer: SocketAddressView },
    Remote { address: SocketAddressView, has_auth: bool },
    Shadowsocks { peer: SocketAddressView },
}

impl View for ProxySettings {
    type V = ProxySettingsView;

    open spec fn view(&self) -> ProxySettingsView {
        match self {
            ProxySettings::Local(l) => ProxySettingsView::Local { port: l.port, peer: l.peer@ },
            ProxySettings::Remote(r) => ProxySettingsView::Remote {
                address: r.address@,
                has_auth: r.auth is Some,
            },
            ProxySettings::Shadowsocks(s) => ProxySettingsView::Shadowsocks { peer: s.peer@ },
        }
    }
}

/// The operating system the command is built for.
#[derive(Clone, Copy, Debug, PartialEq, Eq, Structural)]
pub enum Platform {
    Linux,
    Windows,
    Other,
}

} // verus!
