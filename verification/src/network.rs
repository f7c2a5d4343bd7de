//! Where the proxy listens, and how sessions in the sandbox are told of it.

use crate::policy::{NetworkMode, NetworkPolicy, NetworkView, ProxyPolicy, ProxyView};
use crate::text::{decimal, decimal_text, decimal_value, law_decimal_reads_back, Text};
use vstd::prelude::*;

verus! {

/// The TCP port that the proxy listens on unless the policy names one.
pub const DEFAULT_PROXY_PORT: u16 = 3128;

/// The platform that the supervisor runs on.
#[derive(Clone, Copy, PartialEq, Eq, Debug, Structural)]
pub enum Platform {
    /// Linux: network namespaces and the zombie reaper are available.
    Linux,
    /// Another Unix: users, groups and ownership are available.
    OtherUnix,
    /// Anything else.
    NonUnix,
}

/// The network namespace of the sandbox.
#[derive(Debug, PartialEq, Eq)]
pub struct Netns {
    /// The address of the host's end of the link into the namespace.
    pub host_ip: String,
    /// The descriptor by which a process enters the namespace, if it is open.
    pub ns_fd: Option<i32>,
}

/// An address to listen on.
#[derive(Debug, PartialEq, Eq)]
pub struct BindAddr {
    /// The address.
    pub host: String,
    /// The TCP port.
    pub port: u16,
}

/// What a [`Netns`] holds.
#[verifier::ext_equal]
pub struct NetnsView {
    pub host_ip: Text,
    pub ns_fd: Option<i32>,
}

/// What a [`BindAddr`] holds.
#[verifier::ext_equal]
pub struct BindView {
    pub host: Text,
    pub port: u16,
}

impl View for Netns {
    type V = NetnsView;

    open spec fn view(&self) -> NetnsView {
        NetnsView { host_ip: self.host_ip@, ns_fd: self.ns_fd }
    }
}

impl View for BindAddr {
    type V = BindView;

    open spec fn view(&self) -> BindView {
        BindView { host: self.host@, port: self.port }
    }
}

/// What an optional namespace holds.
pub open spec fn netns_view(netns: Option<Netns>) -> Option<NetnsView> {
    match netns {
        Some(ns) => Some(ns@),
        None => None,
    }
}

/// What an optional address to listen on holds.
pub open spec fn bind_view(bind: Option<BindAddr>) -> Option<BindView> {
    match bind {
        Some(b) => Some(b@),
        None => None,
    }
}

/// The TCP port of the proxy: the configured one, else the default.
pub open spec fn proxy_port(proxy: Option<ProxyView>) -> u16 {
    match proxy {
        Some(ProxyView { http_addr: Some(addr) }) => addr.port,
        _ => DEFAULT_PROXY_PORT,
    }
}

/// The URL of a proxy at a host and TCP port.
pub open spec fn proxy_url(host: Text, port: u16) -> Text {
    "http://"@ + host + ":"@ + decimal(port as nat)
}

/// Where the proxy is to listen: at the host's end of the namespace's link, so
/// that the processes inside can reach it. Without a namespace the proxy's own
/// configuration decides.
pub open spec fn bind_address(netns: Option<NetnsView>, proxy: Option<ProxyView>) -> Option<
    BindView,
> {
    match netns {
        Some(ns) => Some(BindView { host: ns.host_ip, port: proxy_port(proxy) }),
        None => None,
    }
}

/// The proxy URL that SSH sessions are given. On Linux it is where the proxy
/// listens for the namespace; elsewhere it is the configured address.
pub open spec fn session_proxy_url(
    platform: Platform,
    netns: Option<NetnsView>,
    network: NetworkView,
) -> Option<Text> {
    if !(network.mode is Proxy) {
        None
    } else if platform == Platform::Linux {
        match netns {
            Some(ns) => Some(proxy_url(ns.host_ip, proxy_port(network.proxy))),
            None => None,
        }
    } else {
        match network.proxy {
            Some(ProxyView { http_addr: Some(addr) }) => Some(proxy_url(addr.host, addr.port)),
            _ => None,
        }
    }
}

/// What an optional proxy configuration holds.
pub open spec fn proxy_view(proxy: Option<ProxyPolicy>) -> Option<ProxyView> {
    match proxy {
        Some(p) => Some(p@),
        None => None,
    }
}

/// The TCP port of the proxy: the configured one, else the default.
pub fn choose_proxy_port(proxy: &Option<ProxyPolicy>) -> (port: u16)
    ensures
        port == proxy_port(proxy_view(*proxy)),
{
    match proxy {
        Some(p) => match &p.http_addr {
            Some(addr) => addr.port,
            None => DEFAULT_PROXY_PORT,
        },
        None => DEFAULT_PROXY_PORT,
    }
}

/// Where the proxy is to listen, given the sandbox's namespace if there is one.
pub fn choose_bind_address(netns: &Option<Netns>, proxy: &Option<ProxyPolicy>) -> (bind: Option<
    BindAddr,
>)
    ensures
        bind_view(bind) == bind_address(netns_view(*netns), proxy_view(*proxy)),
{
    match netns {
        Some(ns) => Some(BindAddr { host: ns.host_ip.clone(), port: choose_proxy_port(proxy) }),
        None => None,
    }
}

/// Writes the URL of a proxy at a host and TCP port.
pub fn write_proxy_url(host: &str, port: u16) -> (url: String)
    ensures
        url@ == proxy_url(host@, port),
{
    "http://".to_string().concat(host).concat(":").concat(decimal_text(port).as_str())
}

/// The proxy URL that SSH sessions are given, if any.
pub fn choose_session_proxy_url(
    platform: Platform,
    netns: &Option<Netns>,
    network: &NetworkPolicy,
) -> (url: Option<String>)
    ensures
        url.deep_view() == session_proxy_url(platform, netns_view(*netns), network@),
{
    match &network.mode {
        NetworkMode::Unproxied(_) => {
            return None;
        },
        NetworkMode::Proxy => {},
    }
    if platform == Platform::Linux {
        match netns {
            Some(ns) => Some(
                write_proxy_url(ns.host_ip.as_str(), choose_proxy_port(&network.proxy)),
            ),
            None => None,
        }
    } else {
        match &network.proxy {
            Some(p) => match &p.http_addr {
                Some(addr) => Some(write_proxy_url(addr.host.as_str(), addr.port)),
                None => None,
            },
            None => None,
        }
    }
}

/// The endpoints that are reachable whatever the policy says: the control
/// plane's, if its address could be read.
pub fn control_plane_endpoints<T>(parsed: Option<T>) -> (endpoints: Vec<T>)
    ensures
        endpoints@ == match parsed {
            Some(endpoint) => seq![endpoint],
            None => Seq::empty(),
        },
{
    let mut endpoints: Vec<T> = Vec::new();
    match parsed {
        Some(endpoint) => {
            endpoints.push(endpoint);
        },
        None => {},
    }
    endpoints
}

/// The control plane is reachable exactly where its address could be read, and
/// nothing else is on its account.
pub proof fn law_control_plane_is_reachable<T>(parsed: Option<T>, endpoints: Vec<T>, other: T)
    requires
        call_ensures(control_plane_endpoints::<T>, (parsed,), endpoints),
    ensures
        endpoints@.contains(other) <==> parsed == Some(other),
        endpoints@.len() == 1 <==> parsed is Some,
        endpoints@.len() == 0 <==> parsed is None,
{
    if parsed == Some(other) {
        assert(endpoints@[0] == other);
    }
}

/// On Linux a session is told of the proxy exactly when there is a namespace to
/// reach it from, and the URL names the very address that the proxy is bound
/// to.
pub proof fn law_session_url_is_where_proxy_listens(
    netns: Option<NetnsView>,
    network: NetworkView,
)
    requires
        network.mode is Proxy,
    ensures
        session_proxy_url(Platform::Linux, netns, network) == match bind_address(
            netns,
            network.proxy,
        ) {
            Some(bind) => Some(proxy_url(bind.host, bind.port)),
            None => None,
        },
{
}

/// Off Linux a session is told of the proxy exactly where the policy configures
/// its address, and the URL names that address with its TCP port.
pub proof fn law_session_url_elsewhere_is_the_configured_address(
    platform: Platform,
    netns: Option<NetnsView>,
    network: NetworkView,
)
    requires
        platform != Platform::Linux,
        network.mode is Proxy,
    ensures
        session_proxy_url(platform, netns, network) == match network.proxy {
            Some(ProxyView { http_addr: Some(addr) }) => Some(proxy_url(addr.host, addr.port)),
            _ => None,
        },
{
}

/// The proxy's TCP port is the one that the policy configures, whichever it is,
/// and 3128 where it configures none.
pub proof fn law_proxy_port_is_the_configured_one(proxy: Option<ProxyPolicy>, port: u16)
    requires
        call_ensures(choose_proxy_port, (&proxy,), port),
    ensures
        proxy is Some && proxy->0.http_addr is Some ==> port == proxy->0.http_addr->0.port,
        proxy is None || proxy->0.http_addr is None ==> port == 3128,
{
}

/// The proxy is bound exactly where there is a namespace: to the host's end of
/// its link, at the TCP port that the policy configures, or at 3128.
pub proof fn law_proxy_is_bound_for_the_namespace(
    netns: Option<Netns>,
    proxy: Option<ProxyPolicy>,
    bind: Option<BindAddr>,
)
    requires
        call_ensures(choose_bind_address, (&netns, &proxy), bind),
    ensures
        bind is Some <==> netns is Some,
        bind is Some ==> {
            &&& bind->0.host@ == netns->0.host_ip@
            &&& proxy is Some && proxy->0.http_addr is Some ==> bind->0.port
                == proxy->0.http_addr->0.port
            &&& proxy is None || proxy->0.http_addr is None ==> bind->0.port == 3128
        },
{
}

/// A proxy's URL holds its host as it stands and its TCP port in decimal.
pub proof fn law_proxy_url_names_host_and_port(host: &str, port: u16, url: String)
    requires
        call_ensures(write_proxy_url, (host, port), url),
    ensures
        url@ == "http://"@ + host@ + ":"@ + decimal(port as nat),
        decimal_value(decimal(port as nat)) == port,
{
    law_decimal_reads_back(port as nat);
}

/// A session is told of a proxy only behind a proxied policy. On Linux it is
/// told of the host's end of the namespace's link, with the TCP port that the
/// policy configures or else 3128; elsewhere of the address that the policy
/// configures. Where there is no such thing it is told of none.
pub proof fn law_sessions_are_told_of_their_proxy(
    platform: Platform,
    netns: Option<Netns>,
    network: NetworkPolicy,
    url: Option<String>,
)
    requires
        call_ensures(choose_session_proxy_url, (platform, &netns, &network), url),
    ensures
        ({
            let configured = if network.proxy is Some {
                network.proxy->0.http_addr
            } else {
                None
            };
            let linux = platform == Platform::Linux;
            let port: u16 = if configured is Some {
                configured->0.port
            } else {
                3128
            };
            &&& url is Some <==> {
                &&& network.mode is Proxy
                &&& if linux {
                    netns is Some
                } else {
                    configured is Some
                }
            }
            &&& url is Some && linux ==> url->0@ == "http://"@ + netns->0.host_ip@ + ":"@
                + decimal(port as nat)
            &&& url is Some && !linux ==> url->0@ == "http://"@ + configured->0.host@ + ":"@
                + decimal(port as nat)
        }),
{
    assert(url.deep_view() == session_proxy_url(platform, netns_view(netns), network@));
}

} // verus!
