use navigator_sandbox::network::{
    choose_bind_address, choose_proxy_port, choose_session_proxy_url, control_plane_endpoints,
    write_proxy_url, BindAddr, Netns, Platform, DEFAULT_PROXY_PORT,
};
use navigator_sandbox::policy::{HttpAddr, NetworkMode, NetworkPolicy, ProxyPolicy};
use navigator_sandbox::text::decimal_text;

fn configured() -> Option<ProxyPolicy> {
    Some(ProxyPolicy {
        http_addr: Some(HttpAddr { host: "127.0.0.1".to_string(), port: 8888 }),
    })
}

fn netns() -> Option<Netns> {
    Some(Netns { host_ip: "10.200.0.1".to_string(), ns_fd: Some(9) })
}

fn network(mode: NetworkMode, proxy: Option<ProxyPolicy>) -> NetworkPolicy {
    NetworkPolicy { mode, proxy }
}

#[test]
fn decimal_texts() {
    assert_eq!(decimal_text(0), "0");
    assert_eq!(decimal_text(9), "9");
    assert_eq!(decimal_text(10), "10");
    assert_eq!(decimal_text(3128), "3128");
    assert_eq!(decimal_text(65535), "65535");
    for n in 0..2000u16 {
        assert_eq!(decimal_text(n).parse::<u16>(), Ok(n));
    }
}

#[test]
fn proxy_port_is_configured_or_default() {
    assert_eq!(DEFAULT_PROXY_PORT, 3128);
    assert_eq!(choose_proxy_port(&configured()), 8888);
    assert_eq!(choose_proxy_port(&Some(ProxyPolicy { http_addr: None })), 3128);
    assert_eq!(choose_proxy_port(&None), 3128);
}

#[test]
fn proxy_is_bound_to_the_namespace() {
    assert_eq!(
        choose_bind_address(&netns(), &Some(ProxyPolicy { http_addr: None })),
        Some(BindAddr { host: "10.200.0.1".to_string(), port: 3128 })
    );
    assert_eq!(
        choose_bind_address(&netns(), &configured()),
        Some(BindAddr { host: "10.200.0.1".to_string(), port: 8888 })
    );
    assert_eq!(choose_bind_address(&None, &configured()), None);
}

#[test]
fn proxy_urls() {
    assert_eq!(write_proxy_url("10.200.0.1", 3128), "http://10.200.0.1:3128");
    assert_eq!(write_proxy_url("::1", 80), "http://::1:80");
}

#[test]
fn sessions_on_linux_are_told_of_the_bound_proxy() {
    let policy = network(NetworkMode::Proxy, Some(ProxyPolicy { http_addr: None }));
    assert_eq!(
        choose_session_proxy_url(Platform::Linux, &netns(), &policy),
        Some("http://10.200.0.1:3128".to_string())
    );
    let bind = choose_bind_address(&netns(), &policy.proxy).unwrap();
    assert_eq!(
        choose_session_proxy_url(Platform::Linux, &netns(), &policy),
        Some(write_proxy_url(&bind.host, bind.port))
    );
    assert_eq!(choose_session_proxy_url(Platform::Linux, &None, &policy), None);
}

#[test]
fn sessions_elsewhere_are_told_of_the_configured_address() {
    let policy = network(NetworkMode::Proxy, configured());
    assert_eq!(
        choose_session_proxy_url(Platform::OtherUnix, &None, &policy),
        Some("http://127.0.0.1:8888".to_string())
    );
    let bracketed = HttpAddr { host: "[::1]".to_string(), port: 8080 };
    let v6 = network(
        NetworkMode::Proxy,
        Some(ProxyPolicy { http_addr: Some(bracketed) }),
    );
    assert_eq!(
        choose_session_proxy_url(Platform::NonUnix, &None, &v6),
        Some("http://[::1]:8080".to_string())
    );
    let silent = network(NetworkMode::Proxy, Some(ProxyPolicy { http_addr: None }));
    assert_eq!(choose_session_proxy_url(Platform::OtherUnix, &None, &silent), None);
    let bare = network(NetworkMode::Proxy, None);
    assert_eq!(choose_session_proxy_url(Platform::NonUnix, &None, &bare), None);
}

#[test]
fn unproxied_sessions_are_told_of_no_proxy() {
    let policy = network(NetworkMode::Unproxied("block".to_string()), configured());
    assert_eq!(choose_session_proxy_url(Platform::Linux, &netns(), &policy), None);
    assert_eq!(choose_session_proxy_url(Platform::OtherUnix, &None, &policy), None);
}

#[test]
fn control_plane_has_at_most_one_endpoint() {
    assert_eq!(control_plane_endpoints(Some(("navigator", 8080))), vec![("navigator", 8080)]);
    assert_eq!(control_plane_endpoints::<u8>(None), Vec::<u8>::new());
}
