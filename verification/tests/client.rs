use request_core::bridge::Timeout;
use request_core::client::{
    Certificate, ClientBuilder, Config, Identity, Intercept, Policy, Preconfigured, Proxy,
    TlsBackend,
};
use request_core::headers::HeaderMap;
use request_core::time::Span;
use request_core::url::Url;

#[test]
fn defaults() {
    let b = ClientBuilder::new();
    assert_eq!(b.timeout, Timeout(Some(Span::from_secs(30))));
    let c = &b.inner;
    assert!(c.headers.is_empty() && c.proxies.is_empty() && c.root_certs.is_empty());
    assert!(!c.cookie_store && c.gzip && c.referer && c.auto_sys_proxy && c.nodelay);
    assert_eq!(c.redirect_policy, Policy::Limited(10));
    assert_eq!(c.connect_timeout, None);
    assert_eq!(c.pool_idle_timeout, Some(Span::from_secs(90)));
    assert_eq!(c.pool_max_idle_per_host, usize::MAX);
    assert!(!c.connection_verbose && !c.http1_title_case_headers && !c.http2_only && !c.trust_dns);
    assert_eq!(c.http2_initial_stream_window_size, None);
    assert_eq!(c.http2_initial_connection_window_size, None);
    assert!(c.identity.is_none() && c.hostname_verification && c.certs_verification);
    assert_eq!(c.tls, TlsBackend::Default);
    assert_eq!(ClientBuilder::default().timeout, Timeout(Some(Span::from_secs(30))));
    assert!(Config::new().gzip);
}

#[test]
fn each_setter_sets_its_setting() {
    let b = ClientBuilder::new()
        .cookie_store(true)
        .gzip(false)
        .redirect(Policy::NoRedirects)
        .referer(false)
        .timeout(Some(Span::from_millis(10)))
        .connect_timeout(Some(Span::from_secs(2)))
        .connection_verbose(true)
        .pool_idle_timeout(None)
        .pool_max_idle_per_host(4)
        .http1_title_case_headers()
        .http2_prior_knowledge()
        .http2_initial_stream_window_size(Some(65_535))
        .http2_initial_connection_window_size(Some(1 << 20))
        .tcp_nodelay_(false)
        .danger_accept_invalid_hostnames(true)
        .danger_accept_invalid_certs(true)
        .use_rustls_tls()
        .trust_dns(true)
        .use_sys_proxy();
    assert_eq!(b.timeout, Timeout(Some(Span::from_millis(10))));
    let c = &b.inner;
    assert!(c.cookie_store && !c.gzip && !c.referer && c.connection_verbose);
    assert_eq!(c.redirect_policy, Policy::NoRedirects);
    assert_eq!(c.connect_timeout, Some(Span::from_secs(2)));
    assert_eq!(c.pool_idle_timeout, None);
    assert_eq!(c.pool_max_idle_per_host, 4);
    assert!(c.http1_title_case_headers && c.http2_only && !c.nodelay && c.trust_dns);
    assert_eq!(c.http2_initial_stream_window_size, Some(65_535));
    assert_eq!(c.http2_initial_connection_window_size, Some(1 << 20));
    assert!(!c.hostname_verification && !c.certs_verification);
    assert_eq!(c.tls, TlsBackend::Rustls);
    assert!(c.auto_sys_proxy);

    let b = b
        .connect_timeout(None)
        .gzip(true)
        .no_gzip()
        .trust_dns(true)
        .no_trust_dns()
        .tcp_nodelay()
        .max_idle_per_host(9)
        .use_native_tls()
        .timeout(None);
    let c = &b.inner;
    assert_eq!(c.connect_timeout, Some(Span::from_secs(2)));
    assert!(!c.gzip && !c.trust_dns && c.nodelay);
    assert_eq!(c.pool_max_idle_per_host, 9);
    assert_eq!(c.tls, TlsBackend::Native);
    assert_eq!(b.timeout, Timeout(None));
}

#[test]
fn proxies_certificates_identity_and_headers() {
    let proxy = |host: &str| Proxy { intercept: Intercept::All, url: Url::parse(host).unwrap() };
    let b = ClientBuilder::new().proxy(proxy("http://p1.example/")).proxy(proxy("http://p2.example/"));
    assert!(!b.inner.auto_sys_proxy);
    let urls: Vec<&str> = b.inner.proxies.iter().map(|p| p.url.as_str()).collect();
    assert_eq!(urls, vec!["http://p1.example/", "http://p2.example/"]);
    let b = b.no_proxy();
    assert!(b.inner.proxies.is_empty() && !b.inner.auto_sys_proxy);

    let b = b
        .add_root_certificate(Certificate { der: vec![1, 2] })
        .add_root_certificate(Certificate { der: vec![3] })
        .identity(Identity { archive: vec![9], password: "pw".to_string() });
    assert_eq!(b.inner.root_certs.len(), 2);
    assert_eq!(b.inner.root_certs[1].der, vec![3]);
    assert_eq!(b.inner.identity.as_ref().unwrap().password, "pw");

    let mut first = HeaderMap::new();
    first.append("accept".to_string(), b"*/*".to_vec(), false);
    first.append("x-keep".to_string(), b"1".to_vec(), false);
    let mut second = HeaderMap::new();
    second.append("accept".to_string(), b"text/html".to_vec(), false);
    second.append("accept".to_string(), b"text/plain".to_vec(), false);
    let b = b.default_headers(first).default_headers(second);
    assert_eq!(b.inner.headers.len(), 3);
    assert_eq!(b.inner.headers.get("x-keep").unwrap(), b"1");
    let accept: Vec<Vec<u8>> = b.inner.headers.get_all("accept").into_iter().map(|e| e.value).collect();
    assert_eq!(accept, vec![b"text/html".to_vec(), b"text/plain".to_vec()]);

    let (client, config) = b.timeout(Some(Span::from_secs(1))).build().unwrap();
    assert_eq!(client.timeout, Timeout(Some(Span::from_secs(1))));
    assert_eq!(config.root_certs.len(), 2);
}

#[test]
fn user_agent_is_a_default_header_or_an_error() {
    let b = ClientBuilder::new().user_agent(b"first/1.0").user_agent(b"second/2.0");
    assert_eq!(b.inner.headers.get_all("user-agent").len(), 1);
    assert_eq!(b.inner.headers.get("user-agent").unwrap(), b"second/2.0");
    assert!(b.inner.error.is_none());
    assert!(b.build().is_ok());

    let b = ClientBuilder::new().user_agent(b"fine/1").user_agent(b"bad\nagent").gzip(false);
    assert_eq!(b.inner.headers.get("user-agent").unwrap(), b"fine/1");
    let err = b.build().unwrap_err();
    assert!(err.is_builder());
    assert!(matches!(err.cause, request_core::error::Cause::Other(ref m) if m == "failed to parse header value"));
}

#[test]
fn builder_over_given_settings() {
    let (_, config) = ClientBuilder::new().referer(false).build().unwrap();
    let b = ClientBuilder::from(config);
    assert!(!b.inner.referer);
    assert_eq!(b.timeout, Timeout(Some(Span::from_secs(30))));
}

#[test]
fn preconfigured_tls_is_taken_where_it_is_known() {
    assert_eq!(ClientBuilder::new().use_preconfigured_tls(Preconfigured::NativeTls).inner.tls, TlsBackend::BuiltNative);
    assert_eq!(ClientBuilder::new().use_preconfigured_tls(Preconfigured::Rustls).inner.tls, TlsBackend::BuiltRustls);
    let b = ClientBuilder::new().use_rustls_tls().use_preconfigured_tls(Preconfigured::Unknown);
    assert_eq!(b.inner.tls, TlsBackend::Rustls);
    let err = b.build().unwrap_err();
    assert!(err.is_builder());
    assert!(matches!(err.cause, request_core::error::Cause::Other(ref m) if m.contains("use_preconfigured_tls")));
}
