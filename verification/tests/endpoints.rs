use task_lifecycle::endpoints::{
    base_url, base_url_is_custom, configured_endpoints, parse_dotenv, set_dev_mode,
    AGENT_IDENTITY_WS_URL, API_HOST, BASE_URL, DEV_BASE_URL, WS_URL, XLAYER_RPC_URL,
};

#[test]
fn compiled_endpoints_have_expected_schemes() {
    assert!(BASE_URL.starts_with("http://") || BASE_URL.starts_with("https://"));
    assert_eq!(DEV_BASE_URL, "https://beta.okex.org");
    assert_eq!(API_HOST, "web3.okx.com");
    assert!(
        AGENT_IDENTITY_WS_URL.starts_with("ws://") || AGENT_IDENTITY_WS_URL.starts_with("wss://")
    );
    assert!(WS_URL.starts_with("ws://") || WS_URL.starts_with("wss://"));
    assert_eq!(XLAYER_RPC_URL, "https://rpc.xlayer.tech");
}

#[test]
fn no_configuration_means_the_defaults() {
    let endpoints = configured_endpoints(None);
    assert_eq!(base_url(&endpoints), BASE_URL);
    assert!(!base_url_is_custom(&endpoints));
    assert_eq!(endpoints.agent_identity_ws_url, AGENT_IDENTITY_WS_URL);
    assert_eq!(endpoints.ws_url, WS_URL);
}

#[test]
fn development_switch_is_undone() {
    let mut endpoints = configured_endpoints(Some("OKX_BASE_URL=https://example.test\n"));
    assert_eq!(base_url(&endpoints), "https://example.test");
    assert!(base_url_is_custom(&endpoints));
    set_dev_mode(&mut endpoints, true);
    assert_eq!(base_url(&endpoints), DEV_BASE_URL);
    assert!(base_url_is_custom(&endpoints));
    set_dev_mode(&mut endpoints, false);
    assert_eq!(base_url(&endpoints), "https://example.test");

    let mut plain = configured_endpoints(None);
    set_dev_mode(&mut plain, true);
    assert!(base_url_is_custom(&plain));
    set_dev_mode(&mut plain, false);
    assert!(!base_url_is_custom(&plain));
}

#[test]
fn configuration_lines_are_trimmed_and_unquoted() {
    let bindings = parse_dotenv(
        "# comment\r\n\n  OKX_BASE_URL = \"https://a.test\"  \nno equals sign\nK='v=w'\n=\nlast='\"x",
    );
    assert_eq!(
        bindings,
        vec![
            ("OKX_BASE_URL".to_string(), "https://a.test".to_string()),
            ("K".to_string(), "v=w".to_string()),
            ("".to_string(), "".to_string()),
            ("last".to_string(), "x".to_string()),
        ]
    );
}

#[test]
fn last_binding_wins_and_an_empty_one_means_the_default() {
    let replaced = configured_endpoints(Some(
        "OKX_BASE_URL=https://a.test\nOKX_BASE_URL=https://b.test\nONCHAINOS_WS_URL=ws://c.test\nOKX_AGENTIC_WS_URL=ws://d.test",
    ));
    assert_eq!(replaced.base_url, "https://b.test");
    assert_eq!(replaced.ws_url, "ws://c.test");
    assert_eq!(replaced.agent_identity_ws_url, "ws://d.test");

    let emptied = configured_endpoints(Some("OKX_BASE_URL=https://a.test\nOKX_BASE_URL=''\n"));
    assert_eq!(emptied.base_url, BASE_URL);
    assert!(!emptied.base_url_configured);
}

#[test]
fn other_keys_are_not_read() {
    let endpoints = configured_endpoints(Some("OKX_SECRET=x\nBASE_URL=https://a.test\n"));
    assert_eq!(endpoints, configured_endpoints(None));
}
