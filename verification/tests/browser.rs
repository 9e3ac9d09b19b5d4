use simprint_runtime::api::BrowserProxyConfigPayload;
use simprint_runtime::browser::{
    cdp_not_ready, cdp_poll_step, cdp_port_from, chrome_args, chrome_candidates, chrome_programs,
    default_extension_path, extension_args, first_found, first_some, launch_extension_args,
    pick_chrome, proxy_arg, random_cdp_port, BrowserManager, CdpPoll, CDP_POLL_ATTEMPTS,
};
use simprint_runtime::cdp_client::CdpClient;
use simprint_runtime::fingerprint::{Fingerprint, FingerprintGenerator};
use simprint_runtime::api::FingerprintConfig;

fn fingerprint() -> Fingerprint {
    let mut c = FingerprintConfig::default();
    c.user_agent = Some("UA/1".into());
    FingerprintGenerator::fingerprint_from(&c, 0, 1920, 1080)
}

fn proxy(t: Option<&str>, server: Option<&str>, port: Option<u16>) -> BrowserProxyConfigPayload {
    BrowserProxyConfigPayload {
        proxy_type: t.map(String::from),
        server: server.map(String::from),
        port,
        username: None,
        password: None,
    }
}

#[test]
fn chrome_arguments_without_proxy() {
    let args = chrome_args(&"/data/env1".to_string(), 9333, &fingerprint(), None);
    let expected: Vec<String> = [
        "--user-data-dir=/data/env1",
        "--remote-debugging-port=9333",
        "--window-size=1920,1080",
        "--lang=zh-CN",
        "--headless=new",
        "--no-sandbox",
        "--disable-setuid-sandbox",
        "--disable-dev-shm-usage",
        "--disable-blink-features=AutomationControlled",
        "--disable-infobars",
        "--mute-audio",
        "--remote-debugging-address=127.0.0.1",
        "--remote-allow-origins=*",
        "--user-agent=UA/1",
        "--timezone=Asia/Shanghai",
        "--platform=Linux x86_64",
    ]
    .iter()
    .map(|s| s.to_string())
    .collect();
    assert_eq!(args, expected);
}

#[test]
fn chrome_arguments_with_proxy() {
    let p = proxy(Some("socks5"), Some("10.0.0.1"), Some(1080));
    let args = chrome_args(&"/d".to_string(), 9200, &fingerprint(), Some(&p));
    assert_eq!(args.len(), 17);
    assert_eq!(args[13], "--proxy-server=socks5://10.0.0.1:1080");
    assert_eq!(args[14], "--user-agent=UA/1");
}

#[test]
fn proxy_argument_needs_server_and_port() {
    assert_eq!(
        proxy_arg(Some(&proxy(None, Some("h"), Some(8080)))),
        Some("--proxy-server=http://h:8080".to_string())
    );
    assert_eq!(proxy_arg(Some(&proxy(Some("http"), None, Some(8080)))), None);
    assert_eq!(proxy_arg(Some(&proxy(Some("http"), Some("h"), None))), None);
    assert_eq!(proxy_arg(None), None);
}

#[test]
fn extension_arguments_keep_existing_dirs() {
    let dirs = vec!["/a".to_string(), "/b".to_string(), "/c".to_string()];
    assert_eq!(
        extension_args(&dirs, &vec![true, false, true]),
        vec!["--load-extension=/a".to_string(), "--load-extension=/c".to_string()]
    );
    assert!(extension_args(&dirs, &vec![false, false, false]).is_empty());
    assert!(extension_args(&vec![], &vec![]).is_empty());
}

#[test]
fn chrome_candidate_paths() {
    assert_eq!(
        chrome_candidates(),
        vec![
            "/usr/bin/google-chrome".to_string(),
            "/usr/bin/google-chrome-stable".to_string(),
            "/usr/bin/chromium-browser".to_string(),
            "/usr/bin/chromium".to_string(),
            "/snap/bin/chromium".to_string(),
        ]
    );
    assert_eq!(chrome_programs(), vec!["google-chrome".to_string(), "chromium-browser".to_string()]);
    assert_eq!(first_found(&vec![false, true, true]), Some(1));
    assert_eq!(first_found(&vec![false, false]), None);
    assert_eq!(first_found(&vec![]), None);
}

#[test]
fn cdp_ports() {
    assert_eq!(cdp_port_from(0), 9200);
    assert_eq!(cdp_port_from(999), 10199);
    assert_eq!(cdp_port_from(1000), 9200);
    assert_eq!(cdp_port_from(65535), 9735);
    for _ in 0..100 {
        let p = random_cdp_port();
        assert!((9200..10200).contains(&p));
    }
}

#[test]
fn chrome_path_resolution() {
    let found = BrowserManager::new(Some("/usr/bin/chromium".to_string()));
    let none = BrowserManager::new(None);
    let exe = "/opt/chrome".to_string();
    assert_eq!(found.resolve_chrome_path(None, false), Ok("/usr/bin/chromium".to_string()));
    assert_eq!(found.resolve_chrome_path(Some(&exe), true), Ok("/opt/chrome".to_string()));
    assert_eq!(
        found.resolve_chrome_path(Some(&exe), false),
        Err("Specified Chrome path not found: /opt/chrome".to_string())
    );
    assert_eq!(
        none.resolve_chrome_path(None, true),
        Err("Chrome not found. Please install chromium-browser or google-chrome".to_string())
    );
}

#[test]
fn launch_plan() {
    let m = BrowserManager::new(Some("/usr/bin/chromium".to_string()));
    let dirs = vec!["/ext".to_string()];
    let plan = m
        .plan_launch_on(&"/u".to_string(), None, &fingerprint(), Some(&dirs), &vec![true], true, None, false, 9444)
        .unwrap();
    assert_eq!(plan.chrome_path, "/usr/bin/chromium");
    assert_eq!(plan.cdp_port, 9444);
    assert_eq!(plan.args.len(), 17);
    assert_eq!(plan.args[1], "--remote-debugging-port=9444");
    assert_eq!(plan.args[16], "--load-extension=/ext");
    let plan = m
        .plan_launch(&"/u".to_string(), None, &fingerprint(), None, &vec![], false, None, false)
        .unwrap();
    assert!((9200..10200).contains(&plan.cdp_port));
    assert_eq!(plan.args[1], format!("--remote-debugging-port={}", plan.cdp_port));
    let none = BrowserManager::new(None);
    assert!(none
        .plan_launch(&"/u".to_string(), None, &fingerprint(), None, &vec![], false, None, false)
        .is_err());
}

#[test]
fn cdp_polling() {
    assert_eq!(CDP_POLL_ATTEMPTS, 30);
    assert_eq!(cdp_poll_step(0, true), CdpPoll::Ready);
    assert_eq!(cdp_poll_step(0, false), CdpPoll::Retry);
    assert_eq!(cdp_poll_step(28, false), CdpPoll::Retry);
    assert_eq!(cdp_poll_step(29, false), CdpPoll::GiveUp);
    assert_eq!(cdp_poll_step(u32::MAX, false), CdpPoll::GiveUp);
    assert_eq!(cdp_not_ready(), "CDP did not become ready in time");
}

#[test]
fn cdp_client_endpoints() {
    let c = CdpClient::new("localhost", 9222);
    assert_eq!(c.endpoint("/version"), "http://localhost:9222/json/version");
    assert_eq!(c.endpoint(""), "http://localhost:9222/json");
}

#[test]
fn bundled_extension_loads_when_no_dirs_are_requested() {
    assert_eq!(default_extension_path(), "extensions/bypass-paywalls-chrome-clean-master/");
    let bpc = "--load-extension=extensions/bypass-paywalls-chrome-clean-master/".to_string();
    assert_eq!(launch_extension_args(None, &vec![], true), vec![bpc.clone()]);
    assert!(launch_extension_args(None, &vec![], false).is_empty());
    let dirs = vec!["/x".to_string()];
    assert_eq!(
        launch_extension_args(Some(&dirs), &vec![true], true),
        vec!["--load-extension=/x".to_string()]
    );
    let m = BrowserManager::new(Some("/c".to_string()));
    let plan = m
        .plan_launch_on(&"/u".to_string(), None, &fingerprint(), None, &vec![], true, None, false, 9300)
        .unwrap();
    assert_eq!(plan.args.len(), 17);
    assert_eq!(plan.args[16], bpc);
    let plan = m
        .plan_launch_on(&"/u".to_string(), None, &fingerprint(), None, &vec![], false, None, false, 9300)
        .unwrap();
    assert_eq!(plan.args.len(), 16);
}

#[test]
fn chrome_is_picked_from_paths_then_search_path() {
    let c = chrome_candidates();
    let none = vec![false; 5];
    let mut some = vec![false; 5];
    some[3] = true;
    let lookups = vec![None, Some("/opt/bin/chromium-browser".to_string())];
    assert_eq!(pick_chrome(&c, &some, &lookups), Some("/usr/bin/chromium".to_string()));
    assert_eq!(pick_chrome(&c, &none, &lookups), Some("/opt/bin/chromium-browser".to_string()));
    let both = vec![Some("/a/google-chrome".to_string()), Some("/b".to_string())];
    assert_eq!(pick_chrome(&c, &none, &both), Some("/a/google-chrome".to_string()));
    assert_eq!(pick_chrome(&c, &none, &vec![None, None]), None);
    assert_eq!(first_some(&lookups), Some(1));
    assert_eq!(first_some(&vec![None, None]), None);
}
