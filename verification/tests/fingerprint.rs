use simprint_runtime::api::FingerprintConfig;
use simprint_runtime::fingerprint::{Fingerprint, FingerprintGenerator, CHROME_VERSION_COUNT};

const VERSIONS: [&str; 6] = [
    "120.0.6099.109",
    "121.0.6167.159",
    "122.0.6261.111",
    "123.0.6312.88",
    "124.0.6362.78",
    "125.0.6392.80",
];

fn ua(v: &str) -> String {
    format!(
        "Mozilla/5.0 (X11; Linux x86_64) AppleWebKit/537.36 (KHTML, like Gecko) Chrome/{} Safari/537.36",
        v
    )
}

fn is_known_ua(s: &str) -> bool {
    VERSIONS.iter().any(|v| ua(v) == s)
}

#[test]
fn user_agents_name_each_version() {
    assert_eq!(CHROME_VERSION_COUNT, 6);
    for (i, v) in VERSIONS.iter().enumerate() {
        assert_eq!(FingerprintGenerator::user_agent_for(i), ua(v));
    }
    for _ in 0..20 {
        assert!(is_known_ua(&FingerprintGenerator::random_user_agent_static()));
    }
}

#[test]
fn empty_config_takes_every_default() {
    let f = FingerprintGenerator::fingerprint_from(&FingerprintConfig::default(), 2, 2000, 1200);
    assert_eq!(f.language, "zh-CN");
    assert_eq!(f.timezone, "Asia/Shanghai");
    assert_eq!(f.platform, "Linux x86_64");
    assert_eq!(f.user_agent, ua("122.0.6261.111"));
    assert_eq!(f.window_width, 2000);
    assert_eq!(f.window_height, 1200);
    assert_eq!(f.canvas, "2d");
    assert_eq!(f.webgl_vendor, "Intel Inc.");
    assert_eq!(f.webgl_renderer, "Intel Iris OpenGL Engine");
    assert_eq!(f.audio_context, "default");
    assert_eq!(f.webrtc, "default");
}

#[test]
fn config_settings_win() {
    let mut c = FingerprintConfig::default();
    c.language = Some("en-US".into());
    c.timezone = Some("UTC".into());
    c.platform = Some("Win32".into());
    c.user_agent = Some("UA".into());
    c.window_width = Some(800);
    c.window_height = Some(-1);
    c.canvas = Some("webgl".into());
    c.webgl_vendor = Some("V".into());
    c.webgl_renderer = Some("R".into());
    c.audio_context = Some("A".into());
    c.webrtc = Some("W".into());
    let f = FingerprintGenerator::fingerprint_from(&c, 0, 1920, 1080);
    assert_eq!(f.language, "en-US");
    assert_eq!(f.timezone, "UTC");
    assert_eq!(f.platform, "Win32");
    assert_eq!(f.user_agent, "UA");
    assert_eq!(f.window_width, 800);
    assert_eq!(f.window_height, u32::MAX);
    assert_eq!(f.canvas, "webgl");
    assert_eq!(f.webgl_vendor, "V");
    assert_eq!(f.webgl_renderer, "R");
    assert_eq!(f.audio_context, "A");
    assert_eq!(f.webrtc, "W");
}

#[test]
fn generated_fingerprints_stay_in_range() {
    let g = FingerprintGenerator::new();
    for _ in 0..50 {
        let f = g.generate(&FingerprintConfig::default());
        assert!((1920..=2560).contains(&f.window_width));
        assert!((1080..=1440).contains(&f.window_height));
        assert!(is_known_ua(&f.user_agent));
        assert_eq!(f.language, "zh-CN");
    }
    let mut c = FingerprintConfig::default();
    c.window_width = Some(1024);
    c.user_agent = Some("mine".into());
    let f = FingerprintGenerator::default().generate(&c);
    assert_eq!(f.window_width, 1024);
    assert_eq!(f.user_agent, "mine");
}

#[test]
fn default_fingerprint() {
    for _ in 0..20 {
        let f = Fingerprint::default();
        assert_eq!(f.language, "zh-CN");
        assert_eq!(f.timezone, "Asia/Shanghai");
        assert_eq!(f.platform, "Linux x86_64");
        assert!(is_known_ua(&f.user_agent));
        assert!((1920..=2560).contains(&f.window_width));
        assert!((1080..=1440).contains(&f.window_height));
        assert_eq!(f.canvas, "2d");
        assert_eq!(f.webrtc, "default");
    }
}
