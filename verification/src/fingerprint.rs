//! Browser fingerprints: what each environment's browser presents itself as.

use vstd::prelude::*;
use vstd::string::StringExecFns;
use rand::Rng;
use crate::api::FingerprintConfig;

verus! {

/// `rand::rng().random_range(low..=high)`: a number drawn from `low..=high`
/// (the crate panics on an empty range, which `requires` rules out). Which
/// number comes out is left to chance, so nothing more is stated.
#[verifier::external_body]
fn random_in_range(low: i32, high: i32) -> (r: i32)
    requires
        low <= high,
    ensures
        low <= r <= high,
{
    rand::rng().random_range(low..=high)
}

/// The Chrome versions that a generated user agent names.
pub open spec fn chrome_version(i: int) -> Seq<char> {
    if i == 0 {
        "120.0.6099.109"@
    } else if i == 1 {
        "121.0.6167.159"@
    } else if i == 2 {
        "122.0.6261.111"@
    } else if i == 3 {
        "123.0.6312.88"@
    } else if i == 4 {
        "124.0.6362.78"@
    } else {
        "125.0.6392.80"@
    }
}

/// How many Chrome versions there are to choose from.
pub const CHROME_VERSION_COUNT: usize = 6;

/// The user agent of a Linux Chrome of the `i`-th version.
pub open spec fn user_agent(i: int) -> Seq<char> {
    "Mozilla/5.0 (X11; Linux x86_64) AppleWebKit/537.36 (KHTML, like Gecko) Chrome/"@
        + chrome_version(i) + " Safari/537.36"@
}

/// One of the user agents that generation picks from.
pub open spec fn is_generated_user_agent(s: Seq<char>) -> bool {
    exists|i: int| 0 <= i < CHROME_VERSION_COUNT && s == #[trigger] user_agent(i)
}

/// The value of an optional setting, or the default.
pub open spec fn setting_or(o: Option<String>, default: Seq<char>) -> Seq<char> {
    match o {
        Some(s) => s@,
        None => default,
    }
}

/// The window size that a setting gives: the setting's bits read as `u32`, or the drawn size.
pub open spec fn size_or(o: Option<i32>, drawn: i32) -> u32 {
    match o {
        Some(w) => #[verifier::truncate] (w as u32),
        None => #[verifier::truncate] (drawn as u32),
    }
}

/// Each field of a fingerprint comes from its own setting alone: the setting's
/// value when the config has one, else the fixed default (for the user agent,
/// the chosen one; for the window, the drawn size), whatever the other settings.
pub proof fn lemma_settings_are_independent(
    f: Fingerprint,
    config: FingerprintConfig,
    choice: int,
    width: i32,
    height: i32,
)
    requires
        f.matches_config(config, choice, width, height),
    ensures
        config.language matches Some(l) ==> f.language@ == l@,
        config.language is None ==> f.language@ == "zh-CN"@,
        config.timezone matches Some(t) ==> f.timezone@ == t@,
        config.timezone is None ==> f.timezone@ == "Asia/Shanghai"@,
        config.platform matches Some(p) ==> f.platform@ == p@,
        config.platform is None ==> f.platform@ == "Linux x86_64"@,
        config.user_agent matches Some(u) ==> f.user_agent@ == u@,
        config.user_agent is None ==> f.user_agent@ == user_agent(choice),
        config.window_width matches Some(w) ==> f.window_width == #[verifier::truncate] (w as u32),
        config.window_width is None ==> f.window_width == #[verifier::truncate] (width as u32),
        config.window_height matches Some(h) ==> f.window_height == #[verifier::truncate] (h as u32),
        config.window_height is None ==> f.window_height == #[verifier::truncate] (height as u32),
        config.canvas matches Some(c) ==> f.canvas@ == c@,
        config.canvas is None ==> f.canvas@ == "2d"@,
        config.webgl_vendor matches Some(v) ==> f.webgl_vendor@ == v@,
        config.webgl_vendor is None ==> f.webgl_vendor@ == "Intel Inc."@,
        config.webgl_renderer matches Some(r) ==> f.webgl_renderer@ == r@,
        config.webgl_renderer is None ==> f.webgl_renderer@ == "Intel Iris OpenGL Engine"@,
        config.audio_context matches Some(a) ==> f.audio_context@ == a@,
        config.audio_context is None ==> f.audio_context@ == "default"@,
        config.webrtc matches Some(w) ==> f.webrtc@ == w@,
        config.webrtc is None ==> f.webrtc@ == "default"@,
{
}

/// The fingerprint of one browser environment.
#[derive(Debug, Clone)]
pub struct Fingerprint {
    pub language: String,
    pub timezone: String,
    pub platform: String,
    pub user_agent: String,
    pub window_width: u32,
    pub window_height: u32,
    pub canvas: String,
    pub webgl_vendor: String,
    pub webgl_renderer: String,
    pub audio_context: String,
    pub webrtc: String,
}

impl Fingerprint {
    /// The fingerprint that `config` asks for, where the unset user agent and
    /// window size are the `user_agent_choice`-th user agent and `width` by `height`.
    pub open spec fn matches_config(
        &self,
        config: FingerprintConfig,
        user_agent_choice: int,
        width: i32,
        height: i32,
    ) -> bool {
        &&& self.language@ == setting_or(config.language, "zh-CN"@)
        &&& self.timezone@ == setting_or(config.timezone, "Asia/Shanghai"@)
        &&& self.platform@ == setting_or(config.platform, "Linux x86_64"@)
        &&& self.user_agent@ == setting_or(config.user_agent, user_agent(user_agent_choice))
        &&& self.window_width == size_or(config.window_width, width)
        &&& self.window_height == size_or(config.window_height, height)
        &&& self.canvas@ == setting_or(config.canvas, "2d"@)
        &&& self.webgl_vendor@ == setting_or(config.webgl_vendor, "Intel Inc."@)
        &&& self.webgl_renderer@ == setting_or(config.webgl_renderer, "Intel Iris OpenGL Engine"@)
        &&& self.audio_context@ == setting_or(config.audio_context, "default"@)
        &&& self.webrtc@ == setting_or(config.webrtc, "default"@)
    }

    /// A fingerprint with the default settings: every fixed default, a generated
    /// user agent and a window between 1920x1080 and 2560x1440.
    pub open spec fn is_default(&self) -> bool {
        &&& self.language@ == "zh-CN"@
        &&& self.timezone@ == "Asia/Shanghai"@
        &&& self.platform@ == "Linux x86_64"@
        &&& is_generated_user_agent(self.user_agent@)
        &&& 1920 <= self.window_width <= 2560
        &&& 1080 <= self.window_height <= 1440
        &&& self.canvas@ == "2d"@
        &&& self.webgl_vendor@ == "Intel Inc."@
        &&& self.webgl_renderer@ == "Intel Iris OpenGL Engine"@
        &&& self.audio_context@ == "default"@
        &&& self.webrtc@ == "default"@
    }
}

impl Default for Fingerprint {
    fn default() -> (f: Self)
        ensures
            f.is_default(),
    {
        let user_agent = FingerprintGenerator::random_user_agent_static();
        let width = random_in_range(1920, 2560);
        let height = random_in_range(1080, 1440);
        Fingerprint {
            language: String::from_str("zh-CN"),
            timezone: String::from_str("Asia/Shanghai"),
            platform: String::from_str("Linux x86_64"),
            user_agent,
            window_width: width as u32,
            window_height: height as u32,
            canvas: String::from_str("2d"),
            webgl_vendor: String::from_str("Intel Inc."),
            webgl_renderer: String::from_str("Intel Iris OpenGL Engine"),
            audio_context: String::from_str("default"),
            webrtc: String::from_str("default"),
        }
    }
}

fn chrome_version_str(i: usize) -> (s: &'static str)
    requires
        i < CHROME_VERSION_COUNT,
    ensures
        s@ == chrome_version(i as int),
{
    if i == 0 {
        "120.0.6099.109"
    } else if i == 1 {
        "121.0.6167.159"
    } else if i == 2 {
        "122.0.6261.111"
    } else if i == 3 {
        "123.0.6312.88"
    } else if i == 4 {
        "124.0.6362.78"
    } else {
        "125.0.6392.80"
    }
}

fn setting(o: &Option<String>, default: &str) -> (s: String)
    ensures
        s@ == setting_or(*o, default@),
{
    match o {
        Some(v) => v.clone(),
        None => String::from_str(default),
    }
}

/// Makes fingerprints for new environments.
#[derive(Debug, Clone, Copy)]
pub struct FingerprintGenerator;

impl Default for FingerprintGenerator {
    fn default() -> (g: Self)
        ensures
            g == FingerprintGenerator,
    {
        FingerprintGenerator::new()
    }
}

impl FingerprintGenerator {
    pub fn new() -> (g: Self) {
        FingerprintGenerator
    }

    /// The user agent of the `choice`-th Chrome version.
    pub fn user_agent_for(choice: usize) -> (s: String)
        requires
            choice < CHROME_VERSION_COUNT,
        ensures
            s@ == user_agent(choice as int),
    {
        let mut s = String::from_str(
            "Mozilla/5.0 (X11; Linux x86_64) AppleWebKit/537.36 (KHTML, like Gecko) Chrome/",
        );
        s.append(chrome_version_str(choice));
        s.append(" Safari/537.36");
        s
    }

    /// The user agent of a Chrome version picked at random.
    pub fn random_user_agent_static() -> (s: String)
        ensures
            is_generated_user_agent(s@),
    {
        let choice = random_in_range(0, 5) as usize;
        let s = Self::user_agent_for(choice);
        assert(s@ == user_agent(choice as int));
        s
    }

    /// The fingerprint that `config` asks for, with the `user_agent_choice`-th
    /// user agent and a `width` by `height` window where `config` leaves them open.
    pub fn fingerprint_from(
        config: &FingerprintConfig,
        user_agent_choice: usize,
        width: i32,
        height: i32,
    ) -> (f: Fingerprint)
        requires
            user_agent_choice < CHROME_VERSION_COUNT,
        ensures
            f.matches_config(*config, user_agent_choice as int, width, height),
    {
        let user_agent = match &config.user_agent {
            Some(u) => u.clone(),
            None => Self::user_agent_for(user_agent_choice),
        };
        let window_width = match config.window_width {
            Some(w) => w,
            None => width,
        };
        let window_height = match config.window_height {
            Some(h) => h,
            None => height,
        };
        Fingerprint {
            language: setting(&config.language, "zh-CN"),
            timezone: setting(&config.timezone, "Asia/Shanghai"),
            platform: setting(&config.platform, "Linux x86_64"),
            user_agent,
            window_width: #[verifier::truncate] (window_width as u32),
            window_height: #[verifier::truncate] (window_height as u32),
            canvas: setting(&config.canvas, "2d"),
            webgl_vendor: setting(&config.webgl_vendor, "Intel Inc."),
            webgl_renderer: setting(&config.webgl_renderer, "Intel Iris OpenGL Engine"),
            audio_context: setting(&config.audio_context, "default"),
            webrtc: setting(&config.webrtc, "default"),
        }
    }

    /// A fingerprint for `config`: what it sets, and for what it leaves open a
    /// random user agent and a random window between 1920x1080 and 2560x1440.
    pub fn generate(&self, config: &FingerprintConfig) -> (f: Fingerprint)
        ensures
            exists|choice: int, width: i32, height: i32|
                0 <= choice < CHROME_VERSION_COUNT && 1920 <= width <= 2560 && 1080 <= height
                    <= 1440 && #[trigger] f.matches_config(*config, choice, width, height),
    {
        let choice = random_in_range(0, 5) as usize;
        let width = random_in_range(1920, 2560);
        let height = random_in_range(1080, 1440);
        let f = Self::fingerprint_from(config, choice, width, height);
        assert(f.matches_config(*config, choice as int, width, height));
        f
    }
}

/// A browser extension that an environment loads.
#[derive(Debug, Clone)]
pub struct ExtensionInfo {
    pub extension_id: String,
    pub name: String,
    pub version: String,
}

} // verus!
