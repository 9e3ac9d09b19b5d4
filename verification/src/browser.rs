//! The browser launch plan: which Chrome to run, on which CDP port, with which
//! command-line arguments.
//!
//! Looking at the file system, spawning the process and waiting for it are the
//! program's part; the choices are made here.

use vstd::prelude::*;
use vstd::string::StringExecFns;
use crate::api::BrowserProxyConfigPayload;
use crate::fingerprint::Fingerprint;
use crate::text::{decimal, push_decimal, names_number, lemma_decimal_names};

verus! {

/// `rand::random::<u16>()`: a number drawn at random; any `u16` can come out.
#[verifier::external_body]
fn random_u16() -> (r: u16) {
    rand::random::<u16>()
}

/// The places looked at for Chrome, in order of preference.
pub open spec fn chrome_candidate(i: int) -> Seq<char> {
    if i == 0 {
        "/usr/bin/google-chrome"@
    } else if i == 1 {
        "/usr/bin/google-chrome-stable"@
    } else if i == 2 {
        "/usr/bin/chromium-browser"@
    } else if i == 3 {
        "/usr/bin/chromium"@
    } else {
        "/snap/bin/chromium"@
    }
}

/// The program names looked up on the search path when no candidate exists, in order.
pub open spec fn chrome_program(i: int) -> Seq<char> {
    if i == 0 {
        "google-chrome"@
    } else {
        "chromium-browser"@
    }
}

/// The places looked at for Chrome, most preferred first.
pub fn chrome_candidates() -> (r: Vec<String>)
    ensures
        r@.len() == 5,
        forall|i: int| 0 <= i < 5 ==> #[trigger] r@[i]@ == chrome_candidate(i),
{
    let mut r: Vec<String> = Vec::new();
    r.push(String::from_str("/usr/bin/google-chrome"));
    r.push(String::from_str("/usr/bin/google-chrome-stable"));
    r.push(String::from_str("/usr/bin/chromium-browser"));
    r.push(String::from_str("/usr/bin/chromium"));
    r.push(String::from_str("/snap/bin/chromium"));
    r
}

/// The program names looked up on the search path, in order.
pub fn chrome_programs() -> (r: Vec<String>)
    ensures
        r@.len() == 2,
        forall|i: int| 0 <= i < 2 ==> #[trigger] r@[i]@ == chrome_program(i),
{
    let mut r: Vec<String> = Vec::new();
    r.push(String::from_str("google-chrome"));
    r.push(String::from_str("chromium-browser"));
    r
}

/// The index of the first entry that was found, if any.
pub fn first_found(found: &Vec<bool>) -> (r: Option<usize>)
    ensures
        match r {
            Some(i) => i < found@.len() && found@[i as int] && forall|j: int|
                0 <= j < i ==> !#[trigger] found@[j],
            None => forall|j: int| 0 <= j < found@.len() ==> !#[trigger] found@[j],
        },
{
    let mut i: usize = 0;
    while i < found.len()
        invariant
            i <= found@.len(),
            forall|j: int| 0 <= j < i ==> !#[trigger] found@[j],
        decreases found@.len() - i,
    {
        if found[i] {
            return Some(i);
        }
        i = i + 1;
    }
    None
}

/// The index of the first lookup that found something, if any.
pub fn first_some(lookups: &Vec<Option<String>>) -> (r: Option<usize>)
    ensures
        match r {
            Some(i) => i < lookups@.len() && lookups@[i as int] is Some && forall|j: int|
                0 <= j < i ==> #[trigger] lookups@[j] is None,
            None => forall|j: int| 0 <= j < lookups@.len() ==> #[trigger] lookups@[j] is None,
        },
{
    let mut i: usize = 0;
    while i < lookups.len()
        invariant
            i <= lookups@.len(),
            forall|j: int| 0 <= j < i ==> #[trigger] lookups@[j] is None,
        decreases lookups@.len() - i,
    {
        if lookups[i].is_some() {
            return Some(i);
        }
        i = i + 1;
    }
    None
}

/// Where Chrome is: the first candidate path that exists (`found` says which
/// do), and when none does, the first of the search-path `lookups` (one per
/// program of `chrome_programs`, in order) that found it.
pub fn pick_chrome(
    candidates: &Vec<String>,
    found: &Vec<bool>,
    lookups: &Vec<Option<String>>,
) -> (r: Option<String>)
    requires
        found@.len() == candidates@.len(),
    ensures
        match first_index(found@) {
            Some(i) => r matches Some(c) && c@ == candidates@[i]@,
            None => match first_some_index(lookups@) {
                Some(j) => r matches Some(c) && lookups@[j] matches Some(l) && c@ == l@,
                None => r is None,
            },
        },
{
    match first_found(found) {
        Some(i) => Some(candidates[i].clone()),
        None => match first_some(lookups) {
            Some(j) => match &lookups[j] {
                Some(l) => Some(l.clone()),
                None => None,
            },
            None => None,
        },
    }
}

/// The index of the first `true`, if any.
pub open spec fn first_index(found: Seq<bool>) -> Option<int> {
    if exists|i: int| 0 <= i < found.len() && #[trigger] found[i] {
        Some(choose|i: int| 0 <= i < found.len() && found[i] && forall|j: int| 0 <= j < i ==> !#[trigger] found[j])
    } else {
        None
    }
}

/// The index of the first lookup that found something, if any.
pub open spec fn first_some_index(lookups: Seq<Option<String>>) -> Option<int> {
    if exists|i: int| 0 <= i < lookups.len() && #[trigger] lookups[i] is Some {
        Some(choose|i: int| 0 <= i < lookups.len() && lookups[i] is Some && forall|j: int| 0 <= j < i ==> #[trigger] lookups[j] is None)
    } else {
        None
    }
}

/// The CDP port that a random draw `r` stands for.
pub open spec fn port_of_draw(r: u16) -> u16 {
    (r % 1000 + 9200) as u16
}

/// The CDP port for a random draw: one of 9200 to 10199.
pub fn cdp_port_from(r: u16) -> (p: u16)
    ensures
        p == port_of_draw(r),
        9200 <= p < 10200,
{
    r % 1000 + 9200
}

/// Draws a CDP port at random from 9200 to 10199.
pub fn random_cdp_port() -> (p: u16)
    ensures
        9200 <= p < 10200,
{
    cdp_port_from(random_u16())
}

/// `{proxy_type}://{server}:{port}`, the type being `http` when unset.
pub open spec fn proxy_url(proxy_type: Option<String>, server: Seq<char>, port: u16) -> Seq<char> {
    (match proxy_type {
        Some(t) => t@,
        None => "http"@,
    }) + "://"@ + server + ":"@ + decimal(port as nat)
}

/// The `--proxy-server` argument, when the proxy names both a server and a port.
pub open spec fn proxy_args(proxy: Option<BrowserProxyConfigPayload>) -> Seq<Seq<char>> {
    match proxy {
        Some(p) => match (p.server, p.port) {
            (Some(server), Some(port)) => seq![
                "--proxy-server="@ + proxy_url(p.proxy_type, server@, port),
            ],
            _ => Seq::empty(),
        },
        None => Seq::empty(),
    }
}

/// The arguments Chrome is started with, before the extension arguments.
pub open spec fn chrome_args_spec(
    user_data_dir: Seq<char>,
    cdp_port: u16,
    fingerprint: Fingerprint,
    proxy: Option<BrowserProxyConfigPayload>,
) -> Seq<Seq<char>> {
    seq![
        "--user-data-dir="@ + user_data_dir,
        "--remote-debugging-port="@ + decimal(cdp_port as nat),
        "--window-size="@ + decimal(fingerprint.window_width as nat) + ","@ + decimal(
            fingerprint.window_height as nat,
        ),
        "--lang="@ + fingerprint.language@,
        "--headless=new"@,
        "--no-sandbox"@,
        "--disable-setuid-sandbox"@,
        "--disable-dev-shm-usage"@,
        "--disable-blink-features=AutomationControlled"@,
        "--disable-infobars"@,
        "--mute-audio"@,
        "--remote-debugging-address=127.0.0.1"@,
        "--remote-allow-origins=*"@,
    ] + proxy_args(proxy) + seq![
        "--user-agent="@ + fingerprint.user_agent@,
        "--timezone="@ + fingerprint.timezone@,
        "--platform="@ + fingerprint.platform@,
    ]
}

/// `--load-extension={dir}` for each extension directory that exists, in order.
pub open spec fn extension_args_spec(dirs: Seq<String>, exists: Seq<bool>) -> Seq<Seq<char>>
    decreases dirs.len(),
{
    if dirs.len() == 0 {
        Seq::empty()
    } else {
        extension_args_spec(dirs.drop_last(), exists.drop_last()) + if exists.last() {
            seq!["--load-extension="@ + dirs.last()@]
        } else {
            Seq::empty()
        }
    }
}

/// The strings of a vector of strings.
pub open spec fn strings_view(v: Seq<String>) -> Seq<Seq<char>> {
    v.map_values(|s: String| s@)
}

fn arg(prefix: &str, value: &String) -> (s: String)
    ensures
        s@ == prefix@ + value@,
{
    let mut s = String::from_str(prefix);
    s.append(value.as_str());
    s
}

fn push_arg(args: &mut Vec<String>, s: String)
    ensures
        strings_view(final(args)@) == strings_view(old(args)@).push(s@),
{
    args.push(s);
    assert(strings_view(args@) =~= strings_view(old(args)@).push(s@));
}

/// The argument that points Chrome at a proxy, if the proxy names a server and a port.
pub fn proxy_arg(proxy: Option<&BrowserProxyConfigPayload>) -> (r: Option<String>)
    ensures
        match proxy {
            Some(p) => match (p.server, p.port) {
                (Some(server), Some(port)) => r matches Some(a) && a@ == "--proxy-server="@
                    + proxy_url(p.proxy_type, server@, port),
                _ => r is None,
            },
            None => r is None,
        },
{
    match proxy {
        Some(p) => match (&p.server, p.port) {
            (Some(server), Some(port)) => {
                let mut s = String::from_str("--proxy-server=");
                match &p.proxy_type {
                    Some(t) => s.append(t.as_str()),
                    None => s.append("http"),
                }
                s.append("://");
                s.append(server.as_str());
                s.append(":");
                push_decimal(&mut s, port as u64);
                Some(s)
            },
            _ => None,
        },
        None => None,
    }
}

/// The arguments Chrome is started with, before the extension arguments.
pub fn chrome_args(
    user_data_dir: &String,
    cdp_port: u16,
    fingerprint: &Fingerprint,
    proxy: Option<&BrowserProxyConfigPayload>,
) -> (r: Vec<String>)
    ensures
        strings_view(r@) == chrome_args_spec(
            user_data_dir@,
            cdp_port,
            *fingerprint,
            match proxy {
                Some(p) => Some(*p),
                None => None,
            },
        ),
{
    let mut args: Vec<String> = Vec::new();
    push_arg(&mut args, arg("--user-data-dir=", user_data_dir));
    let mut port_arg = String::from_str("--remote-debugging-port=");
    push_decimal(&mut port_arg, cdp_port as u64);
    push_arg(&mut args, port_arg);
    let mut size_arg = String::from_str("--window-size=");
    push_decimal(&mut size_arg, fingerprint.window_width as u64);
    size_arg.append(",");
    push_decimal(&mut size_arg, fingerprint.window_height as u64);
    push_arg(&mut args, size_arg);
    push_arg(&mut args, arg("--lang=", &fingerprint.language));
    push_arg(&mut args, String::from_str("--headless=new"));
    push_arg(&mut args, String::from_str("--no-sandbox"));
    push_arg(&mut args, String::from_str("--disable-setuid-sandbox"));
    push_arg(&mut args, String::from_str("--disable-dev-shm-usage"));
    push_arg(&mut args, String::from_str("--disable-blink-features=AutomationControlled"));
    push_arg(&mut args, String::from_str("--disable-infobars"));
    push_arg(&mut args, String::from_str("--mute-audio"));
    push_arg(&mut args, String::from_str("--remote-debugging-address=127.0.0.1"));
    push_arg(&mut args, String::from_str("--remote-allow-origins=*"));
    let ghost base = strings_view(args@);
    let ghost p = match proxy {
        Some(p) => Some(*p),
        None => None::<BrowserProxyConfigPayload>,
    };
    match proxy_arg(proxy) {
        Some(a) => push_arg(&mut args, a),
        None => {},
    }
    assert(strings_view(args@) =~= base + proxy_args(p));
    push_arg(&mut args, arg("--user-agent=", &fingerprint.user_agent));
    push_arg(&mut args, arg("--timezone=", &fingerprint.timezone));
    push_arg(&mut args, arg("--platform=", &fingerprint.platform));
    assert(strings_view(args@) =~= chrome_args_spec(user_data_dir@, cdp_port, *fingerprint, p));
    args
}

/// `--load-extension={dir}` for each directory whose entry in `exists` is true.
pub fn extension_args(dirs: &Vec<String>, exists: &Vec<bool>) -> (r: Vec<String>)
    requires
        exists@.len() == dirs@.len(),
    ensures
        strings_view(r@) == extension_args_spec(dirs@, exists@),
{
    let mut r: Vec<String> = Vec::new();
    let mut i: usize = 0;
    while i < dirs.len()
        invariant
            i <= dirs@.len(),
            exists@.len() == dirs@.len(),
            strings_view(r@) == extension_args_spec(dirs@.take(i as int), exists@.take(i as int)),
        decreases dirs@.len() - i,
    {
        if exists[i] {
            push_arg(&mut r, arg("--load-extension=", &dirs[i]));
        }
        i = i + 1;
        proof {
            let d = dirs@.take(i as int);
            let e = exists@.take(i as int);
            assert(d.drop_last() =~= dirs@.take(i - 1));
            assert(e.drop_last() =~= exists@.take(i - 1));
            assert(strings_view(r@) =~= extension_args_spec(d, e));
        }
    }
    assert(dirs@.take(dirs@.len() as int) =~= dirs@);
    assert(exists@.take(exists@.len() as int) =~= exists@);
    r
}

/// The directory of the Bypass Paywalls Clean extension that ships with the runtime.
pub open spec fn default_extension_dir() -> Seq<char> {
    "extensions/bypass-paywalls-chrome-clean-master/"@
}

/// The extension arguments of a launch: those of the requested directories that
/// exist; with no requested directories, the bundled extension if it exists.
pub open spec fn launch_extension_args_spec(
    dirs: Option<Seq<String>>,
    exists: Seq<bool>,
    default_exists: bool,
) -> Seq<Seq<char>> {
    match dirs {
        Some(d) => extension_args_spec(d, exists),
        None => if default_exists {
            seq!["--load-extension="@ + default_extension_dir()]
        } else {
            Seq::empty()
        },
    }
}

/// The directory of the bundled Bypass Paywalls Clean extension.
pub fn default_extension_path() -> (s: String)
    ensures
        s@ == default_extension_dir(),
{
    String::from_str("extensions/bypass-paywalls-chrome-clean-master/")
}

/// The extension arguments of a launch: those of the requested directories that
/// exist; with no requested directories, the bundled extension if it exists.
pub fn launch_extension_args(
    dirs: Option<&Vec<String>>,
    exists: &Vec<bool>,
    default_exists: bool,
) -> (r: Vec<String>)
    requires
        dirs matches Some(d) ==> exists@.len() == d@.len(),
    ensures
        strings_view(r@) == launch_extension_args_spec(
            match dirs {
                Some(d) => Some(d@),
                None => None,
            },
            exists@,
            default_exists,
        ),
{
    match dirs {
        Some(d) => extension_args(d, exists),
        None => {
            let mut r: Vec<String> = Vec::new();
            if default_exists {
                push_arg(&mut r, arg("--load-extension=", &default_extension_path()));
            }
            assert(strings_view(r@) =~= launch_extension_args_spec(None, exists@, default_exists));
            r
        },
    }
}

/// The proxy URL's scheme is the configured proxy type, `http` when none is
/// configured, followed by the server and its whole port in decimal.
pub proof fn lemma_proxy_url(proxy_type: Option<String>, server: Seq<char>, port: u16)
    ensures
        exists|d: Seq<char>|
            #[trigger] names_number(d, port as int) && proxy_url(proxy_type, server, port) == (
            match proxy_type {
                Some(t) => t@,
                None => "http"@,
            }) + "://"@ + server + ":"@ + d,
        proxy_type matches Some(t) ==> proxy_url(proxy_type, server, port).take(t@.len() as int)
            == t@,
{
    lemma_decimal_names(port as nat);
    let d = decimal(port as nat);
    let scheme = match proxy_type {
        Some(t) => t@,
        None => "http"@,
    };
    assert(proxy_url(proxy_type, server, port) == scheme + "://"@ + server + ":"@ + d);
    assert(proxy_url(proxy_type, server, port) =~= scheme + ("://"@ + server + ":"@ + d));
    assert((scheme + ("://"@ + server + ":"@ + d)).take(scheme.len() as int) =~= scheme);
}

/// A proxy with a server and a port gives exactly one argument, naming the
/// configured scheme, the server and the port; any other proxy gives none.
pub proof fn lemma_proxy_args(proxy: Option<BrowserProxyConfigPayload>)
    ensures
        match proxy {
            Some(p) => match (p.server, p.port) {
                (Some(server), Some(port)) => {
                    &&& proxy_args(proxy).len() == 1
                    &&& exists|d: Seq<char>|
                        #[trigger] names_number(d, port as int) && proxy_args(proxy)[0]
                            == "--proxy-server="@ + (match p.proxy_type {
                            Some(t) => t@,
                            None => "http"@,
                        }) + "://"@ + server@ + ":"@ + d
                },
                _ => proxy_args(proxy).len() == 0,
            },
            None => proxy_args(proxy).len() == 0,
        },
{
    if let Some(p) = proxy {
        if let (Some(server), Some(port)) = (p.server, p.port) {
            lemma_decimal_names(port as nat);
            let d = decimal(port as nat);
            let scheme = match p.proxy_type {
                Some(t) => t@,
                None => "http"@,
            };
            assert(proxy_args(proxy) == seq!["--proxy-server="@ + proxy_url(p.proxy_type, server@, port)]);
            assert(proxy_args(proxy).len() == 1);
            assert(proxy_args(proxy)[0] == "--proxy-server="@ + scheme + "://"@ + server@ + ":"@ + d);
            assert(names_number(d, port as int));
        }
    }
}

/// The arguments name what the launch is for: the profile directory, the
/// whole CDP port, the window size and language, user agent, time zone and
/// platform of the fingerprint, with the fixed flags between them.
pub proof fn lemma_chrome_args_layout(
    dir: Seq<char>,
    port: u16,
    f: Fingerprint,
    proxy: Option<BrowserProxyConfigPayload>,
)
    ensures
        ({
            let a = chrome_args_spec(dir, port, f, proxy);
            let n = a.len();
            &&& n == 16 + proxy_args(proxy).len()
            &&& a[0] == "--user-data-dir="@ + dir
            &&& exists|d: Seq<char>|
                #[trigger] names_number(d, port as int) && a[1] == "--remote-debugging-port="@ + d
            &&& exists|w: Seq<char>, h: Seq<char>|
                #[trigger] names_number(w, f.window_width as int) && #[trigger] names_number(h, f.window_height as int)
                    && a[2] == "--window-size="@ + w + ","@ + h
            &&& a[3] == "--lang="@ + f.language@
            &&& a[4] == "--headless=new"@
            &&& a[5] == "--no-sandbox"@
            &&& a[6] == "--disable-setuid-sandbox"@
            &&& a[7] == "--disable-dev-shm-usage"@
            &&& a[8] == "--disable-blink-features=AutomationControlled"@
            &&& a[9] == "--disable-infobars"@
            &&& a[10] == "--mute-audio"@
            &&& a[11] == "--remote-debugging-address=127.0.0.1"@
            &&& a[12] == "--remote-allow-origins=*"@
            &&& a.subrange(13, n - 3) == proxy_args(proxy)
            &&& a[n - 3] == "--user-agent="@ + f.user_agent@
            &&& a[n - 2] == "--timezone="@ + f.timezone@
            &&& a[n - 1] == "--platform="@ + f.platform@
        }),
{
    let a = chrome_args_spec(dir, port, f, proxy);
    let n = a.len();
    lemma_decimal_names(port as nat);
    lemma_decimal_names(f.window_width as nat);
    lemma_decimal_names(f.window_height as nat);
    let d = decimal(port as nat);
    let w = decimal(f.window_width as nat);
    let h = decimal(f.window_height as nat);
    assert(a[1] == "--remote-debugging-port="@ + d);
    assert(a[2] == "--window-size="@ + w + ","@ + h);
    assert(a.subrange(13, n - 3) =~= proxy_args(proxy));
}

/// Each environment gets its own browser profile: launches for different
/// user data directories differ in their `--user-data-dir` argument, and each
/// names its own directory.
pub proof fn lemma_own_profile(
    dir_a: Seq<char>,
    dir_b: Seq<char>,
    port_a: u16,
    port_b: u16,
    fa: Fingerprint,
    fb: Fingerprint,
    pa: Option<BrowserProxyConfigPayload>,
    pb: Option<BrowserProxyConfigPayload>,
)
    requires
        dir_a != dir_b,
    ensures
        chrome_args_spec(dir_a, port_a, fa, pa)[0] == "--user-data-dir="@ + dir_a,
        chrome_args_spec(dir_a, port_a, fa, pa)[0] != chrome_args_spec(dir_b, port_b, fb, pb)[0],
{
    let p = "--user-data-dir="@;
    let a = p + dir_a;
    let b = p + dir_b;
    if a == b {
        assert(dir_a =~= a.skip(p.len() as int));
        assert(dir_b =~= b.skip(p.len() as int));
    }
}

/// With no extension directories requested, the bundled Bypass Paywalls Clean
/// extension is loaded whenever it exists, and nothing is loaded when it does not.
pub proof fn lemma_default_extension_loaded(exists: Seq<bool>)
    ensures
        launch_extension_args_spec(None, exists, true) == seq![
            "--load-extension="@ + default_extension_dir(),
        ],
        launch_extension_args_spec(None, exists, false) == Seq::<Seq<char>>::empty(),
{
}

/// The error text when a requested Chrome executable does not exist.
pub open spec fn missing_exe_text(path: Seq<char>) -> Seq<char> {
    "Specified Chrome path not found: "@ + path
}

/// The error text when no Chrome executable was found.
pub open spec fn no_chrome_text() -> Seq<char> {
    "Chrome not found. Please install chromium-browser or google-chrome"@
}

/// Everything needed to start a browser.
#[derive(Debug)]
pub struct LaunchPlan {
    pub chrome_path: String,
    pub args: Vec<String>,
    pub cdp_port: u16,
}

/// A browser process started by a manager.
struct ChromeInstance {
    pid: u32,
    cdp_port: u16,
    user_data_dir: String,
}

/// Starts browsers; knows where Chrome was found when the runtime started.
pub struct BrowserManager {
    chrome_path: Option<String>,
    /// The browsers this manager started; it starts out empty and nothing adds to it.
    environments: Vec<ChromeInstance>,
}

impl BrowserManager {
    /// A manager that uses the Chrome found at `chrome_path`, if one was found.
    pub fn new(chrome_path: Option<String>) -> (m: Self)
        ensures
            opt_string_view(m.chrome_path()) == opt_string_view(chrome_path),
            m.started_count() == 0,
    {
        BrowserManager { chrome_path, environments: Vec::new() }
    }

    /// How many browsers the manager holds.
    pub closed spec fn started_count(&self) -> nat {
        self.environments@.len()
    }

    /// Where Chrome was found when the runtime started.
    pub closed spec fn chrome_path(&self) -> Option<String> {
        self.chrome_path
    }

    /// The Chrome to run: the requested executable if one is requested (an error
    /// if it does not exist), else the one found at start-up (an error if none was).
    pub fn resolve_chrome_path(&self, exe_path: Option<&String>, exe_exists: bool) -> (r: Result<
        String,
        String,
    >)
        ensures
            match exe_path {
                Some(p) => if exe_exists {
                    r matches Ok(c) && c@ == p@
                } else {
                    r matches Err(e) && e@ == missing_exe_text(p@)
                },
                None => match self.chrome_path() {
                    Some(c) => r matches Ok(x) && x@ == c@,
                    None => r matches Err(e) && e@ == no_chrome_text(),
                },
            },
    {
        match exe_path {
            Some(p) => {
                if exe_exists {
                    Ok(p.clone())
                } else {
                    Err(arg("Specified Chrome path not found: ", p))
                }
            },
            None => match &self.chrome_path {
                Some(c) => Ok(c.clone()),
                None => Err(
                    String::from_str(
                        "Chrome not found. Please install chromium-browser or google-chrome",
                    ),
                ),
            },
        }
    }

    /// The launch plan for an environment, with the CDP port given; extensions
    /// as for `plan_launch`.
    pub fn plan_launch_on(
        &self,
        user_data_dir: &String,
        proxy: Option<&BrowserProxyConfigPayload>,
        fingerprint: &Fingerprint,
        extension_dirs: Option<&Vec<String>>,
        extension_dir_exists: &Vec<bool>,
        default_extension_exists: bool,
        exe_path: Option<&String>,
        exe_exists: bool,
        cdp_port: u16,
    ) -> (r: Result<LaunchPlan, String>)
        requires
            extension_dirs matches Some(d) ==> extension_dir_exists@.len() == d@.len(),
        ensures
            match r {
                Ok(plan) => {
                    &&& plan.cdp_port == cdp_port
                    &&& strings_view(plan.args@) == chrome_args_spec(
                        user_data_dir@,
                        cdp_port,
                        *fingerprint,
                        match proxy {
                            Some(p) => Some(*p),
                            None => None,
                        },
                    ) + launch_extension_args_spec(
                        match extension_dirs {
                            Some(d) => Some(d@),
                            None => None,
                        },
                        extension_dir_exists@,
                        default_extension_exists,
                    )
                    &&& match exe_path {
                        Some(p) => exe_exists && plan.chrome_path@ == p@,
                        None => self.chrome_path() matches Some(c) && plan.chrome_path@ == c@,
                    }
                },
                Err(e) => match exe_path {
                    Some(p) => !exe_exists && e@ == missing_exe_text(p@),
                    None => self.chrome_path() is None && e@ == no_chrome_text(),
                },
            },
    {
        let extension = launch_extension_args(
            extension_dirs,
            extension_dir_exists,
            default_extension_exists,
        );
        let chrome_path = match self.resolve_chrome_path(exe_path, exe_exists) {
            Ok(c) => c,
            Err(e) => return Err(e),
        };
        let mut args = chrome_args(user_data_dir, cdp_port, fingerprint, proxy);
        let ghost front = args@;
        let mut extension = extension;
        let ghost ext = extension@;
        args.append(&mut extension);
        assert(strings_view(args@) =~= strings_view(front) + strings_view(ext));
        Ok(LaunchPlan { chrome_path, args, cdp_port })
    }

    /// The launch plan for an environment, on a CDP port drawn at random from
    /// 9200 to 10199. `extension_dir_exists` says which of the requested
    /// extension directories exist, and `default_extension_exists` whether the
    /// bundled Bypass Paywalls Clean extension exists; it is loaded when the
    /// request names no extension directories.
    pub fn plan_launch(
        &self,
        user_data_dir: &String,
        proxy: Option<&BrowserProxyConfigPayload>,
        fingerprint: &Fingerprint,
        extension_dirs: Option<&Vec<String>>,
        extension_dir_exists: &Vec<bool>,
        default_extension_exists: bool,
        exe_path: Option<&String>,
        exe_exists: bool,
    ) -> (r: Result<LaunchPlan, String>)
        requires
            extension_dirs matches Some(d) ==> extension_dir_exists@.len() == d@.len(),
        ensures
            match r {
                Ok(plan) => {
                    &&& 9200 <= plan.cdp_port < 10200
                    &&& strings_view(plan.args@) == chrome_args_spec(
                        user_data_dir@,
                        plan.cdp_port,
                        *fingerprint,
                        match proxy {
                            Some(p) => Some(*p),
                            None => None,
                        },
                    ) + launch_extension_args_spec(
                        match extension_dirs {
                            Some(d) => Some(d@),
                            None => None,
                        },
                        extension_dir_exists@,
                        default_extension_exists,
                    )
                    &&& match exe_path {
                        Some(p) => exe_exists && plan.chrome_path@ == p@,
                        None => self.chrome_path() matches Some(c) && plan.chrome_path@ == c@,
                    }
                },
                Err(e) => match exe_path {
                    Some(p) => !exe_exists && e@ == missing_exe_text(p@),
                    None => self.chrome_path() is None && e@ == no_chrome_text(),
                },
            },
    {
        let cdp_port = random_cdp_port();
        self.plan_launch_on(
            user_data_dir,
            proxy,
            fingerprint,
            extension_dirs,
            extension_dir_exists,
            default_extension_exists,
            exe_path,
            exe_exists,
            cdp_port,
        )
    }
}

/// The optional string as an optional character sequence.
pub open spec fn opt_string_view(o: Option<String>) -> Option<Seq<char>> {
    match o {
        Some(s) => Some(s@),
        None => None,
    }
}

/// How many times the CDP endpoint is tried before the launch is given up.
pub const CDP_POLL_ATTEMPTS: u32 = 30;

/// How long to wait between two tries, in milliseconds.
pub const CDP_POLL_INTERVAL_MS: u64 = 200;

/// The timeout of one try, in seconds.
pub const CDP_REQUEST_TIMEOUT_SECS: u64 = 10;

/// The error text when the browser's CDP endpoint never answered.
pub open spec fn cdp_not_ready_text() -> Seq<char> {
    "CDP did not become ready in time"@
}

/// What to do after a try of the CDP endpoint.
#[derive(Debug, Clone, Copy, PartialEq, Eq, Structural)]
pub enum CdpPoll {
    /// The endpoint answered: the browser is ready.
    Ready,
    /// Wait `CDP_POLL_INTERVAL_MS` and try again.
    Retry,
    /// Stop: the browser did not become ready in time.
    GiveUp,
}

/// The decision after try number `attempt` (counting from 0) of the CDP endpoint.
pub fn cdp_poll_step(attempt: u32, answered: bool) -> (r: CdpPoll)
    ensures
        answered ==> r == CdpPoll::Ready,
        !answered && attempt + 1 < CDP_POLL_ATTEMPTS ==> r == CdpPoll::Retry,
        !answered && attempt + 1 >= CDP_POLL_ATTEMPTS ==> r == CdpPoll::GiveUp,
{
    if answered {
        CdpPoll::Ready
    } else if attempt < CDP_POLL_ATTEMPTS - 1 {
        CdpPoll::Retry
    } else {
        CdpPoll::GiveUp
    }
}

/// The error text when the browser's CDP endpoint never answered.
pub fn cdp_not_ready() -> (s: String)
    ensures
        s@ == cdp_not_ready_text(),
{
    String::from_str("CDP did not become ready in time")
}

} // verus!
