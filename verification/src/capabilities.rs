//! The capability negotiation payload for launching a Chromium session: a
//! browser name plus vendor options carrying the launch arguments, the
//! binary path, environment variables and preferences.
//!
//! When stealth is on (the default), the build step appends the switch that
//! disables the automation-controlled blink feature and strips every
//! argument that would reveal automation; headless mode appends its own two
//! switches last.

use vstd::prelude::*;

use crate::json::JsonValue;
use crate::options::ConnectOptions;
use crate::options::LaunchOptions;
use crate::options::StealthOptions;
use crate::text::contains_substr;
use crate::text::seq_contains;

verus! {

/// Whether a launch argument would reveal automation to the page: it holds
/// one of the switches the stealth profile strips.
pub open spec fn spec_arg_revealing(a: Seq<char>) -> bool {
    ||| seq_contains(a, "--enable-automation"@)
    ||| seq_contains(a, "--disable-popup-blocking"@)
    ||| seq_contains(a, "--disable-component-update"@)
    ||| seq_contains(a, "--disable-default-apps"@)
    ||| seq_contains(a, "--disable-extensions"@)
    ||| seq_contains(a, "--disable-client-side-phishing-detection"@)
    ||| seq_contains(a, "--disable-component-extensions-with-background-pages"@)
    ||| seq_contains(a, "--allow-pre-commit-input"@)
    ||| seq_contains(a, "--disable-ipc-flooding-protection"@)
    ||| seq_contains(a, "--metrics-recording-only"@)
    ||| seq_contains(a, "--unsafely-disable-devtools-self-xss-warnings"@)
    ||| seq_contains(a, "--disable-back-forward-cache"@)
}

/// The arguments that survive the stealth filter, in order.
pub open spec fn spec_kept_args(args: Seq<Seq<char>>) -> Seq<Seq<char>>
    decreases args.len(),
{
    if args.len() == 0 {
        Seq::empty()
    } else {
        let rest = spec_kept_args(args.drop_first());
        if spec_arg_revealing(args[0]) {
            rest
        } else {
            seq![args[0]] + rest
        }
    }
}

/// The final launch argument list: the configured arguments, with the
/// blink-feature switch appended and the revealing arguments stripped when
/// stealth is on, and the two headless switches appended when headless.
pub open spec fn spec_final_args(headless: bool, stealth_on: bool, args: Seq<Seq<char>>) -> Seq<
    Seq<char>,
> {
    let base = if stealth_on {
        spec_kept_args(args.push("--disable-blink-features=AutomationControlled"@))
    } else {
        args
    };
    if headless {
        base.push("--headless"@).push("--disable-gpu"@)
    } else {
        base
    }
}

/// Whether an argument holds one of the automation-revealing switches.
fn arg_revealing(a: &str) -> (r: bool)
    ensures
        r == spec_arg_revealing(a@),
{
    ||| contains_substr(a, "--enable-automation")
    ||| contains_substr(a, "--disable-popup-blocking")
    ||| contains_substr(a, "--disable-component-update")
    ||| contains_substr(a, "--disable-default-apps")
    ||| contains_substr(a, "--disable-extensions")
    ||| contains_substr(a, "--disable-client-side-phishing-detection")
    ||| contains_substr(a, "--disable-component-extensions-with-background-pages")
    ||| contains_substr(a, "--allow-pre-commit-input")
    ||| contains_substr(a, "--disable-ipc-flooding-protection")
    ||| contains_substr(a, "--metrics-recording-only")
    ||| contains_substr(a, "--unsafely-disable-devtools-self-xss-warnings")
    ||| contains_substr(a, "--disable-back-forward-cache")
}

/// Drop every automation-revealing argument, keeping the rest in order.
fn keep_clean_args(args: Vec<String>) -> (r: Vec<String>)
    ensures
        r@.map_values(|s: String| s@) == spec_kept_args(args@.map_values(|s: String| s@)),
{
    let ghost all = args@.map_values(|s: String| s@);
    let mut r: Vec<String> = Vec::new();
    let mut i: usize = 0;
    proof {
        assert(all.skip(0) =~= all);
    }
    while i < args.len()
        invariant
            i <= args@.len(),
            all == args@.map_values(|s: String| s@),
            spec_kept_args(all) == r@.map_values(|s: String| s@) + spec_kept_args(
                all.skip(i as int),
            ),
        decreases args@.len() - i,
    {
        let ghost seen = r@.map_values(|s: String| s@);
        proof {
            assert(all.skip(i as int).drop_first() =~= all.skip(i + 1));
            assert(all.skip(i as int)[0] == args@[i as int]@);
        }
        if !arg_revealing(args[i].as_str()) {
            r.push(args[i].clone());
            proof {
                assert(r@.map_values(|s: String| s@) =~= seen + seq![args@[i as int]@]);
                assert(spec_kept_args(all) =~= r@.map_values(|s: String| s@) + spec_kept_args(
                    all.skip(i + 1),
                ));
            }
        }
        i = i + 1;
    }
    proof {
        assert(all.skip(args@.len() as int) =~= Seq::<Seq<char>>::empty());
        assert(spec_kept_args(all) =~= r@.map_values(|s: String| s@));
    }
    r
}

/// Builder for the Chromium capability payload.
#[derive(Debug)]
pub struct ChromiumCapabilities {
    /// Run headless. Defaults to true.
    pub headless: bool,
    /// Command-line arguments, in order.
    pub args: Vec<String>,
    /// Path of the browser binary to run.
    pub binary: Option<String>,
    /// Environment variables for the browser process.
    pub env: Vec<(String, String)>,
    /// Browser preferences.
    pub prefs: Vec<(String, JsonValue)>,
    /// Directory accepted downloads are stored in.
    pub downloads_path: Option<String>,
    /// Stealth configuration; stealth defaults to on when none is set.
    pub stealth: Option<StealthOptions>,
}

/// Whether a capability set has stealth on: its configured switch, and on
/// by default.
pub open spec fn spec_stealth_enabled(c: ChromiumCapabilities) -> bool {
    match c.stealth {
        Some(s) => s.enabled,
        None => true,
    }
}

impl ChromiumCapabilities {
    /// A fresh builder: headless, no arguments, no binary, no environment,
    /// no preferences, no downloads directory, default stealth.
    pub fn new() -> (r: ChromiumCapabilities)
        ensures
            r.headless,
            r.args@.len() == 0,
            r.binary is None,
            r.env@.len() == 0,
            r.prefs@.len() == 0,
            r.downloads_path is None,
            r.stealth is None,
    {
        ChromiumCapabilities {
            headless: true,
            args: Vec::new(),
            binary: None,
            env: Vec::new(),
            prefs: Vec::new(),
            downloads_path: None,
            stealth: None,
        }
    }

    /// Set headless mode.
    pub fn headless(self, headless: bool) -> (r: ChromiumCapabilities)
        ensures
            r == (ChromiumCapabilities { headless, ..self }),
    {
        ChromiumCapabilities { headless, ..self }
    }

    /// Add one command-line argument.
    pub fn arg(self, arg: String) -> (r: ChromiumCapabilities)
        ensures
            r.args@ == self.args@.push(arg),
            r.headless == self.headless,
            r.binary == self.binary,
            r.env@ == self.env@,
            r.prefs@ == self.prefs@,
            r.downloads_path == self.downloads_path,
            r.stealth == self.stealth,
    {
        let mut c = self;
        c.args.push(arg);
        c
    }

    /// Add several command-line arguments, in order.
    pub fn args(self, args: Vec<String>) -> (r: ChromiumCapabilities)
        ensures
            r.args@ == self.args@ + args@,
            r.headless == self.headless,
            r.binary == self.binary,
            r.env@ == self.env@,
            r.prefs@ == self.prefs@,
            r.downloads_path == self.downloads_path,
            r.stealth == self.stealth,
    {
        let mut c = self;
        let mut rest = args;
        c.args.append(&mut rest);
        c
    }

    /// Set the browser binary path.
    pub fn binary(self, binary: String) -> (r: ChromiumCapabilities)
        ensures
            r == (ChromiumCapabilities { binary: Some(binary), ..self }),
    {
        ChromiumCapabilities { binary: Some(binary), ..self }
    }

    /// Add one environment variable.
    pub fn env(self, key: String, value: String) -> (r: ChromiumCapabilities)
        ensures
            r.env@ == self.env@.push((key, value)),
            r.headless == self.headless,
            r.args@ == self.args@,
            r.binary == self.binary,
            r.prefs@ == self.prefs@,
            r.downloads_path == self.downloads_path,
            r.stealth == self.stealth,
    {
        let mut c = self;
        c.env.push((key, value));
        c
    }

    /// Add several environment variables, in order.
    pub fn envs(self, vars: Vec<(String, String)>) -> (r: ChromiumCapabilities)
        ensures
            r.env@ == self.env@ + vars@,
            r.headless == self.headless,
            r.args@ == self.args@,
            r.binary == self.binary,
            r.prefs@ == self.prefs@,
            r.downloads_path == self.downloads_path,
            r.stealth == self.stealth,
    {
        let mut c = self;
        let mut rest = vars;
        c.env.append(&mut rest);
        c
    }

    /// The environment variables configured so far.
    pub fn get_env(&self) -> (r: &Vec<(String, String)>)
        ensures
            r@ == self.env@,
    {
        &self.env
    }

    /// Set one browser preference.
    pub fn pref(self, key: String, value: JsonValue) -> (r: ChromiumCapabilities)
        ensures
            r.prefs@ == self.prefs@.push((key, value)),
            r.headless == self.headless,
            r.args@ == self.args@,
            r.binary == self.binary,
            r.env@ == self.env@,
            r.downloads_path == self.downloads_path,
            r.stealth == self.stealth,
    {
        let mut c = self;
        c.prefs.push((key, value));
        c
    }

    /// Set several browser preferences, in order.
    pub fn prefs(self, prefs: Vec<(String, JsonValue)>) -> (r: ChromiumCapabilities)
        ensures
            r.prefs@ == self.prefs@ + prefs@,
            r.headless == self.headless,
            r.args@ == self.args@,
            r.binary == self.binary,
            r.env@ == self.env@,
            r.downloads_path == self.downloads_path,
            r.stealth == self.stealth,
    {
        let mut c = self;
        let mut rest = prefs;
        c.prefs.append(&mut rest);
        c
    }

    /// Set the downloads directory.
    pub fn downloads_path(self, path: String) -> (r: ChromiumCapabilities)
        ensures
            r == (ChromiumCapabilities { downloads_path: Some(path), ..self }),
    {
        ChromiumCapabilities { downloads_path: Some(path), ..self }
    }

    /// Set the stealth configuration.
    pub fn stealth(self, stealth: StealthOptions) -> (r: ChromiumCapabilities)
        ensures
            r == (ChromiumCapabilities { stealth: Some(stealth), ..self }),
    {
        ChromiumCapabilities { stealth: Some(stealth), ..self }
    }

    /// Add proxy switches: the proxy server, and the bypass list when one
    /// is given.
    pub fn proxy(self, server: &str, bypass: Option<&str>) -> (r: ChromiumCapabilities)
        ensures
            r.headless == self.headless,
            r.binary == self.binary,
            r.env@ == self.env@,
            r.prefs@ == self.prefs@,
            r.downloads_path == self.downloads_path,
            r.stealth == self.stealth,
            match bypass {
                Some(b) => r.args@.len() == self.args@.len() + 2 && r.args@[self.args@.len() as int]@
                    == "--proxy-server="@ + server@ && r.args@[self.args@.len() as int + 1]@
                    == "--proxy-bypass-list="@ + b@ && r.args@.subrange(0, self.args@.len() as int)
                    == self.args@,
                None => r.args@.len() == self.args@.len() + 1 && r.args@[self.args@.len() as int]@
                    == "--proxy-server="@ + server@ && r.args@.subrange(0, self.args@.len() as int)
                    == self.args@,
            },
    {
        let mut c = self;
        let mut first: String = "--proxy-server=".to_owned();
        first.append(server);
        c.args.push(first);
        match bypass {
            Some(b) => {
                let mut second: String = "--proxy-bypass-list=".to_owned();
                second.append(b);
                c.args.push(second);
            },
            None => {},
        }
        proof {
            assert(c.args@.subrange(0, self.args@.len() as int) =~= self.args@);
        }
        c
    }

    /// Build the capability payload: a browser name of "chrome" and the
    /// vendor options object holding the final argument list
    /// ([`spec_final_args`]), the binary path when one is set, the
    /// environment variables nested under the experimental options when any
    /// are set, and the preferences — with the downloads directory folded
    /// in as two download preferences — when any exist.
    pub fn build(self) -> (r: Vec<(String, JsonValue)>)
        ensures
            r@.len() == 2,
            r@[0].0@ == "browserName"@,
            (r@[0].1 matches JsonValue::Str(s) && s@ == "chrome"@),
            r@[1].0@ == "goog:chromeOptions"@,
            r@[1].1 matches JsonValue::Obj(opts) && spec_chrome_options_ok(self, opts@),
    {
        let ghost orig = self;
        let stealth_on = match &self.stealth {
            Some(s) => s.enabled,
            None => true,
        };
        let mut args = self.args;
        if stealth_on {
            args.push("--disable-blink-features=AutomationControlled".to_owned());
            proof {
                assert(args@.map_values(|s: String| s@) =~= orig.args@.map_values(
                    |s: String| s@,
                ).push("--disable-blink-features=AutomationControlled"@));
            }
            args = keep_clean_args(args);
        }
        let ghost base_args = args@.map_values(|s: String| s@);
        if self.headless {
            args.push("--headless".to_owned());
            args.push("--disable-gpu".to_owned());
            proof {
                assert(args@.map_values(|s: String| s@) =~= base_args.push("--headless"@).push(
                    "--disable-gpu"@,
                ));
            }
        }
        proof {
            assert(args@.map_values(|s: String| s@) == spec_final_args(
                orig.headless,
                spec_stealth_enabled(orig),
                orig.args@.map_values(|s: String| s@),
            ));
        }
        let ghost final_args = args@.map_values(|s: String| s@);
        let mut items: Vec<JsonValue> = Vec::new();
        let mut i: usize = 0;
        while i < args.len()
            invariant
                i <= args@.len(),
                items@.len() == i,
                forall|k: int|
                    0 <= k < i ==> (#[trigger] items@[k] matches JsonValue::Str(s) && s@
                        == args@[k]@),
            decreases args@.len() - i,
        {
            items.push(JsonValue::Str(args[i].clone()));
            i = i + 1;
        }
        let mut opts: Vec<(String, JsonValue)> = Vec::new();
        opts.push(("args".to_owned(), JsonValue::Arr(items)));
        match self.binary {
            Some(b) => {
                opts.push(("binary".to_owned(), JsonValue::Str(b)));
            },
            None => {},
        }
        let has_env = self.env.len() > 0;
        if has_env {
            let mut env_fields: Vec<(String, JsonValue)> = Vec::new();
            let mut j: usize = 0;
            while j < self.env.len()
                invariant
                    j <= self.env@.len(),
                    env_fields@.len() == j,
                    forall|k: int|
                        0 <= k < j ==> (#[trigger] env_fields@[k].0@ == self.env@[k].0@
                            && (env_fields@[k].1 matches JsonValue::Str(s) && s@
                            == self.env@[k].1@)),
                decreases self.env@.len() - j,
            {
                env_fields.push(
                    (self.env[j].0.clone(), JsonValue::Str(self.env[j].1.clone())),
                );
                j = j + 1;
            }
            let mut experimental: Vec<(String, JsonValue)> = Vec::new();
            experimental.push(("env".to_owned(), JsonValue::Obj(env_fields)));
            opts.push(("experimentalOptions".to_owned(), JsonValue::Obj(experimental)));
        }
        let mut all_prefs = self.prefs;
        let ghost base_prefs = all_prefs@;
        match self.downloads_path {
            Some(d) => {
                all_prefs.push(("download.default_directory".to_owned(), JsonValue::Str(d)));
                all_prefs.push(("download.prompt_for_download".to_owned(), JsonValue::Bool(false)));
            },
            None => {},
        }
        let has_prefs = all_prefs.len() > 0;
        if has_prefs {
            opts.push(("prefs".to_owned(), JsonValue::Obj(all_prefs)));
        }
        proof {
            assert(spec_chrome_options_ok(orig, opts@)) by {
                assert(forall|k: int|
                    0 <= k < final_args.len() ==> #[trigger] final_args[k] == args@[k]@);
            }
        }
        let mut r: Vec<(String, JsonValue)> = Vec::new();
        r.push(("browserName".to_owned(), JsonValue::Str("chrome".to_owned())));
        r.push(("goog:chromeOptions".to_owned(), JsonValue::Obj(opts)));
        r
    }
}

/// Whether `arg` occurs in the list `args`.
pub open spec fn spec_listed(args: Seq<String>, arg: Seq<char>) -> bool {
    exists|i: int| 0 <= i < args.len() && args[i]@ == arg
}

/// Whether `arg` occurs in `args`.
fn listed(args: &Vec<String>, arg: &str) -> (r: bool)
    ensures
        r == spec_listed(args@, arg@),
{
    let mut i: usize = 0;
    while i < args.len()
        invariant
            i <= args@.len(),
            forall|k: int| 0 <= k < i ==> args@[k]@ != arg@,
        decreases args@.len() - i,
    {
        if crate::text::str_eq(args[i].as_str(), arg) {
            return true;
        }
        i = i + 1;
    }
    false
}

/// Whether a launch runs headless: opening the DevTools panel forces a
/// headful browser; otherwise the configured choice, headless by default.
pub open spec fn spec_launch_headless(o: LaunchOptions) -> bool {
    if o.devtools == Some(true) {
        false
    } else {
        match o.headless {
            Some(h) => h,
            None => true,
        }
    }
}

/// The launch argument list before the build-time stealth filter: the
/// configured arguments; the DevTools switch when the panel is requested;
/// then — unless all default arguments are ignored — the stability
/// defaults, each skipped when it is on the ignore list or (for the
/// sandbox switch) when the sandbox is explicitly enabled; and the proxy
/// switches last.
pub open spec fn spec_launch_args(o: LaunchOptions) -> Seq<Seq<char>> {
    let user = o.args@.map_values(|s: String| s@);
    let with_devtools = if o.devtools == Some(true) {
        user.push("--auto-open-devtools-for-tabs"@)
    } else {
        user
    };
    let sandbox_on = o.chromium_sandbox == Some(true);
    let with_defaults = if o.ignore_all_default_args == Some(true) {
        with_devtools
    } else {
        let d1 = if !sandbox_on && !spec_listed(o.ignore_default_args@, "--no-sandbox"@) {
            with_devtools.push("--no-sandbox"@)
        } else {
            with_devtools
        };
        let d2 = if !spec_listed(o.ignore_default_args@, "--disable-dev-shm-usage"@) {
            d1.push("--disable-dev-shm-usage"@)
        } else {
            d1
        };
        if !spec_listed(
            o.ignore_default_args@,
            "--disable-blink-features=AutomationControlled"@,
        ) {
            d2.push("--disable-blink-features=AutomationControlled"@)
        } else {
            d2
        }
    };
    match o.proxy {
        Some(p) => {
            let with_server = with_defaults.push("--proxy-server="@ + p.server@);
            match p.bypass {
                Some(b) => with_server.push("--proxy-bypass-list="@ + b@),
                None => with_server,
            }
        },
        None => with_defaults,
    }
}

/// Assemble the capability set a launch request denotes: the headless
/// decision of [`spec_launch_headless`], the argument list of
/// [`spec_launch_args`], the configured binary path, environment,
/// downloads directory and stealth configuration. Resolving a channel
/// name to a binary is the caller's step and happens before this one.
pub fn assemble_launch_capabilities(options: &LaunchOptions) -> (r: ChromiumCapabilities)
    ensures
        r.headless == spec_launch_headless(*options),
        r.args@.map_values(|s: String| s@) == spec_launch_args(*options),
        r.binary == options.executable_path,
        r.env@ == options.env@,
        r.prefs@.len() == 0,
        r.downloads_path == options.downloads_path,
        r.stealth == options.stealth,
{
    let headless = match options.devtools {
        Some(true) => false,
        _ => match options.headless {
            Some(h) => h,
            None => true,
        },
    };
    let mut args: Vec<String> = Vec::new();
    let mut i: usize = 0;
    while i < options.args.len()
        invariant
            i <= options.args@.len(),
            args@.len() == i,
            forall|k: int| 0 <= k < i ==> args@[k] == options.args@[k],
        decreases options.args@.len() - i,
    {
        args.push(options.args[i].clone());
        i = i + 1;
    }
    proof {
        assert(args@ =~= options.args@);
    }
    if matches!(options.devtools, Some(true)) {
        args.push("--auto-open-devtools-for-tabs".to_owned());
    }
    let ghost with_devtools = args@.map_values(|s: String| s@);
    proof {
        assert(with_devtools =~= (if options.devtools == Some(true) {
            options.args@.map_values(|s: String| s@).push("--auto-open-devtools-for-tabs"@)
        } else {
            options.args@.map_values(|s: String| s@)
        }));
    }
    let ignore_all = matches!(options.ignore_all_default_args, Some(true));
    let sandbox_on = matches!(options.chromium_sandbox, Some(true));
    if !ignore_all {
        if !sandbox_on && !listed(&options.ignore_default_args, "--no-sandbox") {
            args.push("--no-sandbox".to_owned());
        }
        if !listed(&options.ignore_default_args, "--disable-dev-shm-usage") {
            args.push("--disable-dev-shm-usage".to_owned());
        }
        if !listed(&options.ignore_default_args, "--disable-blink-features=AutomationControlled") {
            args.push("--disable-blink-features=AutomationControlled".to_owned());
        }
    }
    match &options.proxy {
        Some(p) => {
            let mut server_arg: String = "--proxy-server=".to_owned();
            server_arg.append(p.server.as_str());
            args.push(server_arg);
            match &p.bypass {
                Some(b) => {
                    let mut bypass_arg: String = "--proxy-bypass-list=".to_owned();
                    bypass_arg.append(b.as_str());
                    args.push(bypass_arg);
                },
                None => {},
            }
        },
        None => {},
    }
    proof {
        assert(args@.map_values(|s: String| s@) =~= spec_launch_args(*options));
    }
    let binary = match &options.executable_path {
        Some(p) => Some(p.clone()),
        None => None,
    };
    let mut env: Vec<(String, String)> = Vec::new();
    let mut j: usize = 0;
    while j < options.env.len()
        invariant
            j <= options.env@.len(),
            env@.len() == j,
            forall|k: int| 0 <= k < j ==> env@[k] == options.env@[k],
        decreases options.env@.len() - j,
    {
        env.push((options.env[j].0.clone(), options.env[j].1.clone()));
        j = j + 1;
    }
    proof {
        assert(env@ =~= options.env@);
    }
    let downloads_path = match &options.downloads_path {
        Some(p) => Some(p.clone()),
        None => None,
    };
    let stealth = match &options.stealth {
        Some(s) => Some(s.clone_value()),
        None => None,
    };
    ChromiumCapabilities { headless, args, binary, env, prefs: Vec::new(), downloads_path, stealth }
}

/// Assemble the capability set for connecting to an already-running
/// control endpoint: the configured arguments and binary path over an
/// otherwise fresh (headless, default-stealth) capability set. The running
/// browser keeps its own configuration; these capabilities only shape the
/// session handshake.
pub fn assemble_connect_capabilities(options: &ConnectOptions) -> (r: ChromiumCapabilities)
    ensures
        r.headless,
        r.args@ == options.args@,
        r.binary == options.executable_path,
        r.env@.len() == 0,
        r.prefs@.len() == 0,
        r.downloads_path is None,
        r.stealth is None,
{
    let mut args: Vec<String> = Vec::new();
    let mut i: usize = 0;
    while i < options.args.len()
        invariant
            i <= options.args@.len(),
            args@.len() == i,
            forall|k: int| 0 <= k < i ==> args@[k] == options.args@[k],
        decreases options.args@.len() - i,
    {
        args.push(options.args[i].clone());
        i = i + 1;
    }
    proof {
        assert(args@ =~= options.args@);
    }
    let binary = match &options.executable_path {
        Some(p) => Some(p.clone()),
        None => None,
    };
    ChromiumCapabilities {
        headless: true,
        args,
        binary,
        env: Vec::new(),
        prefs: Vec::new(),
        downloads_path: None,
        stealth: None,
    }
}

/// What the vendor options object of a built capability payload holds, for
/// the capability set it was built from: the final argument list first,
/// then the binary path when one is set, then the environment variables
/// under the experimental options when any are set, then the preferences —
/// the configured ones, extended with the two download preferences when a
/// downloads directory is set — when any exist.
pub open spec fn spec_chrome_options_ok(
    c: ChromiumCapabilities,
    opts: Seq<(String, JsonValue)>,
) -> bool {
    let final_args = spec_final_args(
        c.headless,
        spec_stealth_enabled(c),
        c.args@.map_values(|s: String| s@),
    );
    let has_env = c.env@.len() > 0;
    let has_prefs = c.prefs@.len() > 0 || c.downloads_path is Some;
    &&& opts.len() == 1 + (if c.binary is Some {
        1int
    } else {
        0int
    }) + (if has_env {
        1int
    } else {
        0int
    }) + (if has_prefs {
        1int
    } else {
        0int
    })
    &&& opts[0].0@ == "args"@
    &&& (opts[0].1 matches JsonValue::Arr(items) && items@.len() == final_args.len() && (forall|
        k: int,
    |
        0 <= k < items@.len() ==> (#[trigger] items@[k] matches JsonValue::Str(s) && s@
            == final_args[k])))
    &&& (c.binary matches Some(b) ==> (opts[1].0@ == "binary"@ && (opts[1].1 matches
        JsonValue::Str(s) && s@ == b@)))
    &&& {
        let env_at = if c.binary is Some {
            2int
        } else {
            1int
        };
        has_env ==> (opts[env_at].0@ == "experimentalOptions"@ && (opts[env_at].1 matches
            JsonValue::Obj(x) && x@.len() == 1 && x@[0].0@ == "env"@ && (x@[0].1 matches
            JsonValue::Obj(ef) && ef@.len() == c.env@.len() && (forall|k: int|
                0 <= k < ef@.len() ==> (#[trigger] ef@[k].0@ == c.env@[k].0@ && (ef@[k].1 matches
                    JsonValue::Str(s) && s@ == c.env@[k].1@))))))
    }
    &&& {
        let prefs_at = (if c.binary is Some {
            2int
        } else {
            1int
        }) + (if c.env@.len() > 0 {
            1int
        } else {
            0int
        });
        has_prefs ==> (opts[prefs_at].0@ == "prefs"@ && (opts[prefs_at].1 matches JsonValue::Obj(
            pf,
        ) && pf@.len() == c.prefs@.len() + (if c.downloads_path is Some {
            2int
        } else {
            0int
        }) && (forall|k: int| 0 <= k < c.prefs@.len() ==> pf@[k] == c.prefs@[k]) && (
        c.downloads_path matches Some(d) ==> (pf@[c.prefs@.len() as int].0@
            == "download.default_directory"@ && (pf@[c.prefs@.len() as int].1 matches
        JsonValue::Str(s) && s@ == d@) && pf@[c.prefs@.len() as int + 1].0@
            == "download.prompt_for_download"@ && pf@[c.prefs@.len() as int + 1].1 == JsonValue::Bool(
            false,
        )))))
    }
}

} // verus!
