//! Option and value types for launching, connecting, navigating and acting.
//!
//! These are plain data carried between the caller and the engines. Times are
//! in milliseconds; paths are plain strings. Defaults are written out by hand
//! with their contracts.

use vstd::prelude::*;

verus! {

/// Stealth configuration for low-observability automation (Chromium-only).
#[derive(Debug, Clone, PartialEq, Eq)]
pub struct StealthOptions {
    /// Enable stealth mode. Defaults to true.
    pub enabled: bool,
    /// Enable the console API. When false (the default), the console stays
    /// disabled to avoid detection.
    pub console_enabled: bool,
    /// Spoof the WebGL vendor and renderer. Defaults to true.
    pub webgl_spoof: bool,
    /// Add canvas noise for fingerprint randomization. Defaults to false.
    pub canvas_noise: bool,
    /// Patch `permissions.query` to avoid detection. Defaults to true.
    pub permissions_patch: bool,
    /// Align User-Agent, Accept-Language and client-hint headers.
    /// Defaults to true.
    pub header_alignment: bool,
    /// Allow user-provided custom headers even when stealth is on.
    /// Defaults to false.
    pub allow_user_headers: bool,
    /// Locale for the Accept-Language header (e.g. "en-US").
    pub locale: Option<String>,
    /// Timezone identifier for emulation (e.g. "Europe/London").
    pub timezone_id: Option<String>,
}

impl StealthOptions {
    /// An exact copy of this configuration.
    pub fn clone_value(&self) -> (r: StealthOptions)
        ensures
            r == *self,
    {
        StealthOptions {
            enabled: self.enabled,
            console_enabled: self.console_enabled,
            webgl_spoof: self.webgl_spoof,
            canvas_noise: self.canvas_noise,
            permissions_patch: self.permissions_patch,
            header_alignment: self.header_alignment,
            allow_user_headers: self.allow_user_headers,
            locale: match &self.locale {
                Some(l) => Some(l.clone()),
                None => None,
            },
            timezone_id: match &self.timezone_id {
                Some(t) => Some(t.clone()),
                None => None,
            },
        }
    }
}

impl Default for StealthOptions {
    /// Stealth on, console off, WebGL spoofing and the permissions patch on,
    /// canvas noise off, headers aligned, no custom headers, no locale and
    /// no timezone override.
    fn default() -> (r: StealthOptions)
        ensures
            r.enabled,
            !r.console_enabled,
            r.webgl_spoof,
            !r.canvas_noise,
            r.permissions_patch,
            r.header_alignment,
            !r.allow_user_headers,
            r.locale is None,
            r.timezone_id is None,
    {
        StealthOptions {
            enabled: true,
            console_enabled: false,
            webgl_spoof: true,
            canvas_noise: false,
            permissions_patch: true,
            header_alignment: true,
            allow_user_headers: false,
            locale: None,
            timezone_id: None,
        }
    }
}

/// Network proxy configuration.
#[derive(Debug, Clone, PartialEq, Eq)]
pub struct ProxySettings {
    /// Proxy server URL (e.g. "http://myproxy.com:3128").
    pub server: String,
    /// Optional comma-separated domains that bypass the proxy.
    pub bypass: Option<String>,
    /// Username for proxy authentication.
    pub username: Option<String>,
    /// Password for proxy authentication.
    pub password: Option<String>,
}

/// Options for launching a browser.
#[derive(Debug, Clone, PartialEq, Eq)]
pub struct LaunchOptions {
    /// Whether to run the browser headless. Defaults to true.
    pub headless: Option<bool>,
    /// Slow every operation down by this many milliseconds.
    pub slow_mo: Option<u64>,
    /// Maximum time to wait for the browser to start, in milliseconds.
    pub timeout: Option<u64>,
    /// Additional arguments for the browser process.
    pub args: Vec<String>,
    /// Path to a browser executable to run instead of the bundled one.
    pub executable_path: Option<String>,
    /// Environment variables for the browser process.
    pub env: Vec<(String, String)>,
    /// Directory accepted downloads are stored in.
    pub downloads_path: Option<String>,
    /// Auto-open the DevTools panel (Chromium-only).
    pub devtools: Option<bool>,
    /// Browser distribution channel (e.g. "chrome", "chrome-beta").
    pub channel: Option<String>,
    /// Enable the Chromium sandbox. Defaults to false.
    pub chromium_sandbox: Option<bool>,
    /// Directory traces are saved into.
    pub traces_dir: Option<String>,
    /// If true, none of the default arguments are added.
    pub ignore_all_default_args: Option<bool>,
    /// Default arguments to leave out.
    pub ignore_default_args: Vec<String>,
    /// Network proxy settings.
    pub proxy: Option<ProxySettings>,
    /// Stealth configuration (Chromium-only).
    pub stealth: Option<StealthOptions>,
}

impl Default for LaunchOptions {
    /// Everything unset and every list empty.
    fn default() -> (r: LaunchOptions)
        ensures
            r.headless is None,
            r.slow_mo is None,
            r.timeout is None,
            r.args@.len() == 0,
            r.executable_path is None,
            r.env@.len() == 0,
            r.downloads_path is None,
            r.devtools is None,
            r.channel is None,
            r.chromium_sandbox is None,
            r.traces_dir is None,
            r.ignore_all_default_args is None,
            r.ignore_default_args@.len() == 0,
            r.proxy is None,
            r.stealth is None,
    {
        LaunchOptions {
            headless: None,
            slow_mo: None,
            timeout: None,
            args: Vec::new(),
            executable_path: None,
            env: Vec::new(),
            downloads_path: None,
            devtools: None,
            channel: None,
            chromium_sandbox: None,
            traces_dir: None,
            ignore_all_default_args: None,
            ignore_default_args: Vec::new(),
            proxy: None,
            stealth: None,
        }
    }
}

/// Options for connecting to an already-running remote control endpoint.
#[derive(Debug, Clone, PartialEq, Eq)]
pub struct ConnectOptions {
    /// Maximum time to wait for the connection, in milliseconds.
    pub timeout: Option<u64>,
    /// Slow every operation down by this many milliseconds.
    pub slow_mo: Option<u64>,
    /// Additional HTTP headers for control-protocol requests.
    pub headers: Vec<(String, String)>,
    /// Additional arguments for the browser process.
    pub args: Vec<String>,
    /// Path to a browser executable to use.
    pub executable_path: Option<String>,
    /// Environment variables for the browser process.
    pub env: Vec<(String, String)>,
    /// Browser distribution channel.
    pub channel: Option<String>,
}

impl Default for ConnectOptions {
    /// Everything unset and every list empty.
    fn default() -> (r: ConnectOptions)
        ensures
            r.timeout is None,
            r.slow_mo is None,
            r.headers@.len() == 0,
            r.args@.len() == 0,
            r.executable_path is None,
            r.env@.len() == 0,
            r.channel is None,
    {
        ConnectOptions {
            timeout: None,
            slow_mo: None,
            headers: Vec::new(),
            args: Vec::new(),
            executable_path: None,
            env: Vec::new(),
            channel: None,
        }
    }
}

/// Options for connecting to a browser through its debugging endpoint.
#[derive(Debug, Clone, PartialEq, Eq)]
pub struct ConnectOverCdpOptions {
    /// Maximum time to wait for the connection, in milliseconds.
    pub timeout: Option<u64>,
    /// Slow every operation down by this many milliseconds.
    pub slow_mo: Option<u64>,
    /// Additional HTTP headers for debugging-protocol requests.
    pub headers: Vec<(String, String)>,
}

impl Default for ConnectOverCdpOptions {
    /// Everything unset and the header list empty.
    fn default() -> (r: ConnectOverCdpOptions)
        ensures
            r.timeout is None,
            r.slow_mo is None,
            r.headers@.len() == 0,
    {
        ConnectOverCdpOptions { timeout: None, slow_mo: None, headers: Vec::new() }
    }
}

/// Color scheme preference for emulation.
#[derive(Debug, Clone, Copy, PartialEq, Eq, Structural)]
pub enum ColorScheme {
    Light,
    Dark,
    NoPreference,
}

/// HTTP authentication credentials.
#[derive(Debug, Clone, PartialEq, Eq)]
pub struct HttpCredentials {
    pub username: String,
    pub password: String,
    /// Restrict the credentials to a specific origin.
    pub origin: Option<String>,
}

/// Viewport size in pixels.
#[derive(Debug, Clone, Copy, PartialEq, Eq, Structural)]
pub struct ViewportSize {
    /// Page width in pixels.
    pub width: u32,
    /// Page height in pixels.
    pub height: u32,
}

impl Default for ViewportSize {
    /// 1280 by 720.
    fn default() -> (r: ViewportSize)
        ensures
            r.width == 1280,
            r.height == 720,
    {
        ViewportSize { width: 1280, height: 720 }
    }
}

/// Service-worker policy for a context.
#[derive(Debug, Clone, Copy, PartialEq, Eq, Structural)]
pub enum ServiceWorkersPolicy {
    Allow,
    Block,
}

/// Which page load state a navigation waits for.
#[derive(Debug, Clone, Copy, PartialEq, Eq, Structural)]
pub enum WaitUntilState {
    /// Wait for the full load event.
    Load,
    /// Wait for the DOM to be ready.
    DomContentLoaded,
    /// Wait until there are no network connections for the quiet window.
    NetworkIdle,
    /// Wait for the navigation to be committed.
    Commit,
}

impl Default for WaitUntilState {
    /// The full load event.
    fn default() -> (r: WaitUntilState)
        ensures
            r == WaitUntilState::Load,
    {
        WaitUntilState::Load
    }
}

/// Options for a navigation.
#[derive(Debug, Clone, PartialEq, Eq)]
pub struct NavigationOptions {
    /// Maximum navigation time in milliseconds.
    pub timeout: Option<u64>,
    /// When to consider the navigation done.
    pub wait_until: Option<WaitUntilState>,
    /// Referer header value.
    pub referer: Option<String>,
}

impl Default for NavigationOptions {
    /// Everything unset.
    fn default() -> (r: NavigationOptions)
        ensures
            r.timeout is None,
            r.wait_until is None,
            r.referer is None,
    {
        NavigationOptions { timeout: None, wait_until: None, referer: None }
    }
}

/// Mouse button used by a click.
#[derive(Debug, Clone, Copy, PartialEq, Eq, Structural)]
pub enum MouseButton {
    Left,
    Right,
    Middle,
}

/// Keyboard modifier held during an action.
#[derive(Debug, Clone, Copy, PartialEq, Eq, Structural)]
pub enum KeyboardModifier {
    Alt,
    Control,
    Meta,
    Shift,
}

/// Options for typing text.
#[derive(Debug, Clone, PartialEq, Eq)]
pub struct TypeOptions {
    /// Delay between key presses, in milliseconds.
    pub delay: Option<u64>,
    /// Maximum time to wait, in milliseconds.
    pub timeout: Option<u64>,
    /// Do not wait for navigations the typing may start.
    pub no_wait_after: Option<bool>,
}

impl Default for TypeOptions {
    /// Everything unset.
    fn default() -> (r: TypeOptions)
        ensures
            r.delay is None,
            r.timeout is None,
            r.no_wait_after is None,
    {
        TypeOptions { delay: None, timeout: None, no_wait_after: None }
    }
}

/// Screenshot format.
#[derive(Debug, Clone, Copy, PartialEq, Eq, Structural)]
pub enum ScreenshotType {
    Png,
    Jpeg,
}

/// Options for taking a screenshot.
#[derive(Debug, Clone, PartialEq, Eq)]
pub struct ScreenshotOptions {
    /// File path the caller saves the screenshot to.
    pub path: Option<String>,
    /// Screenshot format.
    pub screenshot_type: Option<ScreenshotType>,
    /// JPEG quality (0-100); JPEG only.
    pub quality: Option<u8>,
    /// Capture the full scrollable page.
    pub full_page: Option<bool>,
    /// Hide the default white background.
    pub omit_background: Option<bool>,
    /// Maximum time to wait, in milliseconds.
    pub timeout: Option<u64>,
}

impl Default for ScreenshotOptions {
    /// Everything unset.
    fn default() -> (r: ScreenshotOptions)
        ensures
            r.path is None,
            r.screenshot_type is None,
            r.quality is None,
            r.full_page is None,
            r.omit_background is None,
            r.timeout is None,
    {
        ScreenshotOptions {
            path: None,
            screenshot_type: None,
            quality: None,
            full_page: None,
            omit_background: None,
            timeout: None,
        }
    }
}

} // verus!
