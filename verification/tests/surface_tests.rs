//! Tests of the public surface: browser types, platform URLs, stealth
//! scripts, header generation, option defaults, capabilities and errors.

use sparkle::browser_api::{BrowserName, BrowserType, Playwright};
use sparkle::capabilities::ChromiumCapabilities;
use sparkle::errors::Error;
use sparkle::json::JsonValue;
use sparkle::headers::{
    generate_accept_language, generate_sec_ch_ua, generate_sec_ch_ua_mobile,
    generate_sec_ch_ua_platform, generate_user_agent, get_platform_string, HeadersConfig,
};
use sparkle::options::{LaunchOptions, NavigationOptions, StealthOptions, ViewportSize, WaitUntilState};
use sparkle::platform::Platform;
use sparkle::stealth::{get_minimal_stealth_script, get_stealth_script};
use sparkle::storage::{same_site_name, same_site_of_name, SameSite};

#[test]
fn it_works() {
    // Basic compilation test
    let result = 2 + 2;
    assert_eq!(result, 4);
}

#[test]
fn test_browser_name_display() {
    assert_eq!(BrowserName::Chromium.name_str(), "chromium");
    assert_eq!(BrowserName::Firefox.name_str(), "firefox");
    assert_eq!(BrowserName::WebKit.name_str(), "webkit");
}

#[test]
fn test_browser_type_creation() {
    let chromium = BrowserType::new(BrowserName::Chromium);
    assert_eq!(chromium.name(), BrowserName::Chromium);
}

#[test]
fn test_executable_path_not_implemented() {
    // Firefox and WebKit should return NotImplemented error
    let no_installs: Vec<String> = Vec::new();
    let firefox = BrowserType::new(BrowserName::Firefox);
    assert!(firefox.executable_path(&no_installs).is_err());

    let webkit = BrowserType::new(BrowserName::WebKit);
    assert!(webkit.executable_path(&no_installs).is_err());
}

#[test]
fn test_executable_path_chromium() {
    // With installed revisions the newest is picked; with none the error
    // says no installation was found.
    let chromium = BrowserType::new(BrowserName::Chromium);
    let no_installs: Vec<String> = Vec::new();
    match chromium.executable_path(&no_installs) {
        Ok(_) => panic!("no installation should be found in an empty list"),
        Err(e) => {
            let error_msg = e.message();
            assert!(
                error_msg.contains("not found") || error_msg.contains("Failed to get"),
                "Unexpected error: {}",
                error_msg
            );
        }
    }
    let installs = vec!["chromium-1290".to_string(), "chromium-1300".to_string()];
    assert_eq!(chromium.executable_path(&installs).unwrap(), 1);
}

#[test]
fn test_playwright_creation() {
    let playwright = Playwright::new();
    assert_eq!(playwright.chromium().name(), BrowserName::Chromium);
    assert_eq!(playwright.firefox().name(), BrowserName::Firefox);
    assert_eq!(playwright.webkit().name(), BrowserName::WebKit);
}

#[test]
fn test_chrome_url() {
    let platform = Platform::WindowsX64;
    let url = platform.chrome_download_url("120.0.6099.109");
    assert!(url.contains("win64"));
    assert!(url.contains("chrome"));
}

#[test]
fn test_chromedriver_url() {
    let platform = Platform::LinuxX64;
    let url = platform.chromedriver_download_url("120.0.6099.109");
    assert!(url.contains("linux64"));
    assert!(url.contains("chromedriver"));
}

#[test]
fn test_platform_names() {
    assert_eq!(Platform::MacOsArm64.name(), "macos-arm64");
    assert_eq!(Platform::WindowsArm64.executable_extension(), ".exe");
    assert_eq!(Platform::LinuxX64.executable_extension(), "");
    assert_eq!(
        Platform::from_os_arch("linux", "x86_64"),
        Some(Platform::LinuxX64)
    );
    assert_eq!(Platform::from_os_arch("solaris", "sparc"), None);
}

#[test]
fn test_chrome_url_exact() {
    let url = Platform::MacOsArm64.chrome_download_url("121.0.1");
    assert_eq!(
        url,
        "https://storage.googleapis.com/chrome-for-testing-public/121.0.1/mac-arm64/chrome-mac-arm64.zip"
    );
}

#[test]
fn test_viewport_default() {
    let viewport = ViewportSize::default();
    assert_eq!(viewport.width, 1280);
    assert_eq!(viewport.height, 720);
}

#[test]
fn test_launch_options_builder() {
    let opts = LaunchOptions {
        headless: Some(true),
        slow_mo: Some(100),
        ..LaunchOptions::default()
    };

    assert_eq!(opts.headless, Some(true));
    assert_eq!(opts.slow_mo, Some(100));
}

#[test]
fn test_navigation_options() {
    let opts = NavigationOptions {
        timeout: Some(10_000),
        wait_until: Some(WaitUntilState::NetworkIdle),
        ..NavigationOptions::default()
    };

    assert_eq!(opts.timeout, Some(10_000));
    assert!(matches!(opts.wait_until, Some(WaitUntilState::NetworkIdle)));
}

#[test]
fn test_get_stealth_script_basic() {
    let script = get_stealth_script(false, false, false);
    assert!(script.contains("navigator.webdriver"));
    assert!(script.contains("window.chrome"));
    assert!(!script.contains("WebGL"));
    assert!(!script.contains("canvas"));
}

#[test]
fn test_get_stealth_script_full() {
    let script = get_stealth_script(true, true, true);
    assert!(script.contains("navigator.webdriver"));
    assert!(script.contains("WebGL"));
    assert!(script.contains("canvas"));
    assert!(script.contains("permissions"));
}

#[test]
fn test_minimal_stealth() {
    let script = get_minimal_stealth_script();
    assert!(script.contains("navigator.webdriver"));
}

#[test]
fn test_generate_user_agent_windows() {
    let ua = generate_user_agent("120.0.6099.129", "Win32");
    assert!(ua.contains("Windows NT 10.0"));
    assert!(ua.contains("Chrome/120.0.6099.129"));
    assert!(ua.contains("Safari/537.36"));
}

#[test]
fn test_generate_user_agent_mac() {
    let ua = generate_user_agent("120.0.6099.129", "MacIntel");
    assert!(ua.contains("Macintosh"));
    assert!(ua.contains("Chrome/120.0.6099.129"));
}

#[test]
fn test_generate_sec_ch_ua() {
    let header = generate_sec_ch_ua("120.0.6099.129");
    assert!(header.contains(r#""Chromium";v="120""#));
    assert!(header.contains(r#""Google Chrome";v="120""#));
}

#[test]
fn test_generate_sec_ch_ua_exact() {
    assert_eq!(
        generate_sec_ch_ua("121.0.2"),
        r#""Not_A Brand";v="8", "Chromium";v="121", "Google Chrome";v="121""#
    );
    assert_eq!(
        generate_user_agent("121.0.2", "Linux x86_64"),
        "Mozilla/5.0 (X11; Linux x86_64) AppleWebKit/537.36 (KHTML, like Gecko) Chrome/121.0.2 Safari/537.36"
    );
}

#[test]
fn test_generate_accept_language() {
    let lang = generate_accept_language("en-US");
    assert_eq!(lang, "en-US,en;q=0.9");

    let lang = generate_accept_language("fr-FR");
    assert_eq!(lang, "fr-FR,fr;q=0.9");
}

#[test]
fn test_generate_accept_language_bare() {
    assert_eq!(generate_accept_language("en"), "en;q=0.9");
}

#[test]
fn test_generate_sec_ch_ua_platform() {
    assert_eq!(generate_sec_ch_ua_platform("Win32"), r#""Windows""#);
    assert_eq!(generate_sec_ch_ua_platform("MacIntel"), r#""macOS""#);
    assert_eq!(generate_sec_ch_ua_platform("Linux x86_64"), r#""Linux""#);
}

#[test]
fn test_generate_sec_ch_ua_mobile() {
    assert_eq!(generate_sec_ch_ua_mobile(), "?0");
}

#[test]
fn test_headers_config() {
    let stealth = StealthOptions {
        locale: Some("de-DE".to_string()),
        ..StealthOptions::default()
    };
    let headers = HeadersConfig::from_stealth_options(&stealth, "121.0.2");
    assert_eq!(headers.platform, get_platform_string());
    assert_eq!(headers.accept_language, "de-DE,de;q=0.9");
    assert!(headers.user_agent.contains("Chrome/121.0.2"));

    let defaults = HeadersConfig::from_stealth_options(&StealthOptions::default(), "121.0.2");
    assert_eq!(defaults.accept_language, "en-US,en;q=0.9");
}

fn lookup<'a>(fields: &'a [(String, JsonValue)], key: &str) -> Option<&'a JsonValue> {
    fields.iter().find(|f| f.0 == key).map(|f| &f.1)
}

#[test]
fn test_chromium_capabilities() {
    let caps = ChromiumCapabilities::new()
        .headless(true)
        .arg("--disable-dev-shm-usage".to_string())
        .build();

    assert_eq!(
        lookup(&caps, "browserName").unwrap(),
        &JsonValue::Str("chrome".to_string())
    );
    assert!(lookup(&caps, "goog:chromeOptions").is_some());
}

#[test]
fn test_chromium_capabilities_with_args() {
    let caps = ChromiumCapabilities::new()
        .headless(false)
        .args(vec![
            "--window-size=1920,1080".to_string(),
            "--start-maximized".to_string(),
        ])
        .build();

    assert!(lookup(&caps, "goog:chromeOptions").is_some());
}

#[test]
fn test_chromium_capabilities_stealth_filter() {
    let caps = ChromiumCapabilities::new()
        .headless(true)
        .arg("--enable-automation".to_string())
        .arg("--window-size=800,600".to_string())
        .build();
    let opts = match lookup(&caps, "goog:chromeOptions").unwrap() {
        JsonValue::Obj(fields) => fields,
        other => panic!("expected an options object, got {:?}", other),
    };
    let args = match lookup(opts, "args").unwrap() {
        JsonValue::Arr(items) => items,
        other => panic!("expected an argument array, got {:?}", other),
    };
    let rendered: Vec<&str> = args
        .iter()
        .map(|a| match a {
            JsonValue::Str(s) => s.as_str(),
            other => panic!("expected string arguments, got {:?}", other),
        })
        .collect();
    // Stealth strips the revealing switch, keeps the benign one, adds the
    // blink switch, and headless appends its two switches last.
    assert_eq!(
        rendered,
        vec![
            "--window-size=800,600",
            "--disable-blink-features=AutomationControlled",
            "--headless",
            "--disable-gpu",
        ]
    );
}

#[test]
fn test_timeout_error() {
    let err = Error::timeout("Element did not appear".to_string(), 5000);
    assert!(matches!(err, Error::Timeout { .. }));
    assert!(err.message().contains("Timeout"));
    assert!(err.message().contains("Element did not appear"));
}

#[test]
fn test_element_not_found_error() {
    let err = Error::element_not_found("button.submit".to_string());
    assert!(matches!(err, Error::ElementNotFound { .. }));
    assert!(err.message().contains("button.submit"));
}

#[test]
fn test_strict_mode_violation() {
    let err = Error::strict_mode_violation("div".to_string(), 5);
    assert!(matches!(err, Error::StrictModeViolation { .. }));
    assert!(err.message().contains("5 elements"));
}

#[test]
fn test_error_messages_exact() {
    assert_eq!(Error::BrowserClosed.message(), "Browser has been closed");
    assert_eq!(Error::ContextClosed.message(), "Browser context has been closed");
    assert_eq!(Error::PageClosed.message(), "Page has been closed");
    assert_eq!(Error::FrameDetached.message(), "Frame has been detached");
    assert_eq!(
        Error::ElementNotAttached.message(),
        "Element is not attached to the DOM"
    );
    assert_eq!(
        Error::timeout("wait for load state: load".to_string(), 30_000).message(),
        "Timeout: wait for load state: load"
    );
    assert_eq!(
        Error::NotImplemented("Firefox support".to_string()).message(),
        "Feature not implemented: Firefox support"
    );
    assert_eq!(
        Error::strict_mode_violation("div".to_string(), 12).message(),
        "Multiple elements found matching selector: div (found 12 elements)"
    );
    assert_eq!(
        Error::WebDriver("socket hung up".to_string()).message(),
        "WebDriver error: socket hung up"
    );
    assert_eq!(
        Error::network("refused".to_string()).message(),
        "Network error: refused"
    );
    assert_eq!(
        Error::navigation("bad address".to_string()).message(),
        "Navigation failed: bad address"
    );
    assert_eq!(
        Error::Serialization("bad payload".to_string()).message(),
        "Serialization error: bad payload"
    );
    assert_eq!(
        Error::invalid_argument("negative budget".to_string()).message(),
        "Invalid argument: negative budget"
    );
    assert_eq!(
        Error::ElementNotVisible {
            selector: "p".to_string()
        }
        .message(),
        "Element is not visible: p"
    );
    assert_eq!(
        Error::ElementNotEnabled {
            selector: "p".to_string()
        }
        .message(),
        "Element is not enabled: p"
    );
    assert_eq!(
        Error::ElementNotEditable {
            selector: "p".to_string()
        }
        .message(),
        "Element is not editable: p"
    );
    assert_eq!(
        Error::JsEvaluation("boom".to_string()).message(),
        "JavaScript evaluation failed: boom"
    );
    assert_eq!(
        Error::connection_failed("refused".to_string()).message(),
        "Connection failed: refused"
    );
    assert_eq!(
        Error::BrowserNotFound("nothing installed".to_string()).message(),
        "Browser not found: nothing installed"
    );
    assert_eq!(
        Error::ActionFailed("script exception".to_string()).message(),
        "Action failed: script exception"
    );
    assert_eq!(
        Error::internal("should not happen".to_string()).message(),
        "Internal error: should not happen"
    );
}

#[test]
fn test_error_retryability() {
    assert!(Error::element_not_found("p".to_string()).is_retryable());
    assert!(Error::ActionFailed("script exception".to_string()).is_retryable());
    assert!(!Error::BrowserClosed.is_retryable());
    assert!(Error::BrowserClosed.is_session_closed());
    assert!(Error::PageClosed.is_session_closed());
    assert!(!Error::Network("refused".to_string()).is_retryable());
}

#[test]
fn test_same_site_values() {
    assert_eq!(same_site_name(SameSite::Strict), "Strict");
    assert_eq!(same_site_name(SameSite::Lax), "Lax");
    assert_eq!(same_site_name(SameSite::Unrestricted), "None");
    assert_eq!(same_site_of_name("Strict"), SameSite::Strict);
    assert_eq!(same_site_of_name("None"), SameSite::Unrestricted);
    assert_eq!(same_site_of_name("anything"), SameSite::Lax);
    assert_eq!(SameSite::default(), SameSite::Lax);
}

#[test]
fn test_select_latest_revision() {
    let revisions = vec![
        "1290".to_string(),
        "1310".to_string(),
        "1300".to_string(),
        "1310".to_string(),
    ];
    assert_eq!(
        sparkle::browser_api::select_latest_revision(&revisions),
        Some(1)
    );
    let empty: Vec<String> = Vec::new();
    assert_eq!(sparkle::browser_api::select_latest_revision(&empty), None);
}

#[test]
fn test_channel_executable_names() {
    let names = sparkle::browser_api::channel_executable_names("chrome", false).unwrap();
    assert_eq!(names, vec!["google-chrome".to_string(), "chrome".to_string()]);
    let windows = sparkle::browser_api::channel_executable_names("msedge", true).unwrap();
    assert_eq!(windows, vec!["msedge.exe".to_string()]);
    assert!(sparkle::browser_api::channel_executable_names("netscape", false).is_err());
}

#[test]
fn test_launch_capability_assembly() {
    let options = LaunchOptions {
        devtools: Some(true),
        headless: Some(true),
        args: vec!["--lang=de".to_string()],
        ignore_default_args: vec!["--no-sandbox".to_string()],
        ..LaunchOptions::default()
    };
    let caps = sparkle::capabilities::assemble_launch_capabilities(&options);
    // Opening the DevTools panel forces a headful browser.
    assert!(!caps.headless);
    assert_eq!(
        caps.args,
        vec![
            "--lang=de".to_string(),
            "--auto-open-devtools-for-tabs".to_string(),
            "--disable-dev-shm-usage".to_string(),
            "--disable-blink-features=AutomationControlled".to_string(),
        ]
    );

    let plain = sparkle::capabilities::assemble_launch_capabilities(&LaunchOptions::default());
    assert!(plain.headless);
    assert_eq!(
        plain.args,
        vec![
            "--no-sandbox".to_string(),
            "--disable-dev-shm-usage".to_string(),
            "--disable-blink-features=AutomationControlled".to_string(),
        ]
    );
}

#[test]
fn test_connect_capability_assembly() {
    let options = sparkle::options::ConnectOptions {
        args: vec!["--window-size=1024,768".to_string()],
        executable_path: Some("/opt/browser/bin".to_string()),
        ..sparkle::options::ConnectOptions::default()
    };
    let caps = sparkle::capabilities::assemble_connect_capabilities(&options);
    assert!(caps.headless);
    assert_eq!(caps.args, vec!["--window-size=1024,768".to_string()]);
    assert_eq!(caps.binary, Some("/opt/browser/bin".to_string()));
}
