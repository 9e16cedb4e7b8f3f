//! Header generation for low-observability automation: a User-Agent that
//! matches the browser version, the client-hint headers derived from it,
//! and the Accept-Language header for a locale.

use vstd::prelude::*;

use crate::options::StealthOptions;
use crate::text::prefix_before_char;
use crate::text::spec_until_char;
use crate::text::str_eq;

verus! {

/// The User-Agent string for a browser version on a platform: the
/// platform-specific prefix, the version after "Chrome/", and the trailing
/// Safari token. Platforms other than the three known ones read as Windows.
pub open spec fn spec_user_agent(version: Seq<char>, platform: Seq<char>) -> Seq<char> {
    if platform == "MacIntel"@ {
        "Mozilla/5.0 (Macintosh; Intel Mac OS X 10_15_7) AppleWebKit/537.36 (KHTML, like Gecko) Chrome/"@
            + version + " Safari/537.36"@
    } else if platform == "Linux x86_64"@ {
        "Mozilla/5.0 (X11; Linux x86_64) AppleWebKit/537.36 (KHTML, like Gecko) Chrome/"@ + version
            + " Safari/537.36"@
    } else {
        "Mozilla/5.0 (Windows NT 10.0; Win64; x64) AppleWebKit/537.36 (KHTML, like Gecko) Chrome/"@
            + version + " Safari/537.36"@
    }
}

/// Generate the User-Agent string for a browser version on a platform, as
/// [`spec_user_agent`] says.
pub fn generate_user_agent(chrome_version: &str, platform: &str) -> (r: String)
    ensures
        r@ == spec_user_agent(chrome_version@, platform@),
{
    proof {
        reveal_strlit("Win32");
        reveal_strlit("MacIntel");
        reveal_strlit("Linux x86_64");
        assert("Win32"@.len() == 5);
        assert("MacIntel"@.len() == 8);
        assert("Linux x86_64"@.len() == 12);
    }
    let mut r: String;
    if str_eq(platform, "MacIntel") {
        r =
        "Mozilla/5.0 (Macintosh; Intel Mac OS X 10_15_7) AppleWebKit/537.36 (KHTML, like Gecko) Chrome/".to_owned();
    } else if str_eq(platform, "Linux x86_64") {
        r =
        "Mozilla/5.0 (X11; Linux x86_64) AppleWebKit/537.36 (KHTML, like Gecko) Chrome/".to_owned();
    } else {
        r =
        "Mozilla/5.0 (Windows NT 10.0; Win64; x64) AppleWebKit/537.36 (KHTML, like Gecko) Chrome/".to_owned();
    }
    r.append(chrome_version);
    r.append(" Safari/537.36");
    r
}

/// The major version of a dotted version string: everything before the
/// first dot.
pub open spec fn spec_major_version(version: Seq<char>) -> Seq<char> {
    spec_until_char(version, '.')
}

/// Generate the sec-ch-ua header for a browser version: the not-a-brand
/// token and the Chromium and Chrome brands at the version's major number.
pub fn generate_sec_ch_ua(chrome_version: &str) -> (r: String)
    ensures
        r@ == "\"Not_A Brand\";v=\"8\", \"Chromium\";v=\""@ + spec_major_version(chrome_version@)
            + "\", \"Google Chrome\";v=\""@ + spec_major_version(chrome_version@) + "\""@,
{
    let major = prefix_before_char(chrome_version, '.');
    let mut r: String = "\"Not_A Brand\";v=\"8\", \"Chromium\";v=\"".to_owned();
    r.append(major);
    r.append("\", \"Google Chrome\";v=\"");
    r.append(major);
    r.append("\"");
    r
}

/// Generate the sec-ch-ua-mobile header: always "?0", a desktop browser.
pub fn generate_sec_ch_ua_mobile() -> (r: String)
    ensures
        r@ == "?0"@,
{
    "?0".to_owned()
}

/// The sec-ch-ua-platform value for a platform string; platforms other
/// than the three known ones read as Windows.
pub open spec fn spec_sec_ch_ua_platform(platform: Seq<char>) -> Seq<char> {
    if platform == "MacIntel"@ {
        "\"macOS\""@
    } else if platform == "Linux x86_64"@ {
        "\"Linux\""@
    } else {
        "\"Windows\""@
    }
}

/// Generate the sec-ch-ua-platform header, as
/// [`spec_sec_ch_ua_platform`] says.
pub fn generate_sec_ch_ua_platform(platform: &str) -> (r: String)
    ensures
        r@ == spec_sec_ch_ua_platform(platform@),
{
    proof {
        reveal_strlit("Win32");
        reveal_strlit("MacIntel");
        reveal_strlit("Linux x86_64");
        assert("Win32"@.len() == 5);
        assert("MacIntel"@.len() == 8);
        assert("Linux x86_64"@.len() == 12);
    }
    if str_eq(platform, "MacIntel") {
        "\"macOS\"".to_owned()
    } else if str_eq(platform, "Linux x86_64") {
        "\"Linux\"".to_owned()
    } else {
        "\"Windows\"".to_owned()
    }
}

/// The Accept-Language value for a locale: the locale followed by its bare
/// language at a lower preference, or just the locale's own tag when it
/// has no region part.
pub open spec fn spec_accept_language(locale: Seq<char>) -> Seq<char> {
    match crate::text::spec_first_split(locale, '-') {
        Some(i) => locale + ","@ + locale.take(i) + ";q=0.9"@,
        None => locale + ";q=0.9"@,
    }
}

/// Generate the Accept-Language header from a locale, as
/// [`spec_accept_language`] says.
pub fn generate_accept_language(locale: &str) -> (r: String)
    ensures
        r@ == spec_accept_language(locale@),
{
    match crate::text::find_char(locale, '-') {
        Some(i) => {
            proof {
                crate::text::lemma_first_split_some(locale@, '-', i as int);
            }
            let lang = locale.substring_char(0, i);
            let mut r = locale.to_owned();
            r.append(",");
            r.append(lang);
            r.append(";q=0.9");
            proof {
                assert(lang@ =~= locale@.take(i as int));
            }
            r
        },
        None => {
            proof {
                crate::text::lemma_first_split_none(locale@, '-');
            }
            let mut r = locale.to_owned();
            r.append(";q=0.9");
            r
        },
    }
}

/// The platform identifier this library reports in client-hint headers for
/// its build target.
pub fn get_platform_string() -> (r: String)
    ensures
        r@ == "Linux x86_64"@,
{
    "Linux x86_64".to_owned()
}

/// The header set handed to the browser's user-agent override: the aligned
/// User-Agent, Accept-Language and platform values.
#[derive(Debug, Clone, PartialEq, Eq)]
pub struct HeadersConfig {
    pub user_agent: String,
    pub accept_language: String,
    pub platform: String,
}

impl HeadersConfig {
    /// Build the header set for a browser version under the given stealth
    /// options: the platform string of the build target, the User-Agent for
    /// that platform and version, and the Accept-Language for the options'
    /// locale (or "en-US" when none is set).
    pub fn from_stealth_options(stealth_options: &StealthOptions, chrome_version: &str) -> (r:
        HeadersConfig)
        ensures
            r.platform@ == "Linux x86_64"@,
            r.user_agent@ == spec_user_agent(chrome_version@, "Linux x86_64"@),
            r.accept_language@ == (match stealth_options.locale {
                Some(l) => spec_accept_language(l@),
                None => spec_accept_language("en-US"@),
            }),
    {
        let platform = get_platform_string();
        let user_agent = generate_user_agent(chrome_version, platform.as_str());
        let accept_language = match &stealth_options.locale {
            Some(l) => generate_accept_language(l.as_str()),
            None => generate_accept_language("en-US"),
        };
        HeadersConfig { user_agent, accept_language, platform }
    }
}

} // verus!
