//! Browser kinds, the automation entry point, and the pure decisions of
//! the executable-discovery path.
//!
//! Launching, connecting and probing the filesystem for installed browsers
//! happen outside the library; what stands here is what those flows decide
//! on plain values — which browser kinds are implemented, which candidate
//! executables a distribution channel maps to, and which of the installed
//! revisions is the newest.

use vstd::prelude::*;

use crate::errors::Error;
use crate::text::lex_lt;
use crate::text::spec_lex_le;
use crate::text::spec_lex_lt;
use crate::text::str_eq;

verus! {

/// The browser engines the automation surface knows.
#[derive(Debug, Clone, Copy, PartialEq, Eq, Structural)]
pub enum BrowserName {
    Chromium,
    Firefox,
    WebKit,
}

impl BrowserName {
    /// The engine's name.
    pub fn name_str(&self) -> (r: &'static str)
        ensures
            *self == BrowserName::Chromium ==> r@ == "chromium"@,
            *self == BrowserName::Firefox ==> r@ == "firefox"@,
            *self == BrowserName::WebKit ==> r@ == "webkit"@,
    {
        match self {
            BrowserName::Chromium => "chromium",
            BrowserName::Firefox => "firefox",
            BrowserName::WebKit => "webkit",
        }
    }
}

/// One launchable browser kind. Only Chromium is implemented; the other
/// two refuse every operation with `NotImplemented`.
#[derive(Debug, Clone, Copy, PartialEq, Eq, Structural)]
pub struct BrowserType {
    name: BrowserName,
}

impl BrowserType {
    /// The engine this type launches, as the contracts see it.
    pub closed spec fn spec_name(&self) -> BrowserName {
        self.name
    }

    /// The browser type for an engine.
    pub fn new(name: BrowserName) -> (r: BrowserType)
        ensures
            r.spec_name() == name,
    {
        BrowserType { name }
    }

    /// The engine this type launches.
    pub fn name(&self) -> (r: BrowserName)
        ensures
            r == self.spec_name(),
    {
        self.name
    }

    /// Whether launching this engine is implemented at all; launch and
    /// connect flows refuse the other engines before doing any work.
    pub fn launch_supported(&self) -> (r: Result<(), Error>)
        ensures
            self.spec_name() == BrowserName::Chromium ==> r == Ok::<(), Error>(()),
            self.spec_name() == BrowserName::Firefox ==> (r matches Err(e) && e matches
                Error::NotImplemented(m) && m@ == "Firefox support"@),
            self.spec_name() == BrowserName::WebKit ==> (r matches Err(e) && e matches
                Error::NotImplemented(m) && m@ == "WebKit support"@),
    {
        match self.name {
            BrowserName::Chromium => Ok(()),
            BrowserName::Firefox => Err(Error::NotImplemented("Firefox support".to_owned())),
            BrowserName::WebKit => Err(Error::NotImplemented("WebKit support".to_owned())),
        }
    }

    /// The path of the installed browser executable, given the installed
    /// revision directory names the filesystem probe found. Firefox and
    /// WebKit are not implemented; for Chromium, an empty revision list
    /// means no installation was found, and otherwise the caller resolves
    /// the newest revision ([`select_latest_revision`]) to a path.
    pub fn executable_path(&self, installed_revisions: &Vec<String>) -> (r: Result<usize, Error>)
        ensures
            self.spec_name() == BrowserName::Firefox ==> (r matches Err(e) && e is NotImplemented),
            self.spec_name() == BrowserName::WebKit ==> (r matches Err(e) && e is NotImplemented),
            self.spec_name() == BrowserName::Chromium && installed_revisions@.len() == 0 ==> (r matches
                Err(e) && e is BrowserNotFound),
            self.spec_name() == BrowserName::Chromium && installed_revisions@.len() > 0 ==> (r matches Ok(
                i,
            ) && i < installed_revisions@.len() && forall|j: int|
                0 <= j < installed_revisions@.len() ==> spec_lex_le(
                    installed_revisions@[j]@,
                    installed_revisions@[i as int]@,
                )),
    {
        match self.name {
            BrowserName::Chromium => match select_latest_revision(installed_revisions) {
                Some(i) => Ok(i),
                None => Err(
                    Error::BrowserNotFound("No Chromium installations found".to_owned()),
                ),
            },
            BrowserName::Firefox => Err(Error::NotImplemented("Firefox support".to_owned())),
            BrowserName::WebKit => Err(Error::NotImplemented("WebKit support".to_owned())),
        }
    }
}

/// The index of the newest installed revision: the lexicographically
/// greatest name, and the first of them where several are equal.
pub fn select_latest_revision(revisions: &Vec<String>) -> (r: Option<usize>)
    ensures
        revisions@.len() == 0 ==> r is None,
        revisions@.len() > 0 ==> (r matches Some(b) && b < revisions@.len() && (forall|j: int|
            0 <= j < revisions@.len() ==> spec_lex_le(revisions@[j]@, revisions@[b as int]@)) && (
        forall|j: int| 0 <= j < b ==> spec_lex_lt(revisions@[j]@, revisions@[b as int]@))),
{
    if revisions.len() == 0 {
        return None;
    }
    let mut best: usize = 0;
    let mut i: usize = 1;
    while i < revisions.len()
        invariant
            1 <= i <= revisions@.len(),
            best < i,
            forall|j: int| 0 <= j < i ==> spec_lex_le(revisions@[j]@, revisions@[best as int]@),
            forall|j: int| 0 <= j < best ==> spec_lex_lt(revisions@[j]@, revisions@[best as int]@),
        decreases revisions@.len() - i,
    {
        if lex_lt(revisions[best].as_str(), revisions[i].as_str()) {
            proof {
                assert forall|j: int|
                    0 <= j < i + 1 implies spec_lex_le(
                    revisions@[j]@,
                    revisions@[i as int]@,
                ) by {
                    if j < i {
                        if spec_lex_lt(revisions@[j]@, revisions@[best as int]@) {
                            crate::text::lemma_lex_trans(
                                revisions@[j]@,
                                revisions@[best as int]@,
                                revisions@[i as int]@,
                            );
                        }
                    }
                }
                assert forall|j: int|
                    0 <= j < i implies spec_lex_lt(revisions@[j]@, revisions@[i as int]@) by {
                    if spec_lex_lt(revisions@[j]@, revisions@[best as int]@) {
                        crate::text::lemma_lex_trans(
                            revisions@[j]@,
                            revisions@[best as int]@,
                            revisions@[i as int]@,
                        );
                    }
                }
            }
            best = i;
        } else {
            proof {
                crate::text::lemma_lex_connex(revisions@[i as int]@, revisions@[best as int]@);
            }
        }
        i = i + 1;
    }
    Some(best)
}

/// The names under which a distribution channel's executable is looked
/// for, per platform family: the Chrome and Edge channels map to their
/// binary names, and an unknown channel is refused with `BrowserNotFound`.
pub fn channel_executable_names(channel: &str, windows: bool) -> (r: Result<Vec<String>, Error>)
    ensures
        r matches Err(e) ==> e is BrowserNotFound,
        channel@ == "chrome"@ ==> r is Ok,
        channel@ == "msedge"@ ==> r is Ok,
{
    proof {
        reveal_strlit("chrome");
        reveal_strlit("chrome-beta");
        reveal_strlit("chrome-dev");
        reveal_strlit("chrome-canary");
        reveal_strlit("msedge");
        reveal_strlit("msedge-beta");
        reveal_strlit("msedge-dev");
        assert("chrome"@.len() == 6);
        assert("chrome-beta"@.len() == 11);
        assert("chrome-dev"@.len() == 10);
        assert("chrome-canary"@.len() == 13);
        assert("msedge"@.len() == 6);
        assert("msedge-beta"@.len() == 11);
        assert("msedge-dev"@.len() == 10);
        assert("chrome"@[0] == 'c');
        assert("msedge"@[0] == 'm');
        assert("chrome-beta"@[0] == 'c');
        assert("msedge-beta"@[0] == 'm');
        assert("chrome-dev"@[0] == 'c');
        assert("msedge-dev"@[0] == 'm');
    }
    let mut names: Vec<String> = Vec::new();
    if str_eq(channel, "chrome") {
        if windows {
            names.push("chrome.exe".to_owned());
        } else {
            names.push("google-chrome".to_owned());
            names.push("chrome".to_owned());
        }
        Ok(names)
    } else if str_eq(channel, "chrome-beta") {
        if windows {
            names.push("chrome.exe".to_owned());
        } else {
            names.push("google-chrome-beta".to_owned());
        }
        Ok(names)
    } else if str_eq(channel, "chrome-dev") {
        if windows {
            names.push("chrome.exe".to_owned());
        } else {
            names.push("google-chrome-unstable".to_owned());
        }
        Ok(names)
    } else if str_eq(channel, "chrome-canary") {
        if windows {
            names.push("chrome.exe".to_owned());
            Ok(names)
        } else {
            let mut m: String = "Unknown channel: ".to_owned();
            m.append(channel);
            Err(Error::BrowserNotFound(m))
        }
    } else if str_eq(channel, "msedge") {
        if windows {
            names.push("msedge.exe".to_owned());
        } else {
            names.push("microsoft-edge".to_owned());
        }
        Ok(names)
    } else if str_eq(channel, "msedge-beta") {
        if windows {
            names.push("msedge.exe".to_owned());
        } else {
            names.push("microsoft-edge-beta".to_owned());
        }
        Ok(names)
    } else if str_eq(channel, "msedge-dev") {
        if windows {
            names.push("msedge.exe".to_owned());
        } else {
            names.push("microsoft-edge-dev".to_owned());
        }
        Ok(names)
    } else {
        let mut m: String = "Unknown channel: ".to_owned();
        m.append(channel);
        Err(Error::BrowserNotFound(m))
    }
}

/// The automation entry point: one handle per browser engine.
pub struct Playwright {
    chromium: BrowserType,
    firefox: BrowserType,
    webkit: BrowserType,
}

impl Playwright {
    /// A fresh entry point with the three engines.
    pub fn new() -> (r: Playwright)
        ensures
            r.spec_chromium().spec_name() == BrowserName::Chromium,
            r.spec_firefox().spec_name() == BrowserName::Firefox,
            r.spec_webkit().spec_name() == BrowserName::WebKit,
    {
        Playwright {
            chromium: BrowserType::new(BrowserName::Chromium),
            firefox: BrowserType::new(BrowserName::Firefox),
            webkit: BrowserType::new(BrowserName::WebKit),
        }
    }

    /// The engine handles, as the contracts see them.
    pub closed spec fn spec_chromium(&self) -> BrowserType {
        self.chromium
    }

    /// The Firefox handle, as the contracts see it.
    pub closed spec fn spec_firefox(&self) -> BrowserType {
        self.firefox
    }

    /// The WebKit handle, as the contracts see it.
    pub closed spec fn spec_webkit(&self) -> BrowserType {
        self.webkit
    }

    /// The Chromium browser type.
    pub fn chromium(&self) -> (r: &BrowserType)
        ensures
            *r == self.spec_chromium(),
            r.spec_name() == self.spec_chromium().spec_name(),
    {
        &self.chromium
    }

    /// The Firefox browser type.
    pub fn firefox(&self) -> (r: &BrowserType)
        ensures
            *r == self.spec_firefox(),
            r.spec_name() == self.spec_firefox().spec_name(),
    {
        &self.firefox
    }

    /// The WebKit browser type.
    pub fn webkit(&self) -> (r: &BrowserType)
        ensures
            *r == self.spec_webkit(),
            r.spec_name() == self.spec_webkit().spec_name(),
    {
        &self.webkit
    }

    /// Stop this entry point. Cleanup happens when the value is dropped;
    /// this is the explicit no-op hook callers may use.
    pub fn stop(&mut self)
        ensures
            *final(self) == *old(self),
    {
    }
}

} // verus!
