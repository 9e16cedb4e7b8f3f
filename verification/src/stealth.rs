//! The anti-detection script payloads injected into every page.
//!
//! The full script is assembled from fixed parts: the always-on patches for
//! the webdriver flag, the chrome object, plugins, languages, platform and
//! window dimensions, plus the optional permissions, WebGL and canvas
//! patches, each included exactly when its switch is on.

use vstd::prelude::*;

use crate::headers::HeadersConfig;
use crate::headers::spec_accept_language;
use crate::headers::spec_user_agent;
use crate::json::JsonValue;
use crate::options::StealthOptions;

verus! {

/// The always-on opening parts: webdriver flag, chrome object stub,
/// plugins, languages, platform.
pub open spec fn spec_stealth_base() -> Seq<char> {
    "
// Patch navigator.webdriver
Object.defineProperty(navigator, 'webdriver', {
    get: () => false,
    configurable: true
});
"@ + "
// Stub chrome object if it doesn't exist
if (!window.chrome) {
    window.chrome = {};
}
if (!window.chrome.runtime) {
    window.chrome.runtime = {};
}
"@ + "
// Patch plugins to look more natural
Object.defineProperty(navigator, 'plugins', {
    get: () => {
        const plugins = [
            {
                name: 'PDF Viewer',
                filename: 'internal-pdf-viewer',
                description: 'Portable Document Format'
            },
            {
                name: 'Chrome PDF Viewer',
                filename: 'internal-pdf-viewer',
                description: 'Portable Document Format'
            },
            {
                name: 'Chromium PDF Viewer',
                filename: 'internal-pdf-viewer',
                description: 'Portable Document Format'
            }
        ];
        return plugins;
    }
});
"@ + "
// Patch languages if empty
if (!navigator.languages || navigator.languages.length === 0) {
    Object.defineProperty(navigator, 'languages', {
        get: () => ['en-US', 'en'],
        configurable: true
    });
}
"@ + "
// Ensure platform is set
if (!navigator.platform) {
    Object.defineProperty(navigator, 'platform', {
        get: () => 'Win32',
        configurable: true
    });
}
"@
}

/// The optional permissions-query patch.
pub open spec fn spec_permissions_patch() -> Seq<char> {
    "
// Patch permissions.query
const originalQuery = navigator.permissions.query;
navigator.permissions.query = (parameters) => {
    return parameters.name === 'notifications'
        ? Promise.resolve({ state: Notification.permission })
        : originalQuery(parameters);
};
"@
}

/// The optional WebGL vendor and renderer spoof.
pub open spec fn spec_webgl_patch() -> Seq<char> {
    "
// Spoof WebGL vendor and renderer
const getParameter = WebGLRenderingContext.prototype.getParameter;
WebGLRenderingContext.prototype.getParameter = function(parameter) {
    if (parameter === 37445) {
        return 'Intel Inc.';
    }
    if (parameter === 37446) {
        return 'Intel Iris OpenGL Engine';
    }
    return getParameter.apply(this, arguments);
};
"@
}

/// The optional canvas-noise patch.
pub open spec fn spec_canvas_patch() -> Seq<char> {
    "
// Add canvas noise for fingerprint randomization
const originalToDataURL = HTMLCanvasElement.prototype.toDataURL;
HTMLCanvasElement.prototype.toDataURL = function() {
    const context = this.getContext('2d');
    if (context) {
        const imageData = context.getImageData(0, 0, this.width, this.height);
        for (let i = 0; i < imageData.data.length; i += 4) {
            imageData.data[i] += Math.floor(Math.random() * 10) - 5;
            imageData.data[i + 1] += Math.floor(Math.random() * 10) - 5;
            imageData.data[i + 2] += Math.floor(Math.random() * 10) - 5;
        }
        context.putImageData(imageData, 0, 0);
    }
    return originalToDataURL.apply(this, arguments);
};
"@
}

/// The always-on closing part: window dimension normalization.
pub open spec fn spec_window_dims_patch() -> Seq<char> {
    "
// Normalize window dimensions (hairline fix)
if (window.outerWidth === 0) {
    Object.defineProperty(window, 'outerWidth', {
        get: () => window.innerWidth,
        configurable: true
    });
}
if (window.outerHeight === 0) {
    Object.defineProperty(window, 'outerHeight', {
        get: () => window.innerHeight,
        configurable: true
    });
}
"@
}

/// The whole injection script for a switch combination.
pub open spec fn spec_stealth_script(
    webgl_spoof: bool,
    canvas_noise: bool,
    permissions_patch: bool,
) -> Seq<char> {
    spec_stealth_base() + (if permissions_patch {
        spec_permissions_patch()
    } else {
        Seq::empty()
    }) + (if webgl_spoof {
        spec_webgl_patch()
    } else {
        Seq::empty()
    }) + (if canvas_noise {
        spec_canvas_patch()
    } else {
        Seq::empty()
    }) + spec_window_dims_patch()
}

/// Build the anti-detection script: the always-on patches for the
/// webdriver flag, chrome object, plugins, languages and platform, the
/// optional permissions, WebGL and canvas patches exactly when their
/// switches are on, and the window-dimension normalization, in that order.
pub fn get_stealth_script(webgl_spoof: bool, canvas_noise: bool, permissions_patch: bool) -> (r:
    String)
    ensures
        r@ == spec_stealth_script(webgl_spoof, canvas_noise, permissions_patch),
{
    let mut script = String::new();
    script.append(
        "
// Patch navigator.webdriver
Object.defineProperty(navigator, 'webdriver', {
    get: () => false,
    configurable: true
});
",
    );
    script.append(
        "
// Stub chrome object if it doesn't exist
if (!window.chrome) {
    window.chrome = {};
}
if (!window.chrome.runtime) {
    window.chrome.runtime = {};
}
",
    );
    script.append(
        "
// Patch plugins to look more natural
Object.defineProperty(navigator, 'plugins', {
    get: () => {
        const plugins = [
            {
                name: 'PDF Viewer',
                filename: 'internal-pdf-viewer',
                description: 'Portable Document Format'
            },
            {
                name: 'Chrome PDF Viewer',
                filename: 'internal-pdf-viewer',
                description: 'Portable Document Format'
            },
            {
                name: 'Chromium PDF Viewer',
                filename: 'internal-pdf-viewer',
                description: 'Portable Document Format'
            }
        ];
        return plugins;
    }
});
",
    );
    script.append(
        "
// Patch languages if empty
if (!navigator.languages || navigator.languages.length === 0) {
    Object.defineProperty(navigator, 'languages', {
        get: () => ['en-US', 'en'],
        configurable: true
    });
}
",
    );
    script.append(
        "
// Ensure platform is set
if (!navigator.platform) {
    Object.defineProperty(navigator, 'platform', {
        get: () => 'Win32',
        configurable: true
    });
}
",
    );
    if permissions_patch {
        script.append(
            "
// Patch permissions.query
const originalQuery = navigator.permissions.query;
navigator.permissions.query = (parameters) => {
    return parameters.name === 'notifications'
        ? Promise.resolve({ state: Notification.permission })
        : originalQuery(parameters);
};
",
        );
    }
    if webgl_spoof {
        script.append(
            "
// Spoof WebGL vendor and renderer
const getParameter = WebGLRenderingContext.prototype.getParameter;
WebGLRenderingContext.prototype.getParameter = function(parameter) {
    if (parameter === 37445) {
        return 'Intel Inc.';
    }
    if (parameter === 37446) {
        return 'Intel Iris OpenGL Engine';
    }
    return getParameter.apply(this, arguments);
};
",
        );
    }
    if canvas_noise {
        script.append(
            "
// Add canvas noise for fingerprint randomization
const originalToDataURL = HTMLCanvasElement.prototype.toDataURL;
HTMLCanvasElement.prototype.toDataURL = function() {
    const context = this.getContext('2d');
    if (context) {
        const imageData = context.getImageData(0, 0, this.width, this.height);
        for (let i = 0; i < imageData.data.length; i += 4) {
            imageData.data[i] += Math.floor(Math.random() * 10) - 5;
            imageData.data[i + 1] += Math.floor(Math.random() * 10) - 5;
            imageData.data[i + 2] += Math.floor(Math.random() * 10) - 5;
        }
        context.putImageData(imageData, 0, 0);
    }
    return originalToDataURL.apply(this, arguments);
};
",
        );
    }
    script.append(
        "
// Normalize window dimensions (hairline fix)
if (window.outerWidth === 0) {
    Object.defineProperty(window, 'outerWidth', {
        get: () => window.innerWidth,
        configurable: true
    });
}
if (window.outerHeight === 0) {
    Object.defineProperty(window, 'outerHeight', {
        get: () => window.innerHeight,
        configurable: true
    });
}
",
    );
    proof {
        assert(script@ =~= spec_stealth_script(webgl_spoof, canvas_noise, permissions_patch));
    }
    script
}

/// What a stealth setup plan holds for a configuration and browser
/// version: the user-agent override with the aligned headers when header
/// alignment is on; then the timezone and locale overrides when each is
/// set; and last, always, the injection of the stealth script on every new
/// document. Geolocation coordinates live with the layer that performs the
/// calls and are no part of this plan.
pub open spec fn spec_stealth_plan_ok(
    o: StealthOptions,
    version: Seq<char>,
    plan: Seq<(String, JsonValue)>,
) -> bool {
    let n_header = if o.header_alignment {
        1int
    } else {
        0int
    };
    let n_tz = if o.timezone_id is Some {
        1int
    } else {
        0int
    };
    let n_loc = if o.locale is Some {
        1int
    } else {
        0int
    };
    &&& plan.len() == n_header + n_tz + n_loc + 1
    &&& o.header_alignment ==> (plan[0].0@ == "Network.setUserAgentOverride"@ && (plan[0].1 matches
        JsonValue::Obj(f) && f@.len() == 3 && f@[0].0@ == "userAgent"@ && (f@[0].1 matches
        JsonValue::Str(s) && s@ == spec_user_agent(version, "Linux x86_64"@)) && f@[1].0@
        == "acceptLanguage"@ && (f@[1].1 matches JsonValue::Str(s) && s@ == (match o.locale {
        Some(l) => spec_accept_language(l@),
        None => spec_accept_language("en-US"@),
    })) && f@[2].0@ == "platform"@ && (f@[2].1 matches JsonValue::Str(s) && s@
        == "Linux x86_64"@)))
    &&& (o.timezone_id matches Some(tz) ==> (plan[n_header].0@ == "Emulation.setTimezoneOverride"@
        && (plan[n_header].1 matches JsonValue::Obj(f) && f@.len() == 1 && f@[0].0@
        == "timezoneId"@ && (f@[0].1 matches JsonValue::Str(s) && s@ == tz@))))
    &&& (o.locale matches Some(l) ==> (plan[n_header + n_tz].0@ == "Emulation.setLocaleOverride"@
        && (plan[n_header + n_tz].1 matches JsonValue::Obj(f) && f@.len() == 1 && f@[0].0@
        == "locale"@ && (f@[0].1 matches JsonValue::Str(s) && s@ == l@))))
    &&& plan[n_header + n_tz + n_loc].0@ == "Page.addScriptToEvaluateOnNewDocument"@
    &&& (plan[n_header + n_tz + n_loc].1 matches JsonValue::Obj(f) && f@.len() == 2 && f@[0].0@
        == "source"@ && (f@[0].1 matches JsonValue::Str(s) && s@ == spec_stealth_script(
        o.webgl_spoof,
        o.canvas_noise,
        o.permissions_patch,
    )) && f@[1].0@ == "runImmediately"@ && f@[1].1 == JsonValue::Bool(true))
}

/// The sequence of debugging-protocol commands that sets a page up for
/// stealth under the given configuration and browser version, exactly as
/// [`spec_stealth_plan_ok`] says. The caller dispatches each command in
/// order.
pub fn stealth_setup_plan(options: &StealthOptions, browser_version: &str) -> (r: Vec<
    (String, JsonValue),
>)
    ensures
        spec_stealth_plan_ok(*options, browser_version@, r@),
{
    let mut plan: Vec<(String, JsonValue)> = Vec::new();
    if options.header_alignment {
        let headers = HeadersConfig::from_stealth_options(options, browser_version);
        let mut fields: Vec<(String, JsonValue)> = Vec::new();
        fields.push(("userAgent".to_owned(), JsonValue::Str(headers.user_agent)));
        fields.push(("acceptLanguage".to_owned(), JsonValue::Str(headers.accept_language)));
        fields.push(("platform".to_owned(), JsonValue::Str(headers.platform)));
        plan.push(("Network.setUserAgentOverride".to_owned(), JsonValue::Obj(fields)));
    }
    match &options.timezone_id {
        Some(tz) => {
            let mut fields: Vec<(String, JsonValue)> = Vec::new();
            fields.push(("timezoneId".to_owned(), JsonValue::Str(tz.clone())));
            plan.push(("Emulation.setTimezoneOverride".to_owned(), JsonValue::Obj(fields)));
        },
        None => {},
    }
    match &options.locale {
        Some(l) => {
            let mut fields: Vec<(String, JsonValue)> = Vec::new();
            fields.push(("locale".to_owned(), JsonValue::Str(l.clone())));
            plan.push(("Emulation.setLocaleOverride".to_owned(), JsonValue::Obj(fields)));
        },
        None => {},
    }
    let script = get_stealth_script(
        options.webgl_spoof,
        options.canvas_noise,
        options.permissions_patch,
    );
    let mut fields: Vec<(String, JsonValue)> = Vec::new();
    fields.push(("source".to_owned(), JsonValue::Str(script)));
    fields.push(("runImmediately".to_owned(), JsonValue::Bool(true)));
    plan.push(("Page.addScriptToEvaluateOnNewDocument".to_owned(), JsonValue::Obj(fields)));
    plan
}

/// The minimal anti-detection script: just the webdriver flag patch.
pub fn get_minimal_stealth_script() -> (r: &'static str)
    ensures
        r@ == "
// Patch navigator.webdriver
Object.defineProperty(navigator, 'webdriver', {
    get: () => false,
    configurable: true
});
"@,
{
    "
// Patch navigator.webdriver
Object.defineProperty(navigator, 'webdriver', {
    get: () => false,
    configurable: true
});
"
}

} // verus!
