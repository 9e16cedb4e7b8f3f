//! Platform targets and the download addresses of the browser and driver
//! archives for each of them.

use vstd::prelude::*;

verus! {

/// An operating system and architecture the browser archives are built for.
#[derive(Debug, Clone, Copy, PartialEq, Eq, Structural)]
pub enum Platform {
    WindowsX64,
    WindowsArm64,
    LinuxX64,
    LinuxArm64,
    MacOsX64,
    MacOsArm64,
}

/// The path segment of a platform in the archive repository.
pub open spec fn spec_platform_segment(p: Platform) -> Seq<char> {
    match p {
        Platform::WindowsX64 => "win64"@,
        Platform::WindowsArm64 => "win-arm64"@,
        Platform::LinuxX64 => "linux64"@,
        Platform::LinuxArm64 => "linux-arm64"@,
        Platform::MacOsX64 => "mac-x64"@,
        Platform::MacOsArm64 => "mac-arm64"@,
    }
}

impl Platform {
    /// The platform's path segment in the archive repository.
    fn segment(&self) -> (r: &'static str)
        ensures
            r@ == spec_platform_segment(*self),
    {
        match self {
            Platform::WindowsX64 => "win64",
            Platform::WindowsArm64 => "win-arm64",
            Platform::LinuxX64 => "linux64",
            Platform::LinuxArm64 => "linux-arm64",
            Platform::MacOsX64 => "mac-x64",
            Platform::MacOsArm64 => "mac-arm64",
        }
    }

    /// The browser archive address for this platform and version:
    /// the archive repository, the version, the platform segment, and the
    /// platform-tagged archive name.
    pub fn chrome_download_url(&self, version: &str) -> (r: String)
        ensures
            r@ == "https://storage.googleapis.com/chrome-for-testing-public/"@ + version@ + "/"@
                + spec_platform_segment(*self) + "/chrome-"@ + spec_platform_segment(*self)
                + ".zip"@,
    {
        let mut r: String = "https://storage.googleapis.com/chrome-for-testing-public/".to_owned();
        r.append(version);
        r.append("/");
        r.append(self.segment());
        r.append("/chrome-");
        r.append(self.segment());
        r.append(".zip");
        r
    }

    /// The driver archive address for this platform and version, next to
    /// the browser archive.
    pub fn chromedriver_download_url(&self, version: &str) -> (r: String)
        ensures
            r@ == "https://storage.googleapis.com/chrome-for-testing-public/"@ + version@ + "/"@
                + spec_platform_segment(*self) + "/chromedriver-"@ + spec_platform_segment(*self)
                + ".zip"@,
    {
        let mut r: String = "https://storage.googleapis.com/chrome-for-testing-public/".to_owned();
        r.append(version);
        r.append("/");
        r.append(self.segment());
        r.append("/chromedriver-");
        r.append(self.segment());
        r.append(".zip");
        r
    }

    /// The executable file extension on this platform: ".exe" on Windows,
    /// nothing elsewhere.
    pub fn executable_extension(&self) -> (r: &'static str)
        ensures
            (*self == Platform::WindowsX64 || *self == Platform::WindowsArm64) ==> r@ == ".exe"@,
            !(*self == Platform::WindowsX64 || *self == Platform::WindowsArm64) ==> r@ == ""@,
    {
        match self {
            Platform::WindowsX64 => ".exe",
            Platform::WindowsArm64 => ".exe",
            _ => "",
        }
    }

    /// The platform's name.
    pub fn name(&self) -> (r: &'static str)
        ensures
            *self == Platform::WindowsX64 ==> r@ == "windows-x64"@,
            *self == Platform::WindowsArm64 ==> r@ == "windows-arm64"@,
            *self == Platform::LinuxX64 ==> r@ == "linux-x64"@,
            *self == Platform::LinuxArm64 ==> r@ == "linux-arm64"@,
            *self == Platform::MacOsX64 ==> r@ == "macos-x64"@,
            *self == Platform::MacOsArm64 ==> r@ == "macos-arm64"@,
    {
        match self {
            Platform::WindowsX64 => "windows-x64",
            Platform::WindowsArm64 => "windows-arm64",
            Platform::LinuxX64 => "linux-x64",
            Platform::LinuxArm64 => "linux-arm64",
            Platform::MacOsX64 => "macos-x64",
            Platform::MacOsArm64 => "macos-arm64",
        }
    }

    /// The platform for an operating system and architecture pair, as the
    /// build environment names them; pairs outside the six targets are not
    /// supported.
    pub fn from_os_arch(os: &str, arch: &str) -> (r: Option<Platform>)
        ensures
            os@ == "windows"@ && arch@ == "x86_64"@ ==> r == Some(Platform::WindowsX64),
            os@ == "windows"@ && arch@ == "aarch64"@ ==> r == Some(Platform::WindowsArm64),
            os@ == "linux"@ && arch@ == "x86_64"@ ==> r == Some(Platform::LinuxX64),
            os@ == "linux"@ && arch@ == "aarch64"@ ==> r == Some(Platform::LinuxArm64),
            os@ == "macos"@ && arch@ == "x86_64"@ ==> r == Some(Platform::MacOsX64),
            os@ == "macos"@ && arch@ == "aarch64"@ ==> r == Some(Platform::MacOsArm64),
            !((os@ == "windows"@ || os@ == "linux"@ || os@ == "macos"@) && (arch@ == "x86_64"@
                || arch@ == "aarch64"@)) ==> r is None,
    {
        proof {
            reveal_strlit("windows");
            reveal_strlit("linux");
            reveal_strlit("macos");
            reveal_strlit("x86_64");
            reveal_strlit("aarch64");
            assert("windows"@.len() == 7);
            assert("linux"@.len() == 5);
            assert("macos"@.len() == 5);
            assert("linux"@[0] == 'l');
            assert("macos"@[0] == 'm');
            assert("x86_64"@.len() == 6);
            assert("aarch64"@.len() == 7);
        }
        let is_x64 = crate::text::str_eq(arch, "x86_64");
        let is_arm = crate::text::str_eq(arch, "aarch64");
        if crate::text::str_eq(os, "windows") {
            if is_x64 {
                Some(Platform::WindowsX64)
            } else if is_arm {
                Some(Platform::WindowsArm64)
            } else {
                None
            }
        } else if crate::text::str_eq(os, "linux") {
            if is_x64 {
                Some(Platform::LinuxX64)
            } else if is_arm {
                Some(Platform::LinuxArm64)
            } else {
                None
            }
        } else if crate::text::str_eq(os, "macos") {
            if is_x64 {
                Some(Platform::MacOsX64)
            } else if is_arm {
                Some(Platform::MacOsArm64)
            } else {
                None
            }
        } else {
            None
        }
    }
}

} // verus!
