//! The host platform and what is known of a rez installation on it.

use crate::error::RezToolsError;
use crate::locator::ProbedPath;
use crate::text::{chars_of, str_eq, string_of, trim, trim_of};
use vstd::prelude::*;
use vstd::string::*;

verus! {

/// Platform information.
#[derive(Debug, Clone)]
pub struct Platform {
    pub os: String,
    pub arch: String,
    pub target_triple: String,
}

/// The pairs of operating system and architecture that a self-contained
/// runtime exists for.
pub open spec fn supported_pair(os: Seq<char>, arch: Seq<char>) -> bool {
    (os == "windows"@ && arch == "x86_64"@) || (os == "linux"@ && arch == "x86_64"@) || (os
        == "macos"@ && arch == "x86_64"@) || (os == "macos"@ && arch == "aarch64"@)
}

/// The suffix of executable files on an operating system.
pub open spec fn exe_extension_of(os: Seq<char>) -> Seq<char> {
    if os == "windows"@ {
        ".exe"@
    } else {
        ""@
    }
}

/// The suffix of shared libraries on an operating system.
pub open spec fn lib_extension_of(os: Seq<char>) -> Seq<char> {
    if os == "windows"@ {
        ".dll"@
    } else if os == "macos"@ {
        ".dylib"@
    } else {
        ".so"@
    }
}

impl Platform {
    /// The platform with the given operating system and architecture names,
    /// as the host reports them. The target triple is the architecture, a
    /// hyphen and the operating system.
    pub fn detect(os: &str, arch: &str) -> (p: Platform)
        ensures
            p.os@ == os@,
            p.arch@ == arch@,
            p.target_triple@ == arch@ + "-"@ + os@,
    {
        Platform {
            os: String::from_str(os),
            arch: String::from_str(arch),
            target_triple: String::from_str(arch).concat("-").concat(os),
        }
    }

    /// Whether the operating system is Windows.
    pub fn is_windows(&self) -> (b: bool)
        ensures
            b == (self.os@ == "windows"@),
    {
        str_eq(self.os.as_str(), "windows")
    }

    /// Get platform-specific executable extension.
    pub fn exe_extension(&self) -> (r: &'static str)
        ensures
            r@ == exe_extension_of(self.os@),
    {
        if str_eq(self.os.as_str(), "windows") {
            ".exe"
        } else {
            ""
        }
    }

    /// Get platform-specific library extension.
    pub fn lib_extension(&self) -> (r: &'static str)
        ensures
            r@ == lib_extension_of(self.os@),
    {
        if str_eq(self.os.as_str(), "windows") {
            ".dll"
        } else if str_eq(self.os.as_str(), "macos") {
            ".dylib"
        } else {
            ".so"
        }
    }

    /// Check if platform is supported.
    pub fn is_supported(&self) -> (b: bool)
        ensures
            b == supported_pair(self.os@, self.arch@),
    {
        let os = self.os.as_str();
        let arch = self.arch.as_str();
        (str_eq(os, "windows") && str_eq(arch, "x86_64")) || (str_eq(os, "linux") && str_eq(
            arch,
            "x86_64",
        )) || (str_eq(os, "macos") && str_eq(arch, "x86_64")) || (str_eq(os, "macos") && str_eq(
            arch,
            "aarch64",
        ))
    }
}

/// Rez environment information.
#[derive(Debug, Clone)]
pub struct RezEnvironment {
    pub rez_path: Option<String>,
    pub python_path: Option<String>,
    pub packages_path: Vec<String>,
    pub is_installed: bool,
    pub version: Option<String>,
}

impl RezEnvironment {
    /// Whether rez has to be installed before it can be used.
    pub fn needs_install(&self) -> (b: bool)
        ensures
            b == !self.is_installed,
    {
        !self.is_installed
    }

    /// Get rez command path: the executable below the known rez directory
    /// where that directory is known and the executable exists; otherwise
    /// what the search of the command path printed, without the white space
    /// around it; and without either, an error that tells how to install rez.
    pub fn rez_command(&self, bundled: Option<&ProbedPath>, which_output: Option<&str>) -> (r:
        Result<String, RezToolsError>)
        ensures
            if self.rez_path is Some && bundled is Some && bundled->0.exists {
                r is Ok && r->Ok_0@ == bundled->0.path@
            } else {
                match which_output {
                    Some(out) => r is Ok && r->Ok_0@ == trim_of(out@, None),
                    None => r is Err && r->Err_0.is_config(
                        "Rez command not found. Please install rez or run 'rt install-rez'"@,
                    ),
                }
            },
    {
        if self.rez_path.is_some() {
            if let Some(b) = bundled {
                if b.exists {
                    return Ok(b.path.clone());
                }
            }
        }
        match which_output {
            Some(out) => Ok(string_of(&trim(&chars_of(out)))),
            None => Err(
                RezToolsError::ConfigError(
                    String::from_str(
                        "Rez command not found. Please install rez or run 'rt install-rez'",
                    ),
                ),
            ),
        }
    }
}

} // verus!
