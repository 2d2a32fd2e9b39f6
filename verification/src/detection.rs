//! Putting together what is known of a rez installation from what was found
//! on the machine, and reading the configuration that rez prints.

use crate::error::RezToolsError;
use crate::locator::{first_existing, first_existing_from, ProbedPath};
use crate::platform::RezEnvironment;
use crate::text::{
    chars_of, copy_range, has_prefix, split_char, split_of, starts_with, string_of,
    string_views, trim, trim_class, trim_of, views_of,
};
use vstd::prelude::*;
use vstd::string::*;

verus! {

/// What the configuration of rez says of interest here.
#[derive(Debug, Clone)]
pub struct RezConfig {
    pub packages_path: Vec<String>,
    pub python_path: Option<String>,
}

/// A value without the white space and the quotes around it.
pub open spec fn unquoted(s: Seq<char>) -> Seq<char> {
    trim_of(trim_of(trim_of(s, None), Some('"')), Some('\''))
}

/// What follows a prefix of a text.
pub open spec fn after_prefix(s: Seq<char>, prefix: Seq<char>) -> Seq<char> {
    s.subrange(prefix.len() as int, s.len() as int)
}

/// The values among the first `n` pieces that are not empty once unquoted,
/// unquoted and in order.
pub open spec fn items_upto(pieces: Seq<Seq<char>>, n: int) -> Seq<Seq<char>>
    decreases n,
{
    if n <= 0 || n > pieces.len() {
        seq![]
    } else {
        let before = items_upto(pieces, n - 1);
        let item = unquoted(pieces[n - 1]);
        if item.len() > 0 {
            before.push(item)
        } else {
            before
        }
    }
}

/// The values of a list written between commas.
pub open spec fn items_of(content: Seq<char>) -> Seq<Seq<char>> {
    items_upto(split_of(content, ','), split_of(content, ',').len() as int)
}

/// The text is a list in square brackets.
pub open spec fn is_bracketed(s: Seq<char>) -> bool {
    s.len() >= 2 && s[0] == '[' && s[s.len() - 1] == ']'
}

/// The package paths that one line of the configuration gives: those of a
/// `packages_path:` line whose value is a list in square brackets.
pub open spec fn line_packages(raw: Seq<char>) -> Seq<Seq<char>> {
    let line = trim_of(raw, None);
    if has_prefix(line, "packages_path:"@) {
        let value = trim_of(after_prefix(line, "packages_path:"@), None);
        if is_bracketed(value) {
            items_of(value.subrange(1, value.len() - 1))
        } else {
            seq![]
        }
    } else {
        seq![]
    }
}

/// The interpreter that one line of the configuration names: the value of a
/// `python_executable:` line, unquoted, where it is not empty.
pub open spec fn line_python(raw: Seq<char>) -> Option<Seq<char>> {
    let line = trim_of(raw, None);
    if !has_prefix(line, "packages_path:"@) && has_prefix(line, "python_executable:"@) {
        let value = unquoted(after_prefix(line, "python_executable:"@));
        if value.len() > 0 {
            Some(value)
        } else {
            None
        }
    } else {
        None
    }
}

/// The package paths of the first `n` lines, in order.
pub open spec fn packages_upto(lines: Seq<Seq<char>>, n: int) -> Seq<Seq<char>>
    decreases n,
{
    if n <= 0 || n > lines.len() {
        seq![]
    } else {
        packages_upto(lines, n - 1) + line_packages(lines[n - 1])
    }
}

/// The interpreter that the first `n` lines name: that of the last line
/// that names one.
pub open spec fn python_upto(lines: Seq<Seq<char>>, n: int) -> Option<Seq<char>>
    decreases n,
{
    if n <= 0 || n > lines.len() {
        None
    } else {
        match line_python(lines[n - 1]) {
            Some(p) => Some(p),
            None => python_upto(lines, n - 1),
        }
    }
}

/// The package paths that a configuration gives: those of all its lines.
pub open spec fn config_packages(text: Seq<char>) -> Seq<Seq<char>> {
    packages_upto(split_of(text, '\n'), split_of(text, '\n').len() as int)
}

/// The interpreter that a configuration names.
pub open spec fn config_python(text: Seq<char>) -> Option<Seq<char>> {
    python_upto(split_of(text, '\n'), split_of(text, '\n').len() as int)
}

/// The view of an optional string.
pub open spec fn optional_view(s: Option<String>) -> Option<Seq<char>> {
    match s {
        Some(x) => Some(x@),
        None => None,
    }
}

/// A value without the white space and the quotes around it.
pub fn unquote(s: &Vec<char>) -> (r: Vec<char>)
    ensures
        r@ == unquoted(s@),
{
    let a = trim(s);
    let b = trim_class(&a, Some('"'));
    trim_class(&b, Some('\''))
}

/// The values of a list written between commas: each without the white
/// space and quotes around it, the empty ones left out.
pub fn list_items(content: &Vec<char>) -> (r: Vec<String>)
    ensures
        string_views(r@) == items_of(content@),
{
    let pieces = split_char(content, ',');
    let ghost ps = split_of(content@, ',');
    let mut r: Vec<String> = Vec::new();
    let mut i: usize = 0;
    assert(string_views(r@) =~= items_upto(ps, 0));
    while i < pieces.len()
        invariant
            i <= pieces@.len(),
            ps == views_of(pieces@),
            string_views(r@) == items_upto(ps, i as int),
        decreases pieces@.len() - i,
    {
        let item = unquote(&pieces[i]);
        assert(ps[i as int] == pieces@[i as int]@);
        if item.len() > 0 {
            let text = string_of(&item);
            proof {
                assert(string_views(r@.push(text)) =~= string_views(r@).push(text@));
            }
            r.push(text);
        }
        i += 1;
    }
    r
}

/// The package paths that one line of the configuration gives.
pub fn packages_in_line(raw: &Vec<char>) -> (r: Vec<String>)
    ensures
        string_views(r@) == line_packages(raw@),
{
    let line = trim(raw);
    let prefix = chars_of("packages_path:");
    if !starts_with(&line, &prefix) {
        let r: Vec<String> = Vec::new();
        assert(string_views(r@) =~= seq![]);
        return r;
    }
    let rest = copy_range(&line, prefix.len(), line.len());
    let value = trim(&rest);
    let n = value.len();
    if n >= 2 && value[0] == '[' && value[n - 1] == ']' {
        let content = copy_range(&value, 1, n - 1);
        list_items(&content)
    } else {
        let r: Vec<String> = Vec::new();
        assert(string_views(r@) =~= seq![]);
        r
    }
}

/// The interpreter that one line of the configuration names.
pub fn python_in_line(raw: &Vec<char>) -> (r: Option<String>)
    ensures
        optional_view(r) == line_python(raw@),
{
    let line = trim(raw);
    let packages = chars_of("packages_path:");
    let prefix = chars_of("python_executable:");
    if starts_with(&line, &packages) || !starts_with(&line, &prefix) {
        return None;
    }
    let rest = copy_range(&line, prefix.len(), line.len());
    let value = unquote(&rest);
    if value.len() > 0 {
        Some(string_of(&value))
    } else {
        None
    }
}

/// Parse rez configuration output. Each line is read on its own, without
/// the white space around it. A line `packages_path: [..]` adds the values
/// of its list to the package paths; a line `python_executable: ..` names
/// the interpreter, the last such line winning. Values lose the quotes
/// around them, and empty values are left out. Whatever else the text
/// holds is passed over: reading never fails.
pub fn parse_rez_config(config_str: &str) -> (r: Result<RezConfig, RezToolsError>)
    ensures
        r is Ok,
        string_views(r->Ok_0.packages_path@) == config_packages(config_str@),
        optional_view(r->Ok_0.python_path) == config_python(config_str@),
{
    let text = chars_of(config_str);
    let lines = split_char(&text, '\n');
    let ghost ls = split_of(text@, '\n');
    let mut packages: Vec<String> = Vec::new();
    let mut python: Option<String> = None;
    let mut i: usize = 0;
    assert(string_views(packages@) =~= packages_upto(ls, 0));
    while i < lines.len()
        invariant
            i <= lines@.len(),
            ls == views_of(lines@),
            string_views(packages@) == packages_upto(ls, i as int),
            optional_view(python) == python_upto(ls, i as int),
        decreases lines@.len() - i,
    {
        assert(ls[i as int] == lines@[i as int]@);
        let mut found = packages_in_line(&lines[i]);
        let ghost before = packages@;
        let ghost added = found@;
        packages.append(&mut found);
        assert(string_views(packages@) =~= string_views(before) + string_views(added));
        match python_in_line(&lines[i]) {
            Some(p) => {
                python = Some(p);
            },
            None => {},
        }
        i += 1;
    }
    Ok(RezConfig { packages_path: packages, python_path: python })
}

/// What was found on the machine when it was searched for rez.
#[derive(Debug, Clone)]
pub struct EnvironmentProbe {
    /// The value of the environment variable that names rez, where it is set.
    pub rez_path_env: Option<String>,
    /// What `rez --version` printed, where rez could be run.
    pub rez_version: Option<String>,
    /// The configuration that rez printed, where it could be read.
    pub rez_config: Option<RezConfig>,
    /// What is known of a self-contained installation, where it could be
    /// examined.
    pub standalone: Option<RezEnvironment>,
    /// The interpreter of a self-contained Python at one of its usual
    /// places.
    pub standalone_python: Option<String>,
}

/// Whether rez counts as installed after a probe: it could be run, or a
/// self-contained installation holds it.
pub open spec fn probe_installed(probe: EnvironmentProbe) -> bool {
    probe.rez_version is Some || (probe.standalone is Some && probe.standalone->0.is_installed)
}

/// The version of rez after a probe.
pub open spec fn probe_version(probe: EnvironmentProbe) -> Option<String> {
    if probe.rez_version is Some {
        probe.rez_version
    } else if probe.standalone is Some && probe.standalone->0.is_installed {
        probe.standalone->0.version
    } else {
        None
    }
}

/// The interpreter after a probe, before the usual places of a
/// self-contained Python are considered.
pub open spec fn probe_python(probe: EnvironmentProbe) -> Option<String> {
    if probe.rez_version is Some {
        if probe.rez_config is Some {
            probe.rez_config->0.python_path
        } else {
            None
        }
    } else if probe.standalone is Some && probe.standalone->0.is_installed {
        probe.standalone->0.python_path
    } else {
        None
    }
}

/// The package paths after a probe.
pub open spec fn probe_packages(probe: EnvironmentProbe) -> Seq<String> {
    if probe.rez_version is Some && probe.rez_config is Some {
        probe.rez_config->0.packages_path@
    } else {
        seq![]
    }
}

/// Detect existing rez installation, from what was found on the machine.
/// A rez that runs comes first: its version and configuration are taken.
/// Without one, a self-contained installation that holds rez gives version
/// and interpreter. An interpreter that is still unknown is taken from the
/// usual places of a self-contained Python.
pub fn detect_rez_environment(probe: EnvironmentProbe) -> (r: Result<RezEnvironment, RezToolsError>)
    ensures
        r is Ok,
        r->Ok_0.rez_path == probe.rez_path_env,
        r->Ok_0.is_installed == probe_installed(probe),
        r->Ok_0.version == probe_version(probe),
        r->Ok_0.packages_path@ == probe_packages(probe),
        r->Ok_0.python_path == if probe_python(probe) is Some {
            probe_python(probe)
        } else {
            probe.standalone_python
        },
{
    let mut env = RezEnvironment {
        rez_path: probe.rez_path_env,
        python_path: None,
        packages_path: Vec::new(),
        is_installed: false,
        version: None,
    };
    match probe.rez_version {
        Some(version) => {
            env.is_installed = true;
            env.version = Some(version);
            if let Some(config) = probe.rez_config {
                env.packages_path = config.packages_path;
                env.python_path = config.python_path;
            }
        },
        None => {
            if let Some(standalone) = probe.standalone {
                if standalone.is_installed {
                    env.is_installed = true;
                    env.version = standalone.version;
                    env.python_path = standalone.python_path;
                }
            }
        },
    }
    if env.python_path.is_none() {
        env.python_path = probe.standalone_python;
    }
    assert(env.packages_path@ =~= probe_packages(probe));
    Ok(env)
}

impl RezEnvironment {
    /// Detect existing rez installation, from what was found on the machine.
    pub fn detect(probe: EnvironmentProbe) -> (r: Result<RezEnvironment, RezToolsError>)
        ensures
            r is Ok,
            r->Ok_0.rez_path == probe.rez_path_env,
            r->Ok_0.is_installed == probe_installed(probe),
            r->Ok_0.version == probe_version(probe),
            r->Ok_0.packages_path@ == probe_packages(probe),
            r->Ok_0.python_path == if probe_python(probe) is Some {
                probe_python(probe)
            } else {
                probe.standalone_python
            },
    {
        detect_rez_environment(probe)
    }
}

/// What a self-contained installation with the interpreter `python_exe`
/// amounts to, given what the interpreter printed when asked for the version
/// of rez, or `None` where it could not import rez.
pub fn standalone_environment(python_exe: String, rez_version_output: Option<&str>) -> (env:
    RezEnvironment)
    ensures
        env.rez_path is None,
        env.python_path == Some(python_exe),
        env.packages_path@.len() == 0,
        env.is_installed == (rez_version_output is Some),
        match rez_version_output {
            Some(out) => env.version is Some && env.version->0@ == "Rez "@ + trim_of(out@, None),
            None => env.version is None,
        },
{
    let version = match rez_version_output {
        Some(out) => {
            let shown = string_of(&trim(&chars_of(out)));
            Some(String::from_str("Rez ").concat(shown.as_str()))
        },
        None => None,
    };
    RezEnvironment {
        rez_path: None,
        python_path: Some(python_exe),
        packages_path: Vec::new(),
        is_installed: rez_version_output.is_some(),
        version,
    }
}

/// What is known where no self-contained installation exists: nothing.
pub fn missing_environment() -> (env: RezEnvironment)
    ensures
        env.rez_path is None,
        env.python_path is None,
        env.packages_path@.len() == 0,
        !env.is_installed,
        env.version is None,
{
    RezEnvironment {
        rez_path: None,
        python_path: None,
        packages_path: Vec::new(),
        is_installed: false,
        version: None,
    }
}

/// The version of rez as `rez --version` printed it, without the white
/// space around it.
pub fn rez_version_text(output: &str) -> (v: String)
    ensures
        v@ == trim_of(output@, None),
{
    string_of(&trim(&chars_of(output)))
}

/// Find the Python executable of a self-contained installation among the
/// conventional places: the first that exists.
pub fn find_python_executable_in_dir(places: &Vec<ProbedPath>) -> (r: Result<String, RezToolsError>)
    ensures
        if first_existing_from(places@, 0) < places@.len() {
            r is Ok && r->Ok_0@ == places@[first_existing_from(places@, 0)].path@
        } else {
            r is Err && r->Err_0.is_config(
                "Python executable not found in Python Build Standalone installation"@,
            )
        },
{
    match first_existing(places) {
        Some(p) => Ok(p),
        None => Err(
            RezToolsError::ConfigError(
                String::from_str(
                    "Python executable not found in Python Build Standalone installation",
                ),
            ),
        ),
    }
}

/// One of the usual places of a self-contained Python.
#[derive(Debug, Clone)]
pub struct StandaloneRoot {
    /// The path is meant below the user's home directory.
    pub below_home: bool,
    pub path: String,
}

/// What was found at one of the usual places of a self-contained Python:
/// whether the place exists, and the interpreter that would stand in it.
#[derive(Debug, Clone)]
pub struct RootProbe {
    pub root_exists: bool,
    pub python: ProbedPath,
}

/// The usual places of a self-contained Python, most likely first: each
/// with whether it is meant below the home directory, and its path.
pub open spec fn standalone_roots_of() -> Seq<(bool, Seq<char>)> {
    seq![
        (true, ".local/share/python-build-standalone"@),
        (false, "/opt/python-build-standalone"@),
        (false, "/usr/local/python-build-standalone"@),
    ]
}

/// The views of a sequence of places.
pub open spec fn root_views(roots: Seq<StandaloneRoot>) -> Seq<(bool, Seq<char>)> {
    Seq::new(roots.len(), |i: int| (roots[i].below_home, roots[i].path@))
}

/// The usual places of a self-contained Python, most likely first.
pub fn standalone_roots() -> (roots: Vec<StandaloneRoot>)
    ensures
        root_views(roots@) == standalone_roots_of(),
{
    let mut roots: Vec<StandaloneRoot> = Vec::new();
    roots.push(
        StandaloneRoot {
            below_home: true,
            path: String::from_str(".local/share/python-build-standalone"),
        },
    );
    roots.push(
        StandaloneRoot { below_home: false, path: String::from_str("/opt/python-build-standalone") },
    );
    roots.push(
        StandaloneRoot {
            below_home: false,
            path: String::from_str("/usr/local/python-build-standalone"),
        },
    );
    assert(root_views(roots@) =~= standalone_roots_of());
    roots
}

/// The index of the first place at or after `i` that exists and holds its
/// interpreter, or the number of places where there is none.
pub open spec fn first_root_from(roots: Seq<RootProbe>, i: int) -> int
    decreases roots.len() - i,
{
    if 0 <= i < roots.len() && !(roots[i].root_exists && roots[i].python.exists) {
        first_root_from(roots, i + 1)
    } else {
        i
    }
}

/// Detect a self-contained Python at its usual places: the interpreter of
/// the first place, in the order given, that exists and holds one.
pub fn detect_python_build_standalone(roots: &Vec<RootProbe>) -> (r: Option<String>)
    ensures
        match r {
            Some(p) => first_root_from(roots@, 0) < roots@.len() && p@
                == roots@[first_root_from(roots@, 0)].python.path@,
            None => first_root_from(roots@, 0) >= roots@.len(),
        },
{
    let n = roots.len();
    let mut i: usize = 0;
    while i < n && !(roots[i].root_exists && roots[i].python.exists)
        invariant
            i <= n,
            n == roots@.len(),
            first_root_from(roots@, i as int) == first_root_from(roots@, 0),
        decreases n - i,
    {
        i += 1;
    }
    if i < n {
        Some(roots[i].python.path.clone())
    } else {
        None
    }
}

} // verus!
