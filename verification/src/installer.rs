//! Installing rez: the methods, the order they are tried in, and what each
//! of them runs and writes.
//!
//! The caller runs the commands and writes the files; `InstallOrchestrator`
//! says which method is due and when the installation has ended.

use crate::error::RezToolsError;
use crate::paths::{home_dir, join_path};
use crate::text::{str_eq, string_views};
use vstd::prelude::*;
use vstd::string::*;

verus! {

/// A way of installing rez. The methods are tried in the order they are
/// declared in.
#[derive(Debug, Clone, Copy, PartialEq, Eq, Structural)]
pub enum InstallMethod {
    /// With `uv`, into an isolated environment of its own.
    FastPackageManager,
    /// With the system's `pip`.
    SystemPackageInstaller,
    /// With a self-contained Python that is downloaded first.
    SelfContainedRuntime,
}

impl InstallMethod {
    /// The place of the method in the order, from 0.
    pub open spec fn rank(self) -> nat {
        match self {
            InstallMethod::FastPackageManager => 0,
            InstallMethod::SystemPackageInstaller => 1,
            InstallMethod::SelfContainedRuntime => 2,
        }
    }

    /// The method that is tried after this one has failed.
    pub open spec fn next_of(self) -> Option<InstallMethod> {
        match self {
            InstallMethod::FastPackageManager => Some(InstallMethod::SystemPackageInstaller),
            InstallMethod::SystemPackageInstaller => Some(InstallMethod::SelfContainedRuntime),
            InstallMethod::SelfContainedRuntime => None,
        }
    }

    /// The method that is tried after this one has failed.
    pub fn next(self) -> (n: Option<InstallMethod>)
        ensures
            n == self.next_of(),
            n is Some ==> n->0.rank() == self.rank() + 1,
            n is None <==> self.rank() == 2,
    {
        match self {
            InstallMethod::FastPackageManager => Some(InstallMethod::SystemPackageInstaller),
            InstallMethod::SystemPackageInstaller => Some(InstallMethod::SelfContainedRuntime),
            InstallMethod::SelfContainedRuntime => None,
        }
    }
}

/// What the caller of the orchestrator does next.
#[derive(Debug)]
pub enum InstallStep {
    /// Run this method and report whether it succeeded.
    Try(InstallMethod),
    /// Rez was installed by this method.
    Installed(InstallMethod),
    /// Every method failed.
    Failed(RezToolsError),
}

/// Tries the installation methods one after the other until one succeeds.
#[derive(Debug, Clone, Copy)]
pub struct InstallOrchestrator {
    /// The method that is due or running; `None` once the installation has
    /// ended.
    pub current: Option<InstallMethod>,
    /// The method that installed rez, once one has.
    pub installed_by: Option<InstallMethod>,
}

/// The method that installs rez when the methods succeed as `succeeds`
/// tells, looking from `method` on: the first that succeeds.
pub open spec fn winner_from(method: InstallMethod, succeeds: spec_fn(InstallMethod) -> bool)
    -> Option<InstallMethod>
    decreases 3 - method.rank(),
{
    if succeeds(method) {
        Some(method)
    } else {
        match method.next_of() {
            Some(n) => winner_from(n, succeeds),
            None => None,
        }
    }
}

/// The first method that succeeds wins, and no method after it is tried:
/// the winner succeeds, every method of lower rank fails, and there is no
/// winner only where all three fail.
pub proof fn lemma_first_success_wins(succeeds: spec_fn(InstallMethod) -> bool)
    ensures
        match winner_from(InstallMethod::FastPackageManager, succeeds) {
            Some(w) => succeeds(w) && forall|m: InstallMethod|
                m.rank() < w.rank() ==> !#[trigger] succeeds(m),
            None => forall|m: InstallMethod| !#[trigger] succeeds(m),
        },
{
    let a = InstallMethod::FastPackageManager;
    let b = InstallMethod::SystemPackageInstaller;
    let c = InstallMethod::SelfContainedRuntime;
    assert(winner_from(c, succeeds) == if succeeds(c) {
        Some(c)
    } else {
        None::<InstallMethod>
    });
    assert(winner_from(b, succeeds) == if succeeds(b) {
        Some(b)
    } else {
        winner_from(c, succeeds)
    });
    assert(winner_from(a, succeeds) == if succeeds(a) {
        Some(a)
    } else {
        winner_from(b, succeeds)
    });
}

/// The orchestrator after a report on its current method.
pub open spec fn after_report(o: InstallOrchestrator, succeeded: bool) -> InstallOrchestrator {
    match o.current {
        None => o,
        Some(m) => if succeeded {
            InstallOrchestrator { current: None, installed_by: Some(m) }
        } else {
            InstallOrchestrator { current: m.next_of(), installed_by: o.installed_by }
        },
    }
}

/// The orchestrator at the end of an installation in which the methods
/// succeed as `succeeds` tells.
pub open spec fn run_of(o: InstallOrchestrator, succeeds: spec_fn(InstallMethod) -> bool)
    -> InstallOrchestrator
    decreases
        (match o.current {
            Some(m) => 3 - m.rank(),
            None => 0,
        }),
{
    match o.current {
        None => o,
        Some(m) => run_of(after_report(o, succeeds(m)), succeeds),
    }
}

/// An installation that is run from its beginning ends, and it ends with
/// rez installed by the first method that succeeds, or, where none does,
/// without rez.
pub proof fn lemma_run_installs_with_winner(succeeds: spec_fn(InstallMethod) -> bool)
    ensures
        run_of(
            InstallOrchestrator {
                current: Some(InstallMethod::FastPackageManager),
                installed_by: None,
            },
            succeeds,
        ) == (InstallOrchestrator {
            current: None,
            installed_by: winner_from(InstallMethod::FastPackageManager, succeeds),
        }),
{
    let a = InstallMethod::FastPackageManager;
    let b = InstallMethod::SystemPackageInstaller;
    let c = InstallMethod::SelfContainedRuntime;
    let start = |m: InstallMethod| InstallOrchestrator { current: Some(m), installed_by: None };
    let end = |w: Option<InstallMethod>| InstallOrchestrator { current: None, installed_by: w };
    assert(run_of(end(None), succeeds) == end(None));
    assert(run_of(end(Some(a)), succeeds) == end(Some(a)));
    assert(run_of(end(Some(b)), succeeds) == end(Some(b)));
    assert(run_of(end(Some(c)), succeeds) == end(Some(c)));
    assert(winner_from(c, succeeds) == if succeeds(c) {
        Some(c)
    } else {
        None::<InstallMethod>
    });
    assert(run_of(start(c), succeeds) == end(winner_from(c, succeeds)));
    assert(winner_from(b, succeeds) == if succeeds(b) {
        Some(b)
    } else {
        winner_from(c, succeeds)
    });
    assert(run_of(start(b), succeeds) == end(winner_from(b, succeeds)));
    assert(winner_from(a, succeeds) == if succeeds(a) {
        Some(a)
    } else {
        winner_from(b, succeeds)
    });
    assert(run_of(start(a), succeeds) == end(winner_from(a, succeeds)));
}

impl InstallOrchestrator {
    /// An installation that has not begun: the first method is due.
    pub fn new() -> (o: InstallOrchestrator)
        ensures
            o.current == Some(InstallMethod::FastPackageManager),
            o.installed_by is None,
    {
        InstallOrchestrator {
            current: Some(InstallMethod::FastPackageManager),
            installed_by: None,
        }
    }

    /// The step that is due: the current method, or how the installation
    /// ended.
    pub fn step(&self) -> (s: InstallStep)
        ensures
            match self.current {
                Some(m) => s is Try && s->Try_0 == m,
                None => match self.installed_by {
                    Some(m) => s is Installed && s->Installed_0 == m,
                    None => s is Failed && s->Failed_0.is_config(
                        "Failed to install rez using any available method"@,
                    ),
                },
            },
    {
        match self.current {
            Some(m) => InstallStep::Try(m),
            None => match self.installed_by {
                Some(m) => InstallStep::Installed(m),
                None => InstallStep::Failed(
                    RezToolsError::ConfigError(
                        String::from_str("Failed to install rez using any available method"),
                    ),
                ),
            },
        }
    }

    /// Takes in whether the current method succeeded. A success ends the
    /// installation; a failure makes the next method due, and after the last
    /// method ends the installation without rez. Once the installation has
    /// ended, a report changes nothing.
    pub fn report(&mut self, succeeded: bool)
        ensures
            *final(self) == after_report(*old(self), succeeded),
    {
        match self.current {
            None => {},
            Some(m) => {
                if succeeded {
                    self.current = None;
                    self.installed_by = Some(m);
                } else {
                    self.current = m.next();
                }
            },
        }
    }
}

/// One thing that an installation method does.
#[derive(Debug, Clone, Copy, PartialEq, Eq, Structural)]
pub enum InstallAction {
    /// Ask the fast package manager for its version, to see that it is there.
    CheckFastInstaller,
    /// Let the fast package manager create the isolated environment.
    CreateEnvironment,
    /// Install rez with the installer of the isolated environment.
    InstallIntoEnvironment,
    /// Install rez with the system's installer.
    RunSystemInstaller,
    /// Make a self-contained Python available: the one that is installed
    /// already, or one that is downloaded now.
    AcquireRuntime,
    /// Install rez as a module with the interpreter at hand.
    InstallWithInterpreter,
    /// Write the marker of a production installation beside the interpreter.
    WriteMarker,
    /// Write the wrapper script that starts rez through the interpreter.
    WriteWrapper,
}

/// What a method does, in order. A method fails with the first of its
/// actions that fails, and succeeds when all of them have succeeded.
pub open spec fn actions_of(method: InstallMethod) -> Seq<InstallAction> {
    match method {
        InstallMethod::FastPackageManager => seq![
            InstallAction::CheckFastInstaller,
            InstallAction::CreateEnvironment,
            InstallAction::InstallIntoEnvironment,
            InstallAction::WriteMarker,
            InstallAction::WriteWrapper,
        ],
        InstallMethod::SystemPackageInstaller => seq![InstallAction::RunSystemInstaller],
        InstallMethod::SelfContainedRuntime => seq![
            InstallAction::AcquireRuntime,
            InstallAction::InstallWithInterpreter,
            InstallAction::WriteMarker,
            InstallAction::WriteWrapper,
        ],
    }
}

/// What a method does, in order.
pub fn method_actions(method: InstallMethod) -> (actions: Vec<InstallAction>)
    ensures
        actions@ == actions_of(method),
{
    let mut actions: Vec<InstallAction> = Vec::new();
    match method {
        InstallMethod::FastPackageManager => {
            actions.push(InstallAction::CheckFastInstaller);
            actions.push(InstallAction::CreateEnvironment);
            actions.push(InstallAction::InstallIntoEnvironment);
            actions.push(InstallAction::WriteMarker);
            actions.push(InstallAction::WriteWrapper);
        },
        InstallMethod::SystemPackageInstaller => {
            actions.push(InstallAction::RunSystemInstaller);
        },
        InstallMethod::SelfContainedRuntime => {
            actions.push(InstallAction::AcquireRuntime);
            actions.push(InstallAction::InstallWithInterpreter);
            actions.push(InstallAction::WriteMarker);
            actions.push(InstallAction::WriteWrapper);
        },
    }
    assert(actions@ =~= actions_of(method));
    actions
}

/// A method that installs rez with an interpreter of its own leaves a
/// wrapper script behind, written last, after the marker.
pub proof fn lemma_private_installs_end_with_wrapper(method: InstallMethod)
    requires
        method != InstallMethod::SystemPackageInstaller,
    ensures
        actions_of(method).len() >= 2,
        actions_of(method).last() == InstallAction::WriteWrapper,
        actions_of(method)[actions_of(method).len() - 2] == InstallAction::WriteMarker,
{
}

/// Whether the process runs inside an isolated Python environment: one of
/// the two markers of such an environment is set.
pub fn in_virtual_env(virtual_env_set: bool, conda_env_set: bool) -> (b: bool)
    ensures
        b == (virtual_env_set || conda_env_set),
{
    virtual_env_set || conda_env_set
}

/// The arguments of the system installer: inside an isolated environment a
/// plain installation, outside of one an installation for the user alone.
pub open spec fn pip_install_args_of(in_venv: bool) -> Seq<Seq<char>> {
    if in_venv {
        seq!["install"@, "rez"@]
    } else {
        seq!["install"@, "--user"@, "rez"@]
    }
}

/// The arguments of the system installer.
pub fn pip_install_args(in_venv: bool) -> (args: Vec<String>)
    ensures
        string_views(args@) == pip_install_args_of(in_venv),
{
    let mut args: Vec<String> = Vec::new();
    args.push(String::from_str("install"));
    if !in_venv {
        args.push(String::from_str("--user"));
    }
    args.push(String::from_str("rez"));
    assert(string_views(args@) =~= pip_install_args_of(in_venv));
    args
}

/// The arguments with which an interpreter installs rez as a module.
pub fn module_install_args() -> (args: Vec<String>)
    ensures
        string_views(args@) == seq!["-m"@, "pip"@, "install"@, "rez"@],
{
    let mut args: Vec<String> = Vec::new();
    args.push(String::from_str("-m"));
    args.push(String::from_str("pip"));
    args.push(String::from_str("install"));
    args.push(String::from_str("rez"));
    assert(string_views(args@) =~= seq!["-m"@, "pip"@, "install"@, "rez"@]);
    args
}

/// The arguments with which the fast package manager creates an isolated
/// environment at `venv_path`.
pub fn create_venv_args(venv_path: &str) -> (args: Vec<String>)
    ensures
        string_views(args@) == seq!["venv"@, venv_path@],
{
    let mut args: Vec<String> = Vec::new();
    args.push(String::from_str("venv"));
    args.push(String::from_str(venv_path));
    assert(string_views(args@) =~= seq!["venv"@, venv_path@]);
    args
}

/// The private state directory for a user with the given home directory:
/// the directory `.rez-tools` below the home, or, without a home, below the
/// current directory.
pub fn rez_tools_dir_in(home: Option<&str>) -> (dir: String)
    ensures
        home is None ==> dir@ == ".rez-tools"@,
{
    match home {
        Some(h) => join_path(h, ".rez-tools"),
        None => String::from_str(".rez-tools"),
    }
}

/// Get rez-tools directory: the private state directory of the current
/// user. Where the user's home is, and how a name is put below it, is the
/// host's matter, so nothing is claimed of the result here;
/// `rez_tools_dir_in` says what the directory is for a host without a home.
pub fn get_rez_tools_dir() -> (dir: String) {
    match home_dir() {
        Some(h) => rez_tools_dir_in(Some(h.as_str())),
        None => rez_tools_dir_in(None),
    }
}

/// The directory of an environment that holds its programs.
pub fn scripts_dir_name(windows: bool) -> (name: &'static str)
    ensures
        name@ == if windows {
            "Scripts"@
        } else {
            "bin"@
        },
{
    if windows {
        "Scripts"
    } else {
        "bin"
    }
}

/// The file name of the installer inside an isolated environment.
pub fn venv_pip_name(windows: bool) -> (name: &'static str)
    ensures
        name@ == if windows {
            "pip.exe"@
        } else {
            "pip"@
        },
{
    if windows {
        "pip.exe"
    } else {
        "pip"
    }
}

/// The file name of the interpreter inside an isolated environment.
pub fn venv_python_name(windows: bool) -> (name: &'static str)
    ensures
        name@ == if windows {
            "python.exe"@
        } else {
            "python"@
        },
{
    if windows {
        "python.exe"
    } else {
        "python"
    }
}

/// Get the installer's path in an isolated environment, from the path where
/// it should be and whether it is present there.
pub fn get_venv_pip_path(pip_path: &str, present: bool) -> (r: Result<String, RezToolsError>)
    ensures
        if present {
            r is Ok && r->Ok_0@ == pip_path@
        } else {
            r is Err && r->Err_0.is_config("pip not found in venv"@)
        },
{
    if present {
        Ok(String::from_str(pip_path))
    } else {
        Err(RezToolsError::ConfigError(String::from_str("pip not found in venv")))
    }
}

/// The name of the empty file that tells rez it was installed for
/// production use.
pub fn production_marker_name() -> (name: &'static str)
    ensures
        name@ == ".rez_production_install"@,
{
    ".rez_production_install"
}

/// Where the marker of a production installation goes, as path components
/// relative to the directory of the interpreter whose directory has the name
/// `dir_name`: into the script directory of the installation. That is the
/// interpreter's own directory where it is named as script directories are
/// on the operating system, and the script directory below it otherwise.
pub open spec fn marker_place_of(dir_name: Option<Seq<char>>, windows: bool) -> Seq<Seq<char>> {
    let scripts = if windows {
        "Scripts"@
    } else {
        "bin"@
    };
    if dir_name == Some(scripts) {
        seq![".rez_production_install"@]
    } else {
        seq![scripts, ".rez_production_install"@]
    }
}

/// Where the marker of a production installation goes, relative to the
/// directory of the interpreter, given that directory's name where it has
/// one.
pub fn marker_place(interpreter_dir_name: Option<&str>, windows: bool) -> (place: Vec<String>)
    ensures
        string_views(place@) == marker_place_of(
            match interpreter_dir_name {
                Some(n) => Some(n@),
                None => None,
            },
            windows,
        ),
{
    let scripts = scripts_dir_name(windows);
    let in_scripts = match interpreter_dir_name {
        Some(n) => str_eq(n, scripts),
        None => false,
    };
    let mut place: Vec<String> = Vec::new();
    if !in_scripts {
        place.push(String::from_str(scripts));
    }
    place.push(String::from_str(".rez_production_install"));
    assert(string_views(place@) =~= marker_place_of(
        match interpreter_dir_name {
            Some(n) => Some(n@),
            None => None,
        },
        windows,
    ));
    place
}

/// The content of the wrapper script that starts rez through the
/// interpreter at `python_exe`, handing its own arguments on.
pub open spec fn wrapper_script_of(windows: bool, python_exe: Seq<char>) -> Seq<char> {
    if windows {
        "@echo off\n\""@ + python_exe + "\" -m rez %*\n"@
    } else {
        "#!/bin/bash\nexec \""@ + python_exe + "\" -m rez \"$@\"\n"@
    }
}

/// The content of the wrapper script: a batch file on Windows, a shell
/// script elsewhere.
pub fn wrapper_script(windows: bool, python_exe: &str) -> (content: String)
    ensures
        content@ == wrapper_script_of(windows, python_exe@),
{
    if windows {
        String::from_str("@echo off\n\"").concat(python_exe).concat("\" -m rez %*\n")
    } else {
        String::from_str("#!/bin/bash\nexec \"").concat(python_exe).concat("\" -m rez \"$@\"\n")
    }
}

/// Whether the wrapper script has to be marked executable after it was
/// written: everywhere but on Windows.
pub fn wrapper_needs_exec_bit(windows: bool) -> (b: bool)
    ensures
        b == !windows,
{
    !windows
}

} // verus!
