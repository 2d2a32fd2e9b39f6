//! Resolving where the rez executable is: an ordered chain of strategies,
//! whose first hit is kept by the resolver until it is told to forget it.
//!
//! The resolver decides; its caller probes. `PathResolver::start` and
//! `PathResolver::report` say which strategy to try next, and each strategy
//! has a function here that turns what was found on the machine into its
//! result. The resolver never installs anything.

use crate::error::RezToolsError;
use crate::locator::{first_existing, first_existing_from, ProbedPath};
use crate::paths::file_name_of;
use crate::text::{
    chars_of, copy_range, find_char, has_prefix, index_from, starts_with, string_of,
    string_views, trim, trim_of,
};
use vstd::prelude::*;
use vstd::string::*;

verus! {

/// The environment variable that names the rez executable.
pub const REZ_PATH_ENV: &'static str = "REZ_PATH";

/// One way of finding rez. The strategies are tried in the order they are
/// declared in.
#[derive(Debug, Clone, Copy, PartialEq, Eq, Structural)]
pub enum Strategy {
    /// The path that the environment variable names, if it exists.
    EnvOverride,
    /// A self-contained runtime that was installed earlier.
    StandaloneRuntime,
    /// The wrapper script that an earlier installation wrote.
    WrapperScript,
    /// The command search path of the host.
    SystemPath,
    /// The usual places of an installation on this operating system.
    CommonLocations,
}

impl Strategy {
    /// The place of the strategy in the chain, from 0.
    pub open spec fn rank(self) -> nat {
        match self {
            Strategy::EnvOverride => 0,
            Strategy::StandaloneRuntime => 1,
            Strategy::WrapperScript => 2,
            Strategy::SystemPath => 3,
            Strategy::CommonLocations => 4,
        }
    }

    /// The strategy that follows in the chain.
    pub open spec fn next_of(self) -> Option<Strategy> {
        match self {
            Strategy::EnvOverride => Some(Strategy::StandaloneRuntime),
            Strategy::StandaloneRuntime => Some(Strategy::WrapperScript),
            Strategy::WrapperScript => Some(Strategy::SystemPath),
            Strategy::SystemPath => Some(Strategy::CommonLocations),
            Strategy::CommonLocations => None,
        }
    }

    /// The strategy that is tried first.
    pub fn first() -> (s: Strategy)
        ensures
            s == Strategy::EnvOverride,
            s.rank() == 0,
    {
        Strategy::EnvOverride
    }

    /// The strategy that follows in the chain; none after the last.
    pub fn next(self) -> (n: Option<Strategy>)
        ensures
            n == self.next_of(),
            n is Some ==> n->0.rank() == self.rank() + 1,
            n is None <==> self.rank() == 4,
    {
        match self {
            Strategy::EnvOverride => Some(Strategy::StandaloneRuntime),
            Strategy::StandaloneRuntime => Some(Strategy::WrapperScript),
            Strategy::WrapperScript => Some(Strategy::SystemPath),
            Strategy::SystemPath => Some(Strategy::CommonLocations),
            Strategy::CommonLocations => None,
        }
    }
}

/// Where rez is and how it is started.
#[derive(Debug, Clone)]
pub struct ResolvedLocation {
    pub executable_path: String,
    /// The leading arguments of every invocation: the executable alone, or
    /// an interpreter with its module flag and the module's name.
    pub invocation_prefix: Vec<String>,
}

/// The single slot that holds a resolution.
#[derive(Debug, Clone)]
pub enum CacheSlot {
    /// Nothing is stored: nothing was resolved yet, or the slot was cleared.
    Unset,
    /// The path that was resolved first.
    Resolved(String),
}

/// The slot of a resolver as plain values.
pub enum SlotView {
    Unset,
    Resolved(Seq<char>),
}

impl View for CacheSlot {
    type V = SlotView;

    open spec fn view(&self) -> SlotView {
        match self {
            CacheSlot::Unset => SlotView::Unset,
            CacheSlot::Resolved(p) => SlotView::Resolved(p@),
        }
    }
}

/// Finds rez once and keeps the answer.
#[derive(Debug, Clone)]
pub struct PathResolver {
    pub slot: CacheSlot,
    /// How many probes were reported to this resolver.
    pub probes: u64,
}

/// What the caller of a resolver does next.
#[derive(Debug)]
pub enum ResolveStep {
    /// The executable is at this path.
    Resolved(String),
    /// Try this strategy and report what it found.
    Probe(Strategy),
    /// The resolution has ended without a path.
    Failed(RezToolsError),
}

/// A step as plain values.
pub enum StepView {
    Resolved(Seq<char>),
    Probe(Strategy),
    Failed(RezToolsError),
}

impl View for ResolveStep {
    type V = StepView;

    open spec fn view(&self) -> StepView {
        match self {
            ResolveStep::Resolved(p) => StepView::Resolved(p@),
            ResolveStep::Probe(s) => StepView::Probe(*s),
            ResolveStep::Failed(e) => StepView::Failed(*e),
        }
    }
}

/// The message of the error that ends a chain in which no strategy found
/// rez: it tells how to install it.
pub open spec fn not_found_message() -> Seq<char> {
    "Rez executable not found. Please install rez or run 'rt install-rez'"@
}

/// The first step of a resolution: the stored path where there is one,
/// otherwise a probe with the first strategy.
pub open spec fn start_of(slot: SlotView) -> StepView {
    match slot {
        SlotView::Resolved(p) => StepView::Resolved(p),
        SlotView::Unset => StepView::Probe(Strategy::EnvOverride),
    }
}

/// The slot after a probe was reported: a path that was found is stored in
/// an unset slot; a stored path stays, and so does an unset slot when nothing
/// was found.
pub open spec fn slot_after(slot: SlotView, found: Option<Seq<char>>) -> SlotView {
    match (slot, found) {
        (SlotView::Unset, Some(p)) => SlotView::Resolved(p),
        _ => slot,
    }
}

/// The number of probes after a report: one more, unless a path is stored
/// already; the count stops at the largest number it can hold.
pub open spec fn probes_after(slot: SlotView, probes: u64) -> u64 {
    if slot is Resolved || probes == u64::MAX {
        probes
    } else {
        (probes + 1) as u64
    }
}

/// `step` is the step that follows a reported probe: with a stored path,
/// that path; with a path found, the path found; without a path, the next
/// strategy, and after the last one an error.
pub open spec fn step_after(
    slot: SlotView,
    strategy: Strategy,
    found: Option<Seq<char>>,
    step: StepView,
) -> bool {
    match slot {
        SlotView::Resolved(p) => step == StepView::Resolved(p),
        SlotView::Unset => match found {
            Some(p) => step == StepView::Resolved(p),
            None => no_path_step(strategy, step),
        },
    }
}

/// The step after a strategy that found nothing.
pub open spec fn no_path_step(strategy: Strategy, step: StepView) -> bool {
    match strategy.next_of() {
        Some(n) => step == StepView::Probe(n),
        None => step is Failed && step->Failed_0.is_config(not_found_message()),
    }
}

/// A resolution that is stored is kept until the slot is cleared: the
/// resolver answers with it at once, asks for no probe, and no report changes
/// the stored path or the count of probes.
pub proof fn lemma_resolution_is_kept(
    path: Seq<char>,
    probes: u64,
    strategy: Strategy,
    found: Option<Seq<char>>,
    step: StepView,
)
    ensures
        start_of(SlotView::Resolved(path)) == StepView::Resolved(path),
        slot_after(SlotView::Resolved(path), found) == SlotView::Resolved(path),
        probes_after(SlotView::Resolved(path), probes) == probes,
        step_after(SlotView::Resolved(path), strategy, found, step) ==> step == StepView::Resolved(
            path,
        ),
{
}

/// A cleared slot resolves afresh: the resolution begins with the first
/// strategy again, and the first path that is found, by whatever strategy, is
/// the answer and is stored. So an override that names an existing path
/// resolves to that path after a reset.
pub proof fn lemma_reset_resolves_afresh(
    strategy: Strategy,
    path: Seq<char>,
    step: StepView,
)
    ensures
        start_of(SlotView::Unset) == StepView::Probe(Strategy::EnvOverride),
        slot_after(SlotView::Unset, Some(path)) == SlotView::Resolved(path),
        step_after(SlotView::Unset, strategy, Some(path), step) ==> step == StepView::Resolved(
            path,
        ),
{
}

/// The chain ends: each strategy that finds nothing leads to one of higher
/// rank, and there are five.
pub proof fn lemma_chain_is_ordered(strategy: Strategy)
    ensures
        strategy.rank() <= 4,
        match strategy.next_of() {
            Some(n) => n.rank() == strategy.rank() + 1,
            None => strategy.rank() == 4,
        },
{
}

/// The strategy that resolves rez, with the path it finds, when the
/// strategies find what `finds` tells, looking from `strategy` on: the first
/// that finds a path.
pub open spec fn first_hit_from(
    strategy: Strategy,
    finds: spec_fn(Strategy) -> Option<Seq<char>>,
) -> Option<(Strategy, Seq<char>)>
    decreases 5 - strategy.rank(),
{
    match finds(strategy) {
        Some(p) => Some((strategy, p)),
        None => match strategy.next_of() {
            Some(n) => first_hit_from(n, finds),
            None => None,
        },
    }
}

/// The chain stops at its first hit: the strategy that resolves rez finds
/// the resolved path, every strategy before it finds nothing, and the chain
/// fails only where no strategy finds a path.
pub proof fn lemma_first_hit_wins(finds: spec_fn(Strategy) -> Option<Seq<char>>)
    ensures
        match first_hit_from(Strategy::EnvOverride, finds) {
            Some((s, p)) => finds(s) == Some(p) && forall|t: Strategy|
                t.rank() < s.rank() ==> (#[trigger] finds(t)) is None,
            None => forall|t: Strategy| (#[trigger] finds(t)) is None,
        },
{
    let a = Strategy::EnvOverride;
    let b = Strategy::StandaloneRuntime;
    let c = Strategy::WrapperScript;
    let d = Strategy::SystemPath;
    let e = Strategy::CommonLocations;
    assert(first_hit_from(e, finds) == match finds(e) {
        Some(p) => Some((e, p)),
        None => None::<(Strategy, Seq<char>)>,
    });
    assert(first_hit_from(d, finds) == match finds(d) {
        Some(p) => Some((d, p)),
        None => first_hit_from(e, finds),
    });
    assert(first_hit_from(c, finds) == match finds(c) {
        Some(p) => Some((c, p)),
        None => first_hit_from(d, finds),
    });
    assert(first_hit_from(b, finds) == match finds(b) {
        Some(p) => Some((b, p)),
        None => first_hit_from(c, finds),
    });
    assert(first_hit_from(a, finds) == match finds(a) {
        Some(p) => Some((a, p)),
        None => first_hit_from(b, finds),
    });
}

impl PathResolver {
    /// A resolver that has found nothing yet.
    pub fn new() -> (r: PathResolver)
        ensures
            r.slot@ is Unset,
            r.probes == 0,
    {
        PathResolver { slot: CacheSlot::Unset, probes: 0 }
    }

    /// The path that is stored, if any.
    pub fn cached(&self) -> (r: Option<String>)
        ensures
            match self.slot@ {
                SlotView::Resolved(p) => r is Some && r->0@ == p,
                _ => r is None,
            },
    {
        match &self.slot {
            CacheSlot::Resolved(p) => Some(p.clone()),
            CacheSlot::Unset => None,
        }
    }

    /// Begins a resolution: answers with the stored path, or asks for the
    /// first strategy to be tried.
    pub fn start(&self) -> (step: ResolveStep)
        ensures
            step@ == start_of(self.slot@),
    {
        match &self.slot {
            CacheSlot::Resolved(p) => ResolveStep::Resolved(p.clone()),
            CacheSlot::Unset => ResolveStep::Probe(Strategy::EnvOverride),
        }
    }

    /// Takes in what a strategy found and says what follows. The first path
    /// that is reported is stored; from then on, until the slot is cleared,
    /// every answer is that path.
    pub fn report(&mut self, strategy: Strategy, found: Option<String>) -> (step: ResolveStep)
        ensures
            final(self).slot@ == slot_after(
                old(self).slot@,
                match found {
                    Some(p) => Some(p@),
                    None => None,
                },
            ),
            final(self).probes == probes_after(old(self).slot@, old(self).probes),
            step_after(
                old(self).slot@,
                strategy,
                match found {
                    Some(p) => Some(p@),
                    None => None,
                },
                step@,
            ),
    {
        if let CacheSlot::Resolved(p) = &self.slot {
            return ResolveStep::Resolved(p.clone());
        }
        if self.probes < u64::MAX {
            self.probes = self.probes + 1;
        }
        match found {
            Some(p) => {
                self.slot = CacheSlot::Resolved(p.clone());
                ResolveStep::Resolved(p)
            },
            None => match strategy.next() {
                Some(n) => ResolveStep::Probe(n),
                None => ResolveStep::Failed(
                    RezToolsError::ConfigError(
                        String::from_str(
                            "Rez executable not found. Please install rez or run 'rt install-rez'",
                        ),
                    ),
                ),
            },
        }
    }
}

/// Get the cached rez path, or the strategy to begin the search with.
pub fn get_rez_path(resolver: &PathResolver) -> (step: ResolveStep)
    ensures
        step@ == start_of(resolver.slot@),
{
    resolver.start()
}

/// Clear the cached rez path: whatever was stored, nothing is stored
/// afterwards, and the next resolution runs the chain again. The count of
/// probes stays.
pub fn clear_rez_path_cache(resolver: &mut PathResolver)
    ensures
        final(resolver).probes == old(resolver).probes,
        final(resolver).slot@ is Unset,
{
    resolver.slot = CacheSlot::Unset;
}

/// The result of the first strategy: the path that the environment variable
/// names, where the variable is set and the path exists. A variable that
/// names a missing path is passed over.
pub fn env_override(value: Option<&str>, present: bool) -> (r: Option<String>)
    ensures
        match r {
            Some(p) => value is Some && present && p@ == value->0@,
            None => value is None || !present,
        },
{
    match value {
        Some(v) => if present {
            Some(String::from_str(v))
        } else {
            None
        },
        None => None,
    }
}

/// The places of the rez script relative to the directory of an installed
/// interpreter, most likely first, each by its path components.
pub open spec fn rez_script_places_of(windows: bool) -> Seq<Seq<Seq<char>>> {
    if windows {
        seq![
            seq!["Scripts"@, "rez.exe"@],
            seq!["Scripts"@, "rez.bat"@],
            seq!["Scripts"@, "rez"@],
        ]
    } else {
        seq![seq!["bin"@, "rez"@], seq!["rez"@]]
    }
}

fn parts1(a: &str) -> (r: Vec<String>)
    ensures
        string_views(r@) == seq![a@],
{
    let mut r: Vec<String> = Vec::new();
    r.push(String::from_str(a));
    assert(string_views(r@) =~= seq![a@]);
    r
}

fn parts2(a: &str, b: &str) -> (r: Vec<String>)
    ensures
        string_views(r@) == seq![a@, b@],
{
    let mut r: Vec<String> = Vec::new();
    r.push(String::from_str(a));
    r.push(String::from_str(b));
    assert(string_views(r@) =~= seq![a@, b@]);
    r
}

/// The places of the rez script relative to the directory of an installed
/// interpreter.
pub fn rez_script_places(windows: bool) -> (r: Vec<Vec<String>>)
    ensures
        crate::locator::component_views(r@) == rez_script_places_of(windows),
{
    let mut r: Vec<Vec<String>> = Vec::new();
    if windows {
        r.push(parts2("Scripts", "rez.exe"));
        r.push(parts2("Scripts", "rez.bat"));
        r.push(parts2("Scripts", "rez"));
    } else {
        r.push(parts2("bin", "rez"));
        r.push(parts1("rez"));
    }
    assert(crate::locator::component_views(r@) =~= rez_script_places_of(windows));
    r
}

/// The result of the second strategy: with an installed interpreter, the
/// first rez script beside it that exists, and where there is none the
/// interpreter itself, which runs rez as a module. Without an interpreter the
/// strategy fails.
pub fn find_rez_in_python_standalone(python_path: Option<&str>, scripts: &Vec<ProbedPath>) -> (r:
    Result<String, RezToolsError>)
    ensures
        match python_path {
            None => r is Err && r->Err_0.is_config(
                "No Python Build Standalone installation found"@,
            ),
            Some(python) => r is Ok && r->Ok_0@ == if first_existing_from(scripts@, 0)
                < scripts@.len() {
                scripts@[first_existing_from(scripts@, 0)].path@
            } else {
                python@
            },
        },
{
    match python_path {
        None => Err(
            RezToolsError::ConfigError(
                String::from_str("No Python Build Standalone installation found"),
            ),
        ),
        Some(python) => match first_existing(scripts) {
            Some(p) => Ok(p),
            None => Ok(String::from_str(python)),
        },
    }
}

/// The file name of the wrapper script: a batch file on Windows, a shell
/// script elsewhere.
pub fn wrapper_name(windows: bool) -> (name: &'static str)
    ensures
        name@ == if windows {
            "rez.bat"@
        } else {
            "rez"@
        },
{
    if windows {
        "rez.bat"
    } else {
        "rez"
    }
}

/// The result of the third strategy, from the wrapper's path below the home
/// directory and whether it exists; `None` stands for a host without a home
/// directory.
pub fn find_rez_wrapper(wrapper: Option<&ProbedPath>) -> (r: Result<String, RezToolsError>)
    ensures
        match wrapper {
            None => r is Err && r->Err_0.is_config("Cannot find home directory"@),
            Some(w) => if w.exists {
                r is Ok && r->Ok_0@ == w.path@
            } else {
                r is Err && r->Err_0.is_config("Rez wrapper not found"@)
            },
        },
{
    match wrapper {
        None => Err(RezToolsError::ConfigError(String::from_str("Cannot find home directory"))),
        Some(w) => if w.exists {
            Ok(w.path.clone())
        } else {
            Err(RezToolsError::ConfigError(String::from_str("Rez wrapper not found")))
        },
    }
}

/// The command that searches the host's command path: `where` on Windows,
/// `which` elsewhere.
pub fn search_command(windows: bool) -> (cmd: &'static str)
    ensures
        cmd@ == if windows {
            "where"@
        } else {
            "which"@
        },
{
    if windows {
        "where"
    } else {
        "which"
    }
}

/// How the search command ended.
#[derive(Debug, Clone)]
pub enum SearchOutcome {
    /// It ran and reported success, with this output.
    Found(String),
    /// It ran and reported failure.
    Missing,
    /// It could not be run, for this reason.
    Unavailable(String),
}

/// The first line of a command's output without the white space around it.
pub open spec fn first_line_of(output: Seq<char>) -> Seq<char> {
    trim_of(output.subrange(0, index_from(output, '\n', 0)), None)
}

/// The first line of a command's output without the white space around it.
pub fn first_line(output: &str) -> (line: String)
    ensures
        line@ == first_line_of(output@),
{
    let text = chars_of(output);
    let end = find_char(&text, '\n');
    let head = copy_range(&text, 0, end);
    string_of(&trim(&head))
}

/// The result of the fourth strategy, from how the search command ended
/// and, where it named a path, whether that path exists.
pub fn find_rez_in_system_path(windows: bool, outcome: &SearchOutcome, named_exists: bool) -> (r:
    Result<String, RezToolsError>)
    ensures
        match *outcome {
            SearchOutcome::Found(output) => if first_line_of(output@).len() > 0 && named_exists {
                r is Ok && r->Ok_0@ == first_line_of(output@)
            } else {
                r is Err && r->Err_0.is_config("Rez command found but path does not exist"@)
            },
            SearchOutcome::Missing => r is Err && r->Err_0.is_config(
                "Rez not found in system PATH"@,
            ),
            SearchOutcome::Unavailable(why) => r is Err && r->Err_0.is_config(
                "Failed to search PATH (command '"@ + (if windows {
                    "where"@
                } else {
                    "which"@
                }) + "' not available): "@ + why@,
            ),
        },
{
    match outcome {
        SearchOutcome::Found(output) => {
            let line = first_line(output.as_str());
            if line.as_str().unicode_len() > 0 && named_exists {
                Ok(line)
            } else {
                Err(
                    RezToolsError::ConfigError(
                        String::from_str("Rez command found but path does not exist"),
                    ),
                )
            }
        },
        SearchOutcome::Missing => Err(
            RezToolsError::ConfigError(String::from_str("Rez not found in system PATH")),
        ),
        SearchOutcome::Unavailable(why) => Err(
            RezToolsError::ConfigError(
                String::from_str("Failed to search PATH (command '").concat(
                    search_command(windows),
                ).concat("' not available): ").concat(why.as_str()),
            ),
        ),
    }
}

/// The usual places of a rez installation on an operating system.
pub open spec fn common_locations_of(windows: bool) -> Seq<Seq<char>> {
    if windows {
        seq!["C:\\Program Files\\rez\\bin\\rez.exe"@, "C:\\rez\\bin\\rez.exe"@]
    } else {
        seq!["/usr/local/bin/rez"@, "/usr/bin/rez"@, "/opt/rez/bin/rez"@]
    }
}

/// The usual places of a rez installation on an operating system.
pub fn common_locations(windows: bool) -> (r: Vec<String>)
    ensures
        string_views(r@) == common_locations_of(windows),
{
    let mut r: Vec<String> = Vec::new();
    if windows {
        r.push(String::from_str("C:\\Program Files\\rez\\bin\\rez.exe"));
        r.push(String::from_str("C:\\rez\\bin\\rez.exe"));
    } else {
        r.push(String::from_str("/usr/local/bin/rez"));
        r.push(String::from_str("/usr/bin/rez"));
        r.push(String::from_str("/opt/rez/bin/rez"));
    }
    assert(string_views(r@) =~= common_locations_of(windows));
    r
}

/// The result of the fifth strategy: the first of the usual places that
/// exists.
pub fn find_rez_in_common_locations(places: &Vec<ProbedPath>) -> (r: Result<String, RezToolsError>)
    ensures
        if first_existing_from(places@, 0) < places@.len() {
            r is Ok && r->Ok_0@ == places@[first_existing_from(places@, 0)].path@
        } else {
            r is Err && r->Err_0.is_config("Rez not found in common locations"@)
        },
{
    match first_existing(places) {
        Some(p) => Ok(p),
        None => Err(
            RezToolsError::ConfigError(String::from_str("Rez not found in common locations")),
        ),
    }
}

/// The leading arguments that start rez from a resolved path: where the
/// file at the path is an interpreter, known by a file name that begins with
/// `python`, the interpreter with its module flag and `rez`; otherwise the
/// path alone.
pub open spec fn invocation_prefix_of(path: Seq<char>, file_name: Option<Seq<char>>) -> Seq<
    Seq<char>,
> {
    if file_name is Some && has_prefix(file_name->0, "python"@) {
        seq![path, "-m"@, "rez"@]
    } else {
        seq![path]
    }
}

/// The leading arguments that start rez from a resolved path whose file
/// name is `file_name`.
pub fn invocation_prefix(rez_path: &str, file_name: Option<&str>) -> (r: Vec<String>)
    ensures
        string_views(r@) == invocation_prefix_of(
            rez_path@,
            match file_name {
                Some(n) => Some(n@),
                None => None,
            },
        ),
{
    let is_python = match file_name {
        Some(n) => starts_with(&chars_of(n), &chars_of("python")),
        None => false,
    };
    let mut r: Vec<String> = Vec::new();
    r.push(String::from_str(rez_path));
    if is_python {
        r.push(String::from_str("-m"));
        r.push(String::from_str("rez"));
        assert(string_views(r@) =~= seq![rez_path@, "-m"@, "rez"@]);
    } else {
        assert(string_views(r@) =~= seq![rez_path@]);
    }
    r
}

/// Get rez command for execution: the resolved path, or the interpreter
/// with its module flag where the path is an interpreter's. The first entry
/// is always the path.
pub fn get_rez_command(rez_path: &str) -> (r: Vec<String>)
    ensures
        r@.len() == 1 || r@.len() == 3,
        r@[0]@ == rez_path@,
        r@.len() == 3 ==> r@[1]@ == "-m"@ && r@[2]@ == "rez"@,
{
    let name = file_name_of(rez_path);
    let r = match &name {
        Some(n) => invocation_prefix(rez_path, Some(n.as_str())),
        None => invocation_prefix(rez_path, None),
    };
    assert(string_views(r@).len() == r@.len());
    assert(string_views(r@)[0] == r@[0]@);
    if r.len() == 3 {
        assert(string_views(r@)[1] == r@[1]@);
        assert(string_views(r@)[2] == r@[2]@);
    }
    r
}

/// The resolved location for a path whose file name is `file_name`.
pub fn resolved_location(rez_path: &str, file_name: Option<&str>) -> (r: ResolvedLocation)
    ensures
        r.executable_path@ == rez_path@,
        string_views(r.invocation_prefix@) == invocation_prefix_of(
            rez_path@,
            match file_name {
                Some(n) => Some(n@),
                None => None,
            },
        ),
{
    ResolvedLocation {
        executable_path: String::from_str(rez_path),
        invocation_prefix: invocation_prefix(rez_path, file_name),
    }
}

} // verus!
