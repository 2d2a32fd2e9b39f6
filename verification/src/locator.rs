//! Finding the interpreter inside an installation tree: first at the places
//! where distributions keep it, then by a walk of bounded depth that passes
//! over virtual environments, tests and library directories.
//!
//! The caller reads the disk: it says which of the conventional places exist
//! and hands over the directory tree as plain values.

use crate::text::{
    chars_of, contains, contains_seq, lowercase_chars, lowercase_of, same_text, string_views,
};
use vstd::prelude::*;
use vstd::string::*;

verus! {

/// The depth to which an installation tree is walked.
pub const DEFAULT_MAX_DEPTH: usize = 3;

/// A path together with whether something exists there.
#[derive(Debug, Clone)]
pub struct ProbedPath {
    pub path: String,
    pub exists: bool,
}

/// One entry of a directory as it was read from the disk: its full path, its
/// file name where it has one that is valid text, what kind of entry it is,
/// and, for a directory, its own entries in the order they were listed.
#[derive(Debug)]
pub struct DirNode {
    pub path: String,
    pub name: Option<String>,
    pub is_file: bool,
    pub is_dir: bool,
    pub entries: Vec<DirNode>,
}

/// What the walk looks for and what it passes over.
#[derive(Debug, Clone)]
pub struct SearchRules {
    /// The file names of an interpreter.
    pub exe_names: Vec<String>,
    /// Texts that mark a path or a directory name, in lower case, as not
    /// belonging to the primary interpreter.
    pub markers: Vec<String>,
    /// Directory names, in lower case, that are never entered.
    pub skipped_dirs: Vec<String>,
}

/// The rules of a walk as plain texts.
pub struct RulesView {
    pub exe_names: Seq<Seq<char>>,
    pub markers: Seq<Seq<char>>,
    pub skipped_dirs: Seq<Seq<char>>,
}

impl View for SearchRules {
    type V = RulesView;

    open spec fn view(&self) -> RulesView {
        RulesView {
            exe_names: string_views(self.exe_names@),
            markers: string_views(self.markers@),
            skipped_dirs: string_views(self.skipped_dirs@),
        }
    }
}

/// `name` is one of `names`.
pub open spec fn is_listed(names: Seq<Seq<char>>, name: Seq<char>) -> bool {
    exists|i: int| 0 <= i < names.len() && #[trigger] names[i] == name
}

/// `text` holds one of `markers`.
pub open spec fn has_marker(markers: Seq<Seq<char>>, text: Seq<char>) -> bool {
    exists|i: int| 0 <= i < markers.len() && contains_seq(text, #[trigger] markers[i])
}

/// The entry is a file with an interpreter's name whose path, in lower
/// case, holds no marker.
pub open spec fn file_accepted(e: DirNode, rules: RulesView) -> bool {
    &&& e.is_file
    &&& e.name is Some
    &&& is_listed(rules.exe_names, e.name->0@)
    &&& !has_marker(rules.markers, lowercase_of(e.path@))
}

/// The entry is a directory that the walk enters: one whose name, in lower
/// case, holds no marker and is not among the skipped names. A directory
/// without a readable name is entered.
pub open spec fn dir_entered(e: DirNode, rules: RulesView) -> bool {
    &&& e.is_dir
    &&& (e.name is Some ==> !has_marker(rules.markers, lowercase_of(e.name->0@)) && !is_listed(
        rules.skipped_dirs,
        lowercase_of(e.name->0@),
    ))
}

/// The index of the first accepted file at or after `i`, or the number of
/// entries where there is none.
pub open spec fn first_file_from(entries: Seq<DirNode>, rules: RulesView, i: int) -> int
    decreases entries.len() - i,
{
    if 0 <= i < entries.len() && !file_accepted(entries[i], rules) {
        first_file_from(entries, rules, i + 1)
    } else {
        i
    }
}

/// The path that the walk of `node` gives at depth `depth`: nothing below
/// `max_depth`; otherwise the first accepted file among the node's entries,
/// and where there is none, the result of the first entered directory, in
/// listing order, whose own walk one level down gives one.
pub open spec fn search_in(node: DirNode, rules: RulesView, depth: nat, max_depth: nat) -> Option<
    Seq<char>,
>
    decreases max_depth + 1 - depth, 1int, 0int,
{
    if depth > max_depth {
        None
    } else {
        let f = first_file_from(node.entries@, rules, 0);
        if 0 <= f < node.entries@.len() {
            Some(node.entries@[f].path@)
        } else {
            search_children(node.entries@, rules, depth, max_depth, 0)
        }
    }
}

/// The result of the first entered directory at or after index `i` whose
/// walk gives a path.
pub open spec fn search_children(
    entries: Seq<DirNode>,
    rules: RulesView,
    depth: nat,
    max_depth: nat,
    i: int,
) -> Option<Seq<char>>
    decreases max_depth + 1 - depth, 0int, entries.len() - i,
{
    if depth > max_depth || i < 0 || i >= entries.len() {
        None
    } else if dir_entered(entries[i], rules) {
        match search_in(entries[i], rules, depth + 1, max_depth) {
            Some(p) => Some(p),
            None => search_children(entries, rules, depth, max_depth, i + 1),
        }
    } else {
        search_children(entries, rules, depth, max_depth, i + 1)
    }
}

/// The index of the first path at or after `i` that exists, or the number
/// of paths where none does.
pub open spec fn first_existing_from(paths: Seq<ProbedPath>, i: int) -> int
    decreases paths.len() - i,
{
    if 0 <= i < paths.len() && !paths[i].exists {
        first_existing_from(paths, i + 1)
    } else {
        i
    }
}

/// At the deepest level no directory is entered with a result.
proof fn lemma_no_children_at_max(entries: Seq<DirNode>, rules: RulesView, max_depth: nat, i: int)
    requires
        0 <= i,
    ensures
        search_children(entries, rules, max_depth, max_depth, i) is None,
    decreases entries.len() - i,
{
    if i < entries.len() {
        lemma_no_children_at_max(entries, rules, max_depth, i + 1);
        assert(search_in(entries[i], rules, max_depth + 1, max_depth) is None);
    }
}

/// The walk never gives a path from below the deepest level: started beyond
/// it, it gives nothing.
pub proof fn lemma_nothing_beyond_max_depth(
    node: DirNode,
    rules: RulesView,
    depth: nat,
    max_depth: nat,
)
    requires
        depth > max_depth,
    ensures
        search_in(node, rules, depth, max_depth) is None,
{
}

/// Among the entries from index `i` on, or below them through at most
/// `levels` directories that the walk enters, there is an accepted file with
/// the path `p`.
pub open spec fn accepted_from(
    entries: Seq<DirNode>,
    rules: RulesView,
    p: Seq<char>,
    levels: nat,
    i: int,
) -> bool
    decreases levels, entries.len() - i,
{
    if i < 0 || i >= entries.len() {
        false
    } else {
        ||| (file_accepted(entries[i], rules) && entries[i].path@ == p)
        ||| (levels > 0 && dir_entered(entries[i], rules) && accepted_from(
            entries[i].entries@,
            rules,
            p,
            (levels - 1) as nat,
            0,
        ))
        ||| accepted_from(entries, rules, p, levels, i + 1)
    }
}

proof fn lemma_first_file_is_accepted(
    entries: Seq<DirNode>,
    rules: RulesView,
    levels: nat,
    i: int,
)
    requires
        0 <= i <= entries.len(),
        first_file_from(entries, rules, i) < entries.len(),
    ensures
        i <= first_file_from(entries, rules, i),
        accepted_from(
            entries,
            rules,
            entries[first_file_from(entries, rules, i)].path@,
            levels,
            i,
        ),
    decreases entries.len() - i,
{
    if i < entries.len() && !file_accepted(entries[i], rules) {
        lemma_first_file_is_accepted(entries, rules, levels, i + 1);
    }
}

proof fn lemma_child_result_is_accepted(
    entries: Seq<DirNode>,
    rules: RulesView,
    depth: nat,
    max_depth: nat,
    i: int,
)
    requires
        0 <= i,
        search_children(entries, rules, depth, max_depth, i) is Some,
    ensures
        depth <= max_depth,
        accepted_from(
            entries,
            rules,
            search_children(entries, rules, depth, max_depth, i)->0,
            (max_depth - depth) as nat,
            i,
        ),
    decreases max_depth + 1 - depth, 0int, entries.len() - i,
{
    if dir_entered(entries[i], rules) && search_in(entries[i], rules, depth + 1, max_depth)
        is Some {
        lemma_result_is_accepted(entries[i], rules, depth + 1, max_depth);
    } else {
        lemma_child_result_is_accepted(entries, rules, depth, max_depth, i + 1);
    }
}

/// Whatever the walk gives is the path of an accepted file: one with an
/// interpreter's name whose path holds no marker, found at most `max_depth`
/// levels below the start and only through directories that the walk enters.
pub proof fn lemma_result_is_accepted(
    node: DirNode,
    rules: RulesView,
    depth: nat,
    max_depth: nat,
)
    requires
        search_in(node, rules, depth, max_depth) is Some,
    ensures
        depth <= max_depth,
        accepted_from(
            node.entries@,
            rules,
            search_in(node, rules, depth, max_depth)->0,
            (max_depth - depth) as nat,
            0,
        ),
    decreases max_depth + 1 - depth, 1int, 0int,
{
    let f = first_file_from(node.entries@, rules, 0);
    if 0 <= f < node.entries@.len() {
        lemma_first_file_is_accepted(node.entries@, rules, (max_depth - depth) as nat, 0);
    } else {
        lemma_child_result_is_accepted(node.entries@, rules, depth, max_depth, 0);
    }
}

/// Whether `name` is one of `names`.
pub fn listed(names: &Vec<String>, name: &Vec<char>) -> (b: bool)
    ensures
        b == is_listed(string_views(names@), name@),
{
    let mut i: usize = 0;
    while i < names.len()
        invariant
            i <= names@.len(),
            forall|k: int| 0 <= k < i ==> #[trigger] string_views(names@)[k] != name@,
        decreases names@.len() - i,
    {
        let candidate = chars_of(names[i].as_str());
        if same_text(&candidate, name) {
            assert(string_views(names@)[i as int] == name@);
            return true;
        }
        i += 1;
    }
    false
}

/// Whether `text` holds one of `markers`.
pub fn marked(markers: &Vec<String>, text: &Vec<char>) -> (b: bool)
    ensures
        b == has_marker(string_views(markers@), text@),
{
    let mut i: usize = 0;
    while i < markers.len()
        invariant
            i <= markers@.len(),
            forall|k: int|
                0 <= k < i ==> !contains_seq(text@, #[trigger] string_views(markers@)[k]),
        decreases markers@.len() - i,
    {
        let marker = chars_of(markers[i].as_str());
        if contains(text, &marker) {
            assert(contains_seq(text@, string_views(markers@)[i as int]));
            return true;
        }
        i += 1;
    }
    false
}

/// Whether the entry is a file that the walk accepts.
pub fn accepts_file(e: &DirNode, rules: &SearchRules) -> (b: bool)
    ensures
        b == file_accepted(*e, rules@),
{
    if !e.is_file {
        return false;
    }
    match &e.name {
        None => false,
        Some(name) => {
            let n = chars_of(name.as_str());
            if !listed(&rules.exe_names, &n) {
                return false;
            }
            let low = lowercase_chars(&chars_of(e.path.as_str()));
            !marked(&rules.markers, &low)
        },
    }
}

/// Whether the entry is a directory that the walk enters.
pub fn enters_dir(e: &DirNode, rules: &SearchRules) -> (b: bool)
    ensures
        b == dir_entered(*e, rules@),
{
    if !e.is_dir {
        return false;
    }
    match &e.name {
        None => true,
        Some(name) => {
            let low = lowercase_chars(&chars_of(name.as_str()));
            !marked(&rules.markers, &low) && !listed(&rules.skipped_dirs, &low)
        },
    }
}

/// Walks the tree below `node`, which stands at depth `current_depth`, down
/// to `max_depth`. In each directory a file that is accepted is preferred to
/// going deeper; directories are entered in the order they were listed.
pub fn search_tree(node: &DirNode, rules: &SearchRules, current_depth: usize, max_depth: usize) -> (r:
    Option<String>)
    ensures
        match search_in(*node, rules@, current_depth as nat, max_depth as nat) {
            Some(p) => r is Some && r->0@ == p,
            None => r is None,
        },
    decreases max_depth + 1 - current_depth,
{
    if current_depth > max_depth {
        return None;
    }
    let n = node.entries.len();
    let mut f: usize = 0;
    while f < n && !accepts_file(&node.entries[f], rules)
        invariant
            f <= n,
            n == node.entries@.len(),
            first_file_from(node.entries@, rules@, f as int) == first_file_from(
                node.entries@,
                rules@,
                0,
            ),
        decreases n - f,
    {
        f += 1;
    }
    if f < n {
        return Some(node.entries[f].path.clone());
    }
    if current_depth == max_depth {
        proof {
            lemma_no_children_at_max(node.entries@, rules@, max_depth as nat, 0);
        }
        return None;
    }
    let mut i: usize = 0;
    while i < n
        invariant
            i <= n,
            n == node.entries@.len(),
            current_depth < max_depth,
            search_in(*node, rules@, current_depth as nat, max_depth as nat) == search_children(
                node.entries@,
                rules@,
                current_depth as nat,
                max_depth as nat,
                0,
            ),
            search_children(node.entries@, rules@, current_depth as nat, max_depth as nat, i as int)
                == search_children(
                node.entries@,
                rules@,
                current_depth as nat,
                max_depth as nat,
                0,
            ),
        decreases n - i,
    {
        let ghost here = search_children(
            node.entries@,
            rules@,
            current_depth as nat,
            max_depth as nat,
            i as int,
        );
        let ghost after = search_children(
            node.entries@,
            rules@,
            current_depth as nat,
            max_depth as nat,
            i + 1,
        );
        if enters_dir(&node.entries[i], rules) {
            let found = search_tree(&node.entries[i], rules, current_depth + 1, max_depth);
            let ghost below = search_in(
                node.entries@[i as int],
                rules@,
                (current_depth + 1) as nat,
                max_depth as nat,
            );
            assert(here == if below is Some {
                below
            } else {
                after
            });
            if found.is_some() {
                return found;
            }
        } else {
            assert(here == after);
        }
        i += 1;
    }
    None
}

/// The first of the probed paths that exists, in the order given.
pub fn first_existing(paths: &Vec<ProbedPath>) -> (r: Option<String>)
    ensures
        match r {
            Some(p) => first_existing_from(paths@, 0) < paths@.len() && p@
                == paths@[first_existing_from(paths@, 0)].path@,
            None => first_existing_from(paths@, 0) >= paths@.len(),
        },
        r is Some <==> exists|k: int| 0 <= k < paths@.len() && (#[trigger] paths@[k]).exists,
{
    let n = paths.len();
    let mut i: usize = 0;
    while i < n && !paths[i].exists
        invariant
            i <= n,
            n == paths@.len(),
            first_existing_from(paths@, i as int) == first_existing_from(paths@, 0),
            forall|k: int| 0 <= k < i ==> !(#[trigger] paths@[k]).exists,
        decreases n - i,
    {
        i += 1;
    }
    if i < n {
        Some(paths[i].path.clone())
    } else {
        None
    }
}

/// The places, relative to an installation directory, where distributions
/// keep the interpreter, most likely first: those below a nested `python`
/// directory come before those directly below the installation directory.
/// Each place is given by its path components.
pub open spec fn conventional_places_of(windows: bool) -> Seq<Seq<Seq<char>>> {
    if windows {
        seq![
            seq!["python"@, "python.exe"@],
            seq!["python"@, "Scripts"@, "python.exe"@],
            seq!["python.exe"@],
            seq!["bin"@, "python.exe"@],
            seq!["Scripts"@, "python.exe"@],
        ]
    } else {
        seq![
            seq!["python"@, "bin"@, "python3"@],
            seq!["python"@, "bin"@, "python"@],
            seq!["python"@, "python3"@],
            seq!["python"@, "python"@],
            seq!["bin"@, "python3"@],
            seq!["bin"@, "python"@],
            seq!["python3"@],
            seq!["python"@],
        ]
    }
}

/// The rules of the walk on an operating system: the interpreter's file
/// names there, and the markers and directory names that are passed over
/// everywhere.
pub open spec fn default_rules_of(windows: bool) -> RulesView {
    RulesView {
        exe_names: if windows {
            seq!["python.exe"@, "python3.exe"@]
        } else {
            seq!["python3"@, "python"@]
        },
        markers: seq!["venv"@, "test"@, "lib"@],
        skipped_dirs: seq!["scripts"@],
    }
}

/// The views of a vector of component lists.
pub open spec fn component_views(v: Seq<Vec<String>>) -> Seq<Seq<Seq<char>>> {
    Seq::new(v.len(), |i: int| string_views(v[i]@))
}

fn place1(a: &str) -> (r: Vec<String>)
    ensures
        string_views(r@) == seq![a@],
{
    let mut r: Vec<String> = Vec::new();
    r.push(String::from_str(a));
    assert(string_views(r@) =~= seq![a@]);
    r
}

fn place2(a: &str, b: &str) -> (r: Vec<String>)
    ensures
        string_views(r@) == seq![a@, b@],
{
    let mut r: Vec<String> = Vec::new();
    r.push(String::from_str(a));
    r.push(String::from_str(b));
    assert(string_views(r@) =~= seq![a@, b@]);
    r
}

fn place3(a: &str, b: &str, c: &str) -> (r: Vec<String>)
    ensures
        string_views(r@) == seq![a@, b@, c@],
{
    let mut r: Vec<String> = Vec::new();
    r.push(String::from_str(a));
    r.push(String::from_str(b));
    r.push(String::from_str(c));
    assert(string_views(r@) =~= seq![a@, b@, c@]);
    r
}

/// The places where distributions keep the interpreter, most likely first.
pub fn conventional_places(windows: bool) -> (r: Vec<Vec<String>>)
    ensures
        component_views(r@) == conventional_places_of(windows),
{
    let mut r: Vec<Vec<String>> = Vec::new();
    if windows {
        r.push(place2("python", "python.exe"));
        r.push(place3("python", "Scripts", "python.exe"));
        r.push(place1("python.exe"));
        r.push(place2("bin", "python.exe"));
        r.push(place2("Scripts", "python.exe"));
    } else {
        r.push(place3("python", "bin", "python3"));
        r.push(place3("python", "bin", "python"));
        r.push(place2("python", "python3"));
        r.push(place2("python", "python"));
        r.push(place2("bin", "python3"));
        r.push(place2("bin", "python"));
        r.push(place1("python3"));
        r.push(place1("python"));
    }
    assert(component_views(r@) =~= conventional_places_of(windows));
    r
}

impl SearchRules {
    /// The rules of the walk on an operating system.
    pub fn for_os(windows: bool) -> (r: SearchRules)
        ensures
            r@ == default_rules_of(windows),
    {
        let exe_names = if windows {
            place2("python.exe", "python3.exe")
        } else {
            place2("python3", "python")
        };
        let markers = place3("venv", "test", "lib");
        let skipped_dirs = place1("scripts");
        SearchRules { exe_names, markers, skipped_dirs }
    }
}

} // verus!
