//! The command line of the tool suite: which action a list of arguments
//! asks for, and how the arguments after a plugin's name are read.

use crate::plugin::Plugin;
use crate::rez::RezCommand;
use crate::error::RezToolsError;
use crate::text::{append_chars, chars_of, str_eq, string_of, string_views};
use vstd::prelude::*;
use vstd::string::*;

verus! {

/// A plugin under the name it is called by.
#[derive(Debug, Clone)]
pub struct NamedPlugin {
    pub name: String,
    pub plugin: Plugin,
}

/// Main CLI application: the plugins that were found, in the order they
/// were found. Where two have the same name, the later one is meant.
#[derive(Debug, Clone)]
pub struct CliApp {
    pub plugins: Vec<NamedPlugin>,
}

/// What a command line asks for.
#[derive(Debug, Clone, Copy, PartialEq, Eq, Structural)]
pub enum CliAction {
    /// Print the help text and end with this exit code.
    Help(i32),
    /// Print the version.
    Version,
    /// List the plugins.
    List,
    /// Install rez.
    InstallRez,
    /// Report on the rez installation.
    CheckRez,
    /// Run the plugin at this index with the arguments after its name.
    RunPlugin(usize),
    /// Tell that the command is not known, print the help text and end with
    /// exit code 1.
    Unknown,
}

/// What the arguments after a plugin's name ask for.
#[derive(Debug, Clone)]
pub struct PluginOptions {
    pub ignore_cmd: bool,
    pub run_detached: bool,
    pub print_details: bool,
    /// The arguments that are no option, in order.
    pub remaining_args: Vec<String>,
}

/// What is done for a plugin command.
#[derive(Debug)]
pub enum PluginAction {
    /// Print the plugin's details and end with exit code 0.
    PrintDetails,
    /// Run this rez command.
    Run(RezCommand),
}

/// The argument is one of the three options of a plugin command.
pub open spec fn is_plugin_option(arg: Seq<char>) -> bool {
    arg == "--ignore-cmd"@ || arg == "--run-detached"@ || arg == "--print"@
}

/// Those of the first `n` arguments that are no option, in order.
pub open spec fn remaining_upto(args: Seq<Seq<char>>, n: int) -> Seq<Seq<char>>
    decreases n,
{
    if n <= 0 || n > args.len() {
        seq![]
    } else if is_plugin_option(args[n - 1]) {
        remaining_upto(args, n - 1)
    } else {
        remaining_upto(args, n - 1).push(args[n - 1])
    }
}

/// The index of the last plugin among the first `n` that has the given
/// name, or -1 where none has.
pub open spec fn last_named(plugins: Seq<NamedPlugin>, name: Seq<char>, n: int) -> int
    decreases n,
{
    if n <= 0 || n > plugins.len() {
        -1
    } else if plugins[n - 1].name@ == name {
        n - 1
    } else {
        last_named(plugins, name, n - 1)
    }
}

/// The action that a command line asks for, the program's own name being
/// its first argument.
pub open spec fn action_of(plugins: Seq<NamedPlugin>, args: Seq<Seq<char>>) -> CliAction {
    if args.len() < 2 {
        CliAction::Help(1)
    } else if args[1] == "--help"@ || args[1] == "-h"@ {
        CliAction::Help(0)
    } else if args[1] == "--version"@ || args[1] == "-V"@ {
        CliAction::Version
    } else if args[1] == "list"@ {
        CliAction::List
    } else if args[1] == "install-rez"@ {
        CliAction::InstallRez
    } else if args[1] == "check-rez"@ {
        CliAction::CheckRez
    } else {
        let i = last_named(plugins, args[1], plugins.len() as int);
        if i >= 0 {
            CliAction::RunPlugin(i as usize)
        } else {
            CliAction::Unknown
        }
    }
}

proof fn lemma_last_named_bounds(plugins: Seq<NamedPlugin>, name: Seq<char>, n: int)
    requires
        0 <= n <= plugins.len(),
    ensures
        -1 <= last_named(plugins, name, n) < n,
        last_named(plugins, name, n) >= 0 ==> plugins[last_named(plugins, name, n)].name@ == name,
    decreases n,
{
    if n > 0 && plugins[n - 1].name@ != name {
        lemma_last_named_bounds(plugins, name, n - 1);
    }
}

/// A text filled up with spaces at its end to at least `width` characters.
pub open spec fn padded(text: Seq<char>, width: nat) -> Seq<char> {
    text + Seq::new(
        if text.len() < width {
            (width - text.len()) as nat
        } else {
            0
        },
        |i: int| ' ',
    )
}

/// The short help of a plugin under the name it is called by: its own where
/// it has one, else a sentence that names it.
pub open spec fn help_of(entry: NamedPlugin) -> Seq<char> {
    match entry.plugin.short_help {
        Some(h) => h@,
        None => "A rez plugin - "@ + entry.name@ + "."@,
    }
}

/// The line that lists one plugin: its name in a column of twenty
/// characters, then its short help.
pub open spec fn list_line_of(entry: NamedPlugin) -> Seq<char> {
    "  "@ + padded(entry.name@, 20) + " "@ + help_of(entry)
}

/// The lines that list the callable plugins among the first `n`.
pub open spec fn list_lines_upto(plugins: Seq<NamedPlugin>, n: int) -> Seq<Seq<char>>
    decreases n,
{
    if n <= 0 || n > plugins.len() {
        seq![]
    } else if last_named(plugins, plugins[n - 1].name@, plugins.len() as int) == n - 1 {
        list_lines_upto(plugins, n - 1).push(list_line_of(plugins[n - 1]))
    } else {
        list_lines_upto(plugins, n - 1)
    }
}

/// What the list command prints: a heading and one line for each callable
/// plugin, or a single line where there is none.
pub open spec fn listing_of(plugins: Seq<NamedPlugin>) -> Seq<Seq<char>> {
    let lines = list_lines_upto(plugins, plugins.len() as int);
    if lines.len() == 0 {
        seq!["No plugins found."@]
    } else {
        seq!["Available plugins:"@] + lines
    }
}

/// A text filled up with spaces at its end to at least `width` characters.
pub fn pad(text: &str, width: usize) -> (r: String)
    ensures
        r@ == padded(text@, width as nat),
{
    let mut chars = chars_of(text);
    let n = chars.len();
    let mut i: usize = n;
    assert(chars@ =~= text@ + Seq::new(0, |k: int| ' '));
    while i < width
        invariant
            n == text@.len(),
            n <= i,
            i <= width || i == n,
            chars@ == text@ + Seq::new((i - n) as nat, |k: int| ' '),
        decreases width - i,
    {
        chars.push(' ');
        i += 1;
        assert(chars@ =~= text@ + Seq::new((i - n) as nat, |k: int| ' '));
    }
    assert(chars@ =~= padded(text@, width as nat));
    string_of(&chars)
}

/// Reads the arguments after a plugin's name: the three options may stand
/// anywhere and any number of times; everything else is kept, in order.
pub fn parse_plugin_args(args: &Vec<String>) -> (o: PluginOptions)
    ensures
        o.ignore_cmd == string_views(args@).contains("--ignore-cmd"@),
        o.run_detached == string_views(args@).contains("--run-detached"@),
        o.print_details == string_views(args@).contains("--print"@),
        string_views(o.remaining_args@) == remaining_upto(
            string_views(args@),
            args@.len() as int,
        ),
{
    let ghost av = string_views(args@);
    let mut ignore_cmd = false;
    let mut run_detached = false;
    let mut print_details = false;
    let mut remaining: Vec<String> = Vec::new();
    let mut i: usize = 0;
    assert(string_views(remaining@) =~= remaining_upto(av, 0));
    while i < args.len()
        invariant
            i <= args@.len(),
            av == string_views(args@),
            ignore_cmd == av.subrange(0, i as int).contains("--ignore-cmd"@),
            run_detached == av.subrange(0, i as int).contains("--run-detached"@),
            print_details == av.subrange(0, i as int).contains("--print"@),
            string_views(remaining@) == remaining_upto(av, i as int),
        decreases args@.len() - i,
    {
        let arg = args[i].as_str();
        proof {
            reveal_strlit("--ignore-cmd");
            reveal_strlit("--run-detached");
            reveal_strlit("--print");
            assert("--ignore-cmd"@.len() == 12);
            assert("--run-detached"@.len() == 14);
            assert("--print"@.len() == 7);
            let before = av.subrange(0, i as int);
            let after = av.subrange(0, i + 1);
            assert(av[i as int] == arg@);
            assert(after =~= before.push(arg@));
            assert forall|x: Seq<char>| after.contains(x) <==> (before.contains(x) || x == arg@) by {
                if before.contains(x) {
                    let k = choose|k: int| 0 <= k < before.len() && before[k] == x;
                    assert(after[k] == x);
                }
                if x == arg@ {
                    assert(after[i as int] == x);
                }
            }
        }
        if str_eq(arg, "--ignore-cmd") {
            ignore_cmd = true;
        } else if str_eq(arg, "--run-detached") {
            run_detached = true;
        } else if str_eq(arg, "--print") {
            print_details = true;
        } else {
            let kept = args[i].clone();
            proof {
                assert(string_views(remaining@.push(kept)) =~= string_views(remaining@).push(
                    kept@,
                ));
            }
            remaining.push(kept);
        }
        i += 1;
    }
    assert(av.subrange(0, args@.len() as int) =~= av);
    PluginOptions { ignore_cmd, run_detached, print_details, remaining_args: remaining }
}

impl CliApp {
    /// Create a new CLI application from the plugins that were found.
    pub fn new(plugins: Vec<NamedPlugin>) -> (app: CliApp)
        ensures
            app.plugins == plugins,
    {
        CliApp { plugins }
    }

    /// The index of the plugin that a name calls: the last one under that
    /// name.
    pub fn find(&self, name: &str) -> (r: Option<usize>)
        ensures
            match r {
                Some(i) => i == last_named(self.plugins@, name@, self.plugins@.len() as int) && i
                    < self.plugins@.len() && self.plugins@[i as int].name@ == name@,
                None => last_named(self.plugins@, name@, self.plugins@.len() as int) < 0,
            },
    {
        let mut n: usize = self.plugins.len();
        proof {
            lemma_last_named_bounds(self.plugins@, name@, n as int);
        }
        while n > 0
            invariant
                n <= self.plugins@.len(),
                last_named(self.plugins@, name@, n as int) == last_named(
                    self.plugins@,
                    name@,
                    self.plugins@.len() as int,
                ),
            decreases n,
        {
            if str_eq(self.plugins[n - 1].name.as_str(), name) {
                return Some(n - 1);
            }
            n -= 1;
        }
        None
    }

    /// The indices of the plugins that can be called, in order: of those
    /// that share a name, only the last.
    pub fn callable(&self) -> (r: Vec<usize>)
        ensures
            forall|k: int|
                0 <= k < r@.len() ==> (#[trigger] r@[k]) < self.plugins@.len() && last_named(
                    self.plugins@,
                    self.plugins@[r@[k] as int].name@,
                    self.plugins@.len() as int,
                ) == r@[k],
            forall|i: int|
                0 <= i < self.plugins@.len() && last_named(
                    self.plugins@,
                    (#[trigger] self.plugins@[i]).name@,
                    self.plugins@.len() as int,
                ) == i ==> r@.contains(i as usize),
            forall|j: int, k: int| 0 <= j < k < r@.len() ==> r@[j] < r@[k],
    {
        let mut r: Vec<usize> = Vec::new();
        let mut i: usize = 0;
        while i < self.plugins.len()
            invariant
                i <= self.plugins@.len(),
                forall|k: int|
                    0 <= k < r@.len() ==> (#[trigger] r@[k]) < i && last_named(
                        self.plugins@,
                        self.plugins@[r@[k] as int].name@,
                        self.plugins@.len() as int,
                    ) == r@[k],
                forall|n: int|
                    0 <= n < i && last_named(
                        self.plugins@,
                        (#[trigger] self.plugins@[n]).name@,
                        self.plugins@.len() as int,
                    ) == n ==> r@.contains(n as usize),
                forall|j: int, k: int| 0 <= j < k < r@.len() ==> r@[j] < r@[k],
            decreases self.plugins@.len() - i,
        {
            let found = self.find(self.plugins[i].name.as_str());
            let ghost before = r@;
            if found == Some(i) {
                r.push(i);
                assert(r@[r@.len() - 1] == i);
            }
            proof {
                assert forall|n: int|
                    0 <= n < i + 1 && last_named(
                        self.plugins@,
                        (#[trigger] self.plugins@[n]).name@,
                        self.plugins@.len() as int,
                    ) == n implies r@.contains(n as usize) by {
                    if n < i {
                        let k = choose|k: int| 0 <= k < before.len() && before[k] == n as usize;
                        assert(r@[k] == n as usize);
                    } else {
                        assert(r@[r@.len() - 1] == n as usize);
                    }
                }
            }
            i += 1;
        }
        r
    }

    /// The line that lists the plugin at index `i`.
    pub fn list_line(&self, i: usize) -> (line: String)
        requires
            i < self.plugins@.len(),
        ensures
            line@ == list_line_of(self.plugins@[i as int]),
    {
        let entry = &self.plugins[i];
        let help = entry.plugin.short_help_for(entry.name.as_str());
        String::from_str("  ").concat(pad(entry.name.as_str(), 20).as_str()).concat(" ").concat(
            help.as_str(),
        )
    }

    /// List all available plugins: the lines that the list command prints.
    pub fn list_plugins(&self) -> (lines: Vec<String>)
        ensures
            string_views(lines@) == listing_of(self.plugins@),
    {
        let mut body: Vec<String> = Vec::new();
        let mut i: usize = 0;
        assert(string_views(body@) =~= list_lines_upto(self.plugins@, 0));
        while i < self.plugins.len()
            invariant
                i <= self.plugins@.len(),
                string_views(body@) == list_lines_upto(self.plugins@, i as int),
            decreases self.plugins@.len() - i,
        {
            let found = self.find(self.plugins[i].name.as_str());
            if found == Some(i) {
                let line = self.list_line(i);
                proof {
                    assert(string_views(body@.push(line)) =~= string_views(body@).push(line@));
                }
                body.push(line);
            }
            i += 1;
        }
        let mut lines: Vec<String> = Vec::new();
        if body.len() == 0 {
            lines.push(String::from_str("No plugins found."));
            assert(string_views(body@).len() == 0);
            assert(string_views(lines@) =~= seq!["No plugins found."@]);
        } else {
            lines.push(String::from_str("Available plugins:"));
            let ghost head = lines@;
            let ghost tail = body@;
            lines.append(&mut body);
            assert(string_views(tail).len() == tail.len());
            assert(string_views(lines@) =~= seq!["Available plugins:"@] + string_views(tail));
        }
        lines
    }

    /// The action that a command line asks for, the program's own name
    /// being its first argument.
    pub fn route(&self, args: &Vec<String>) -> (a: CliAction)
        ensures
            a == action_of(self.plugins@, string_views(args@)),
    {
        if args.len() < 2 {
            return CliAction::Help(1);
        }
        let sub = args[1].as_str();
        assert(string_views(args@)[1] == sub@);
        if str_eq(sub, "--help") || str_eq(sub, "-h") {
            CliAction::Help(0)
        } else if str_eq(sub, "--version") || str_eq(sub, "-V") {
            CliAction::Version
        } else if str_eq(sub, "list") {
            CliAction::List
        } else if str_eq(sub, "install-rez") {
            CliAction::InstallRez
        } else if str_eq(sub, "check-rez") {
            CliAction::CheckRez
        } else {
            match self.find(sub) {
                Some(i) => CliAction::RunPlugin(i),
                None => CliAction::Unknown,
            }
        }
    }

    /// Handle a plugin command: with `--print` among the arguments the
    /// plugin's details are printed; otherwise its command is run, detached
    /// where the plugin or the arguments ask for it, with the arguments that
    /// are no option.
    pub fn handle_plugin_command(&self, plugin: Plugin, args: &Vec<String>) -> (a: PluginAction)
        ensures
            string_views(args@).contains("--print"@) ==> a is PrintDetails,
            !string_views(args@).contains("--print"@) ==> {
                &&& a is Run
                &&& a->Run_0.plugin == plugin
                &&& a->Run_0.ignore_cmd == string_views(args@).contains("--ignore-cmd"@)
                &&& a->Run_0.detached == (plugin.run_detached || string_views(args@).contains(
                    "--run-detached"@,
                ))
                &&& string_views(a->Run_0.args@) == remaining_upto(
                    string_views(args@),
                    args@.len() as int,
                )
            },
    {
        let options = parse_plugin_args(args);
        if options.print_details {
            return PluginAction::PrintDetails;
        }
        let mut rez_cmd = RezCommand::new(plugin);
        if options.ignore_cmd {
            rez_cmd = rez_cmd.with_ignore_cmd(true);
        }
        if options.run_detached {
            rez_cmd = rez_cmd.with_detached(true);
        }
        if options.remaining_args.len() > 0 {
            rez_cmd = rez_cmd.with_args(options.remaining_args);
        } else {
            assert(string_views(rez_cmd.args@) =~= string_views(options.remaining_args@));
        }
        PluginAction::Run(rez_cmd)
    }
}

/// What the list command gives: the lines to print and the exit code.
#[derive(Debug, Clone)]
pub struct ListOutput {
    pub lines: Vec<String>,
    pub exit_code: i32,
}

/// Handle the list subcommand: the plugins are listed, and the command ends
/// with exit code 0.
pub fn handle_list_command(app: &CliApp) -> (r: Result<ListOutput, RezToolsError>)
    ensures
        r is Ok,
        r->Ok_0.exit_code == 0,
        string_views(r->Ok_0.lines@) == listing_of(app.plugins@),
{
    Ok(ListOutput { lines: app.list_plugins(), exit_code: 0 })
}

} // verus!
