//! The command line that runs a plugin's command inside a rez environment.

use crate::plugin::Plugin;
use crate::text::string_views;
use vstd::prelude::*;
use vstd::string::*;

verus! {

/// Represents a rez command to be executed.
#[derive(Debug, Clone)]
pub struct RezCommand {
    /// The plugin this command is based on.
    pub plugin: Plugin,
    /// Additional arguments passed to the command.
    pub args: Vec<String>,
    /// Whether to run detached.
    pub detached: bool,
    /// Whether to ignore the default command and use args as the command.
    pub ignore_cmd: bool,
}

/// The leading arguments that start rez: those that were resolved, or the
/// bare command `rez` where none were.
pub open spec fn rez_prefix_of(resolved: Option<Seq<Seq<char>>>) -> Seq<Seq<char>> {
    match resolved {
        Some(prefix) => prefix,
        None => seq!["rez"@],
    }
}

/// What is run inside the environment: the plugin's command followed by
/// the arguments, or the arguments alone where the command is to be ignored
/// and there are arguments.
pub open spec fn payload_of(
    command: Seq<char>,
    args: Seq<Seq<char>>,
    ignore_cmd: bool,
) -> Seq<Seq<char>> {
    if ignore_cmd && args.len() > 0 {
        args
    } else {
        seq![command] + args
    }
}

/// The complete command line: the prefix that starts rez, `env -q`, the
/// required packages, the separator `--`, and what is run.
pub open spec fn command_line_of(
    prefix: Seq<Seq<char>>,
    packages: Seq<Seq<char>>,
    payload: Seq<Seq<char>>,
) -> Seq<Seq<char>> {
    prefix + seq!["env"@, "-q"@] + packages + seq!["--"@] + payload
}

/// Appends copies of `more` to `line`.
fn extend_with(line: &mut Vec<String>, more: &Vec<String>)
    ensures
        string_views(final(line)@) == string_views(old(line)@) + string_views(more@),
{
    let mut i: usize = 0;
    assert(string_views(line@) =~= string_views(old(line)@) + string_views(more@.subrange(0, 0)));
    while i < more.len()
        invariant
            i <= more@.len(),
            string_views(line@) == string_views(old(line)@) + string_views(
                more@.subrange(0, i as int),
            ),
        decreases more@.len() - i,
    {
        let ghost before = line@;
        let item = more[i].clone();
        line.push(item);
        i += 1;
        assert(string_views(line@) =~= string_views(before).push(item@));
        assert(string_views(more@.subrange(0, i as int)) =~= string_views(
            more@.subrange(0, i - 1),
        ).push(item@));
    }
    assert(more@.subrange(0, more@.len() as int) =~= more@);
}

/// Appends one text to `line`.
fn push_text(line: &mut Vec<String>, text: &str)
    ensures
        string_views(final(line)@) == string_views(old(line)@) + seq![text@],
{
    let ghost before = line@;
    line.push(String::from_str(text));
    assert(string_views(line@) =~= string_views(before) + seq![text@]);
}

impl RezCommand {
    /// Create a new RezCommand from a plugin: without arguments, detached
    /// where the plugin asks for it.
    pub fn new(plugin: Plugin) -> (c: RezCommand)
        ensures
            c.plugin == plugin,
            c.args@.len() == 0,
            c.detached == plugin.run_detached,
            !c.ignore_cmd,
    {
        RezCommand { detached: plugin.run_detached, plugin, args: Vec::new(), ignore_cmd: false }
    }

    /// Set additional arguments.
    pub fn with_args(self, args: Vec<String>) -> (c: RezCommand)
        ensures
            c.args == args,
            c.plugin == self.plugin,
            c.detached == self.detached,
            c.ignore_cmd == self.ignore_cmd,
    {
        let mut c = self;
        c.args = args;
        c
    }

    /// Set detached mode.
    pub fn with_detached(self, detached: bool) -> (c: RezCommand)
        ensures
            c.detached == detached,
            c.plugin == self.plugin,
            c.args == self.args,
            c.ignore_cmd == self.ignore_cmd,
    {
        let mut c = self;
        c.detached = detached;
        c
    }

    /// Set ignore command mode.
    pub fn with_ignore_cmd(self, ignore_cmd: bool) -> (c: RezCommand)
        ensures
            c.ignore_cmd == ignore_cmd,
            c.plugin == self.plugin,
            c.args == self.args,
            c.detached == self.detached,
    {
        let mut c = self;
        c.ignore_cmd = ignore_cmd;
        c
    }

    /// Build the complete rez command line, given the leading arguments
    /// that start rez where they were resolved.
    pub fn build_command(&self, resolved: Option<&Vec<String>>) -> (line: Vec<String>)
        ensures
            string_views(line@) == command_line_of(
                rez_prefix_of(
                    match resolved {
                        Some(p) => Some(string_views(p@)),
                        None => None,
                    },
                ),
                string_views(self.plugin.requires@),
                payload_of(self.plugin.command@, string_views(self.args@), self.ignore_cmd),
            ),
            line@.len() >= 4,
    {
        let mut line: Vec<String> = Vec::new();
        assert(string_views(line@) =~= seq![]);
        match resolved {
            Some(p) => extend_with(&mut line, p),
            None => push_text(&mut line, "rez"),
        }
        let ghost prefix = string_views(line@);
        assert(prefix =~= rez_prefix_of(
            match resolved {
                Some(p) => Some(string_views(p@)),
                None => None,
            },
        ));
        push_text(&mut line, "env");
        push_text(&mut line, "-q");
        assert(string_views(line@) =~= prefix + seq!["env"@, "-q"@]);
        extend_with(&mut line, &self.plugin.requires);
        push_text(&mut line, "--");
        let ghost head = string_views(line@);
        if self.ignore_cmd && self.args.len() > 0 {
            extend_with(&mut line, &self.args);
        } else {
            push_text(&mut line, self.plugin.command.as_str());
            extend_with(&mut line, &self.args);
            assert(string_views(line@) =~= head + (seq![self.plugin.command@] + string_views(
                self.args@,
            )));
        }
        assert(string_views(line@).len() == line@.len());
        line
    }
}

} // verus!
