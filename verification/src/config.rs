//! The configuration of the tool suite: where tool files are looked for and
//! what their extension is.

use crate::paths::{home_dir, join_path};
use crate::text::{append_chars, chars_of, string_of, string_views};
use vstd::prelude::*;
use vstd::string::*;

verus! {

/// Configuration for rez-tools.
#[derive(Debug, Clone)]
pub struct Config {
    /// Paths to search for .rt files.
    pub tool_paths: Vec<String>,
    /// File extension for tool files (default: ".rt").
    pub extension: String,
}

impl Default for Config {
    fn default() -> (c: Config)
        ensures
            c.tool_paths@.len() == 1,
            c.extension@ == ".rt"@,
    {
        Config::new()
    }
}

impl Config {
    /// The configuration with one tool path and the default extension.
    pub fn with_default_path(path: String) -> (c: Config)
        ensures
            c.tool_paths@ == seq![path],
            c.extension@ == ".rt"@,
    {
        let mut tool_paths: Vec<String> = Vec::new();
        tool_paths.push(path);
        assert(tool_paths@ =~= seq![path]);
        Config { tool_paths, extension: String::from_str(".rt") }
    }

    /// Create a new config with default values: the directory `packages`
    /// below the user's home, or below the current directory where the host
    /// knows no home, and the extension `.rt`.
    pub fn new() -> (c: Config)
        ensures
            c.tool_paths@.len() == 1,
            c.extension@ == ".rt"@,
    {
        let base = match home_dir() {
            Some(home) => home,
            None => String::from_str("."),
        };
        Config::with_default_path(join_path(base.as_str(), "packages"))
    }

    /// Add a tool path to the configuration, after those it has.
    pub fn add_tool_path(&mut self, path: &str)
        ensures
            final(self).extension == old(self).extension,
            final(self).tool_paths@.len() == old(self).tool_paths@.len() + 1,
            final(self).tool_paths@.drop_last() == old(self).tool_paths@,
            final(self).tool_paths@.last()@ == path@,
    {
        let ghost before = self.tool_paths@;
        self.tool_paths.push(String::from_str(path));
        assert(self.tool_paths@.drop_last() =~= before);
    }

    /// Set the file extension.
    pub fn set_extension(&mut self, extension: &str)
        ensures
            final(self).tool_paths == old(self).tool_paths,
            final(self).extension@ == extension@,
    {
        self.extension = String::from_str(extension);
    }
}

/// A text with each of its backslashes written twice, as a quoted TOML
/// text wants them.
pub open spec fn doubled_backslashes(s: Seq<char>) -> Seq<char>
    decreases s.len(),
{
    if s.len() == 0 {
        seq![]
    } else if s.last() == '\\' {
        doubled_backslashes(s.drop_last()) + seq!['\\', '\\']
    } else {
        doubled_backslashes(s.drop_last()).push(s.last())
    }
}

/// The lines that list the first `n` tool paths in TOML: each path
/// indented and quoted, with a comma between one line and the next.
pub open spec fn toml_path_lines(paths: Seq<Seq<char>>, n: int) -> Seq<char>
    decreases n,
{
    if n <= 0 || n > paths.len() {
        seq![]
    } else {
        let before = if n == 1 {
            seq![]
        } else {
            toml_path_lines(paths, n - 1) + ",\n"@
        };
        before + "    \""@ + doubled_backslashes(paths[n - 1]) + "\""@
    }
}

/// A configuration written as a TOML file, with a comment that names the
/// file it was converted from.
pub open spec fn toml_of(source: Seq<char>, extension: Seq<char>, paths: Seq<Seq<char>>) -> Seq<
    char,
> {
    "# rez-tools configuration file (TOML format)\n# Converted from: "@ + source
        + "\n\n# File extension for tool files\nextension = \""@ + extension
        + "\"\n\n# Paths to search for .rt files\ntool_paths = [\n"@ + toml_path_lines(
        paths,
        paths.len() as int,
    ) + "\n]\n"@
}

/// A text with each of its backslashes written twice.
pub fn double_backslashes(text: &Vec<char>) -> (r: Vec<char>)
    ensures
        r@ == doubled_backslashes(text@),
{
    let mut r: Vec<char> = Vec::new();
    let mut i: usize = 0;
    assert(text@.subrange(0, 0) =~= seq![]);
    while i < text.len()
        invariant
            i <= text@.len(),
            r@ == doubled_backslashes(text@.subrange(0, i as int)),
        decreases text@.len() - i,
    {
        let ghost before = r@;
        proof {
            assert(text@.subrange(0, i + 1).drop_last() =~= text@.subrange(0, i as int));
        }
        if text[i] == '\\' {
            r.push('\\');
            r.push('\\');
            assert(r@ =~= before + seq!['\\', '\\']);
        } else {
            r.push(text[i]);
        }
        i += 1;
    }
    assert(text@.subrange(0, text@.len() as int) =~= text@);
    r
}

impl Config {
    /// Writes the configuration as a TOML file, with a comment that names
    /// the file it was converted from.
    pub fn to_toml(&self, source: &str) -> (r: String)
        ensures
            r@ == toml_of(source@, self.extension@, string_views(self.tool_paths@)),
    {
        let ghost pv = string_views(self.tool_paths@);
        let mut lines: Vec<char> = Vec::new();
        let mut i: usize = 0;
        while i < self.tool_paths.len()
            invariant
                i <= self.tool_paths@.len(),
                pv == string_views(self.tool_paths@),
                lines@ == toml_path_lines(pv, i as int),
            decreases self.tool_paths@.len() - i,
        {
            let ghost before = lines@;
            if i > 0 {
                append_chars(&mut lines, &chars_of(",\n"));
            }
            let ghost joined = lines@;
            append_chars(&mut lines, &chars_of("    \""));
            let path = chars_of(self.tool_paths[i].as_str());
            assert(pv[i as int] == path@);
            append_chars(&mut lines, &double_backslashes(&path));
            append_chars(&mut lines, &chars_of("\""));
            proof {
                assert(joined =~= if i == 0 {
                    seq![]
                } else {
                    toml_path_lines(pv, i as int) + ",\n"@
                });
                assert(lines@ =~= joined + "    \""@ + doubled_backslashes(pv[i as int]) + "\""@);
            }
            i += 1;
        }
        let mut out = chars_of("# rez-tools configuration file (TOML format)\n# Converted from: ");
        append_chars(&mut out, &chars_of(source));
        append_chars(
            &mut out,
            &chars_of("\n\n# File extension for tool files\nextension = \""),
        );
        append_chars(&mut out, &chars_of(self.extension.as_str()));
        append_chars(
            &mut out,
            &chars_of("\"\n\n# Paths to search for .rt files\ntool_paths = [\n"),
        );
        append_chars(&mut out, &lines);
        append_chars(&mut out, &chars_of("\n]\n"));
        string_of(&out)
    }
}

} // verus!
