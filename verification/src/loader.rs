//! Reading the configuration file in its simple Python form: two
//! assignments, `tool_paths = [..]` and `extension = ".."`, with the list on
//! one line or on several.

use crate::config::Config;
use crate::detection::{after_prefix, optional_view};
use crate::error::RezToolsError;
use crate::paths::{home_dir, join_path};
use crate::text::{
    chars_of, contains, contains_seq, copy_range, count_char, count_of, find_char, has_prefix,
    index_back, index_from, lemma_trim_bounds, rfind_char, split_char, split_of, starts_with,
    string_of, trim, trim_of, views_of,
};
use vstd::prelude::*;
use vstd::string::*;

verus! {

/// A path as the configuration writes it.
#[derive(Debug, Clone)]
pub enum PathExpr {
    /// The path itself.
    Plain(String),
    /// A path below the user's home directory: what follows `~/`.
    BelowHome(String),
}

/// A written path as plain values.
pub enum PathExprView {
    Plain(Seq<char>),
    BelowHome(Seq<char>),
}

impl View for PathExpr {
    type V = PathExprView;

    open spec fn view(&self) -> PathExprView {
        match self {
            PathExpr::Plain(p) => PathExprView::Plain(p@),
            PathExpr::BelowHome(p) => PathExprView::BelowHome(p@),
        }
    }
}

/// What the lines of a configuration assign.
#[derive(Debug, Clone)]
pub struct ParsedConfig {
    pub tool_paths: Vec<PathExpr>,
    pub extension: Option<String>,
}

/// The views of a sequence of written paths.
pub open spec fn expr_views(v: Seq<PathExpr>) -> Seq<PathExprView> {
    Seq::new(v.len(), |i: int| v[i]@)
}

/// The text stands between two double quotes or between two single quotes.
pub open spec fn is_quoted(s: Seq<char>) -> bool {
    s.len() >= 2 && ((s[0] == '"' && s[s.len() - 1] == '"') || (s[0] == '\'' && s[s.len() - 1]
        == '\''))
}

/// `c` occurs in `s`.
pub open spec fn has_char(s: Seq<char>, c: char) -> bool {
    index_from(s, c, 0) < s.len()
}

/// The value that a text gives, read without the white space around it: what
/// stands between its quotes where it is quoted; otherwise the value of what
/// follows its first `=` where it has one; otherwise the text itself, unless
/// it is empty. A lone quote character is taken as it stands.
pub open spec fn string_value_of(s: Seq<char>) -> Option<Seq<char>>
    decreases s.len(),
{
    let line = trim_of(s, None);
    if is_quoted(line) {
        Some(line.subrange(1, line.len() - 1))
    } else {
        let pos = index_from(line, '=', 0);
        if 0 <= pos < line.len() {
            proof {
                lemma_trim_bounds(s, None);
            }
            string_value_of(line.subrange(pos + 1, line.len() as int))
        } else if line.len() > 0 {
            Some(line)
        } else {
            None
        }
    }
}

/// What stands between the first `[` and the last `]` of a line; `None`
/// where one of them is missing or the last `]` comes before the first `[`.
pub open spec fn list_content_of(line: Seq<char>) -> Option<Seq<char>> {
    let a = index_from(line, '[', 0);
    let b = index_back(line, ']', line.len() as int);
    if 0 <= a < line.len() && a + 1 <= b - 1 && b <= line.len() {
        Some(line.subrange(a + 1, b - 1))
    } else {
        None
    }
}

/// The path that a written value stands for. A value that calls
/// `expanduser` on a quoted text stands for that text, below the home
/// directory where the text begins with `~/`; a value that speaks of the
/// directory of the configuration file stands for the current directory; any
/// other value stands for itself.
pub open spec fn path_expr_of(path: Seq<char>) -> PathExprView {
    let a = index_from(path, '"', 0);
    let b = index_back(path, '"', path.len() as int);
    if contains_seq(path, "expanduser"@) && 0 <= a < path.len() && a + 1 <= b - 1 && b
        <= path.len() {
        let inner = path.subrange(a + 1, b - 1);
        if has_prefix(inner, "~/"@) {
            PathExprView::BelowHome(after_prefix(inner, "~/"@))
        } else {
            PathExprView::Plain(inner)
        }
    } else if contains_seq(path, "dirname(__file__)"@) {
        PathExprView::Plain("."@)
    } else {
        PathExprView::Plain(path)
    }
}

/// The paths that the first `n` pieces of a list give, in order.
pub open spec fn exprs_upto(pieces: Seq<Seq<char>>, n: int) -> Seq<PathExprView>
    decreases n,
{
    if n <= 0 || n > pieces.len() {
        seq![]
    } else {
        let before = exprs_upto(pieces, n - 1);
        match string_value_of(pieces[n - 1]) {
            Some(v) => before.push(path_expr_of(v)),
            None => before,
        }
    }
}

/// The paths of a list written between commas.
pub open spec fn path_list_of(content: Seq<char>) -> Seq<PathExprView> {
    exprs_upto(split_of(content, ','), split_of(content, ',').len() as int)
}

/// A text without one leading comma and the white space after it.
pub open spec fn without_leading_comma(t: Seq<char>) -> Seq<char> {
    if t.len() > 0 && t[0] == ',' {
        trim_of(t.subrange(1, t.len() as int), None)
    } else {
        t
    }
}

/// A text without one trailing comma and the white space before it.
pub open spec fn without_trailing_comma(t: Seq<char>) -> Seq<char> {
    if t.len() > 0 && t[t.len() - 1] == ',' {
        trim_of(t.subrange(0, t.len() - 1), None)
    } else {
        t
    }
}

/// The value on one line of a list that spans several lines: nothing for a
/// line that is empty or a single bracket; otherwise the value of the line
/// without the commas around it.
pub open spec fn path_from_line_of(raw: Seq<char>) -> Option<Seq<char>> {
    let t = trim_of(raw, None);
    if t.len() == 0 || t == seq![']'] || t == seq!['['] {
        None
    } else {
        string_value_of(without_trailing_comma(without_leading_comma(t)))
    }
}

/// The number of open brackets after a line with `opens` opening and
/// `closes` closing brackets; it stays within what a machine word holds and
/// does not go below zero.
pub open spec fn brackets_after(open: nat, opens: nat, closes: nat) -> nat {
    let sum = if open + opens > usize::MAX {
        usize::MAX as nat
    } else {
        open + opens
    };
    if closes >= sum {
        0
    } else {
        (sum - closes) as nat
    }
}

/// What has been read of a configuration so far.
pub struct ScanView {
    /// A list of tool paths is open.
    pub in_list: bool,
    /// The open brackets of that list.
    pub brackets: nat,
    pub paths: Seq<PathExprView>,
    pub extension: Option<Seq<char>>,
    /// A list was met that cannot be read.
    pub failed: bool,
}

/// The state before the first line.
pub open spec fn scan_start() -> ScanView {
    ScanView { in_list: false, brackets: 0, paths: seq![], extension: None, failed: false }
}

/// The state after one more line. Comments and empty lines change nothing.
/// An assignment to `tool_paths` with its list on the same line replaces the
/// paths; with an open bracket, or none, it opens a list. An assignment to
/// `extension` sets the extension where it has a value. Any other line adds
/// its value to an open list, which ends when its brackets are closed.
pub open spec fn scan_line(st: ScanView, raw: Seq<char>) -> ScanView {
    let line = trim_of(raw, None);
    if st.failed || line.len() == 0 || line[0] == '#' {
        st
    } else if has_prefix(line, "tool_paths"@) && has_char(line, '=') {
        if has_char(line, '[') && has_char(line, ']') {
            match list_content_of(line) {
                Some(c) => ScanView { in_list: false, paths: path_list_of(c), ..st },
                None => ScanView { failed: true, ..st },
            }
        } else if has_char(line, '[') {
            ScanView { in_list: true, brackets: 1, ..st }
        } else {
            ScanView { in_list: true, ..st }
        }
    } else if has_prefix(line, "extension"@) && has_char(line, '=') {
        match string_value_of(line) {
            Some(v) => ScanView { extension: Some(v), ..st },
            None => st,
        }
    } else if st.in_list {
        let b = brackets_after(st.brackets, count_of(line, '['), count_of(line, ']'));
        ScanView {
            in_list: b != 0,
            brackets: b,
            paths: match path_from_line_of(line) {
                Some(p) => st.paths.push(path_expr_of(p)),
                None => st.paths,
            },
            ..st
        }
    } else {
        st
    }
}

/// The state after the first `n` lines.
pub open spec fn scan_upto(lines: Seq<Seq<char>>, n: int) -> ScanView
    decreases n,
{
    if n <= 0 || n > lines.len() {
        scan_start()
    } else {
        scan_line(scan_upto(lines, n - 1), lines[n - 1])
    }
}

/// The state after all lines of a configuration.
pub open spec fn scan_of(content: Seq<char>) -> ScanView {
    scan_upto(split_of(content, '\n'), split_of(content, '\n').len() as int)
}

/// Extract a string value from a line (handles quotes).
pub fn extract_string_value(line: &str) -> (r: Option<String>)
    ensures
        optional_view(r) == string_value_of(line@),
{
    value_of_chars(&chars_of(line))
}

/// The value that a text gives.
pub fn value_of_chars(text: &Vec<char>) -> (r: Option<String>)
    ensures
        optional_view(r) == string_value_of(text@),
{
    let mut cur = copy_range(text, 0, text.len());
    assert(cur@ =~= text@);
    loop
        invariant
            string_value_of(cur@) == string_value_of(text@),
        decreases cur@.len(),
    {
        let line = trim(&cur);
        proof {
            lemma_trim_bounds(cur@, None);
        }
        let n = line.len();
        if n >= 2 && ((line[0] == '"' && line[n - 1] == '"') || (line[0] == '\'' && line[n - 1]
            == '\'')) {
            return Some(string_of(&copy_range(&line, 1, n - 1)));
        }
        let pos = find_char(&line, '=');
        if pos < n {
            cur = copy_range(&line, pos + 1, n);
        } else if n > 0 {
            return Some(string_of(&line));
        } else {
            return None;
        }
    }
}

/// Extract list content from a single line: what stands between the first
/// `[` and the last `]`.
pub fn extract_list_content(line: &str) -> (r: Result<String, RezToolsError>)
    ensures
        match list_content_of(line@) {
            Some(c) => r is Ok && r->Ok_0@ == c,
            None => r is Err && r->Err_0.is_config("Invalid list format in config"@),
        },
{
    let text = chars_of(line);
    match list_content_chars(&text) {
        Some(c) => Ok(string_of(&c)),
        None => Err(RezToolsError::ConfigError(String::from_str("Invalid list format in config"))),
    }
}

fn list_content_chars(text: &Vec<char>) -> (r: Option<Vec<char>>)
    ensures
        match list_content_of(text@) {
            Some(c) => r is Some && r->0@ == c,
            None => r is None,
        },
{
    let a = find_char(text, '[');
    let b = rfind_char(text, ']');
    if a < text.len() && b >= 1 && a + 1 <= b - 1 {
        Some(copy_range(text, a + 1, b - 1))
    } else {
        None
    }
}

/// The path that a written value stands for.
pub fn classify_path(path: &Vec<char>) -> (r: PathExpr)
    ensures
        r@ == path_expr_of(path@),
{
    let a = find_char(path, '"');
    let b = rfind_char(path, '"');
    if contains(path, &chars_of("expanduser")) && a < path.len() && b >= 1 && a + 1 <= b - 1 {
        let inner = copy_range(path, a + 1, b - 1);
        let home = chars_of("~/");
        if starts_with(&inner, &home) {
            PathExpr::BelowHome(string_of(&copy_range(&inner, home.len(), inner.len())))
        } else {
            PathExpr::Plain(string_of(&inner))
        }
    } else if contains(path, &chars_of("dirname(__file__)")) {
        PathExpr::Plain(String::from_str("."))
    } else {
        PathExpr::Plain(string_of(path))
    }
}

/// Parse a comma-separated list of paths.
pub fn parse_path_list(content: &str) -> (r: Vec<PathExpr>)
    ensures
        expr_views(r@) == path_list_of(content@),
{
    path_list_chars(&chars_of(content))
}

fn path_list_chars(content: &Vec<char>) -> (r: Vec<PathExpr>)
    ensures
        expr_views(r@) == path_list_of(content@),
{
    let pieces = split_char(content, ',');
    let ghost ps = split_of(content@, ',');
    let mut r: Vec<PathExpr> = Vec::new();
    let mut i: usize = 0;
    assert(expr_views(r@) =~= exprs_upto(ps, 0));
    while i < pieces.len()
        invariant
            i <= pieces@.len(),
            ps == views_of(pieces@),
            expr_views(r@) == exprs_upto(ps, i as int),
        decreases pieces@.len() - i,
    {
        assert(ps[i as int] == pieces@[i as int]@);
        match value_of_chars(&pieces[i]) {
            Some(v) => {
                let e = classify_path(&chars_of(v.as_str()));
                proof {
                    assert(expr_views(r@.push(e)) =~= expr_views(r@).push(e@));
                }
                r.push(e);
            },
            None => {},
        }
        i += 1;
    }
    r
}

/// Extract path from a line in a multi-line list.
pub fn extract_path_from_line(line: &str) -> (r: Option<String>)
    ensures
        optional_view(r) == path_from_line_of(line@),
{
    path_from_line_chars(&chars_of(line))
}

fn path_from_line_chars(raw: &Vec<char>) -> (r: Option<String>)
    ensures
        optional_view(r) == path_from_line_of(raw@),
{
    let t = trim(raw);
    let n = t.len();
    if n == 0 {
        return None;
    }
    if n == 1 && (t[0] == ']' || t[0] == '[') {
        assert(t@ =~= seq![t@[0]]);
        return None;
    }
    assert(t@ != seq![']'] && t@ != seq!['[']) by {
        if t@.len() == 1 {
            assert(seq![']'][0] == ']');
            assert(seq!['['][0] == '[');
        } else {
            assert(seq![']'].len() == 1);
            assert(seq!['['].len() == 1);
        }
    }
    let t1 = if t[0] == ',' {
        trim(&copy_range(&t, 1, n))
    } else {
        t
    };
    let m = t1.len();
    let t2 = if m > 0 && t1[m - 1] == ',' {
        trim(&copy_range(&t1, 0, m - 1))
    } else {
        t1
    };
    value_of_chars(&t2)
}

/// The state of reading a configuration.
struct Scan {
    in_list: bool,
    brackets: usize,
    paths: Vec<PathExpr>,
    extension: Option<String>,
    failed: bool,
}

impl View for Scan {
    type V = ScanView;

    closed spec fn view(&self) -> ScanView {
        ScanView {
            in_list: self.in_list,
            brackets: self.brackets as nat,
            paths: expr_views(self.paths@),
            extension: optional_view(self.extension),
            failed: self.failed,
        }
    }
}

fn has(line: &Vec<char>, c: char) -> (b: bool)
    ensures
        b == has_char(line@, c),
{
    find_char(line, c) < line.len()
}

fn scan_step(st: &mut Scan, raw: &Vec<char>)
    ensures
        final(st)@ == scan_line(old(st)@, raw@),
{
    let line = trim(raw);
    if st.failed || line.len() == 0 || line[0] == '#' {
        return ;
    }
    if starts_with(&line, &chars_of("tool_paths")) && has(&line, '=') {
        if has(&line, '[') && has(&line, ']') {
            match list_content_chars(&line) {
                Some(c) => {
                    st.paths = path_list_chars(&c);
                    st.in_list = false;
                },
                None => {
                    st.failed = true;
                },
            }
        } else if has(&line, '[') {
            st.in_list = true;
            st.brackets = 1;
        } else {
            st.in_list = true;
        }
        return ;
    }
    if starts_with(&line, &chars_of("extension")) && has(&line, '=') {
        match value_of_chars(&line) {
            Some(v) => {
                st.extension = Some(v);
            },
            None => {},
        }
        return ;
    }
    if st.in_list {
        let opens = count_char(&line, '[');
        let closes = count_char(&line, ']');
        let sum = if opens > usize::MAX - st.brackets {
            usize::MAX
        } else {
            st.brackets + opens
        };
        let b = if closes >= sum {
            0
        } else {
            sum - closes
        };
        st.brackets = b;
        st.in_list = b != 0;
        match path_from_line_chars(&line) {
            Some(p) => {
                let e = classify_path(&chars_of(p.as_str()));
                proof {
                    assert(expr_views(st.paths@.push(e)) =~= expr_views(st.paths@).push(e@));
                }
                st.paths.push(e);
            },
            None => {},
        }
    }
}

/// Reads what the lines of a configuration assign. Reading fails only on a
/// `tool_paths` line whose brackets are in the wrong order.
pub fn parse_python_config_entries(content: &str) -> (r: Result<ParsedConfig, RezToolsError>)
    ensures
        match r {
            Ok(p) => !scan_of(content@).failed && expr_views(p.tool_paths@) == scan_of(
                content@,
            ).paths && optional_view(p.extension) == scan_of(content@).extension,
            Err(e) => scan_of(content@).failed && e.is_config("Invalid list format in config"@),
        },
{
    let text = chars_of(content);
    let lines = split_char(&text, '\n');
    let ghost ls = split_of(text@, '\n');
    let mut st = Scan {
        in_list: false,
        brackets: 0,
        paths: Vec::new(),
        extension: None,
        failed: false,
    };
    assert(st@ =~= scan_start()) by {
        assert(expr_views(st.paths@) =~= seq![]);
    }
    let mut i: usize = 0;
    while i < lines.len()
        invariant
            i <= lines@.len(),
            ls == views_of(lines@),
            st@ == scan_upto(ls, i as int),
        decreases lines@.len() - i,
    {
        assert(ls[i as int] == lines@[i as int]@);
        scan_step(&mut st, &lines[i]);
        i += 1;
    }
    if st.failed {
        Err(RezToolsError::ConfigError(String::from_str("Invalid list format in config")))
    } else {
        Ok(ParsedConfig { tool_paths: st.paths, extension: st.extension })
    }
}

/// The path that a written path stands for on this host, given the user's
/// home directory where the host knows one. A path below the home directory
/// is left as it is written, with its `~/`, where no home is known.
pub fn expand_path(expr: &PathExpr, home: Option<&str>) -> (r: String)
    ensures
        match expr@ {
            PathExprView::Plain(p) => r@ == p,
            PathExprView::BelowHome(rest) => home is None ==> r@ == "~/"@ + rest,
        },
{
    match expr {
        PathExpr::Plain(p) => p.clone(),
        PathExpr::BelowHome(rest) => match home {
            Some(h) => join_path(h, rest.as_str()),
            None => String::from_str("~/").concat(rest.as_str()),
        },
    }
}

/// The configuration that parsed entries amount to, given the home
/// directory and the default configuration: without tool paths the default
/// stands, extension included; otherwise the paths are expanded and the
/// extension is the one that was assigned, or `.rt`.
pub fn config_from_entries(parsed: &ParsedConfig, home: Option<&str>, default: Config) -> (c:
    Config)
    ensures
        parsed.tool_paths@.len() == 0 ==> c == default,
        parsed.tool_paths@.len() > 0 ==> {
            &&& c.tool_paths@.len() == parsed.tool_paths@.len()
            &&& c.extension@ == match parsed.extension {
                Some(e) => e@,
                None => ".rt"@,
            }
            &&& forall|i: int|
                0 <= i < parsed.tool_paths@.len() ==> match (#[trigger] parsed.tool_paths@[i])@ {
                    PathExprView::Plain(p) => c.tool_paths@[i]@ == p,
                    PathExprView::BelowHome(rest) => home is None ==> c.tool_paths@[i]@ == "~/"@
                        + rest,
                }
        },
{
    if parsed.tool_paths.len() == 0 {
        return default;
    }
    let mut paths: Vec<String> = Vec::new();
    let mut i: usize = 0;
    while i < parsed.tool_paths.len()
        invariant
            i <= parsed.tool_paths@.len(),
            paths@.len() == i,
            forall|k: int|
                0 <= k < i ==> match (#[trigger] parsed.tool_paths@[k])@ {
                    PathExprView::Plain(p) => paths@[k]@ == p,
                    PathExprView::BelowHome(rest) => home is None ==> paths@[k]@ == "~/"@ + rest,
                },
        decreases parsed.tool_paths@.len() - i,
    {
        paths.push(expand_path(&parsed.tool_paths[i], home));
        i += 1;
    }
    let extension = match &parsed.extension {
        Some(e) => e.clone(),
        None => String::from_str(".rt"),
    };
    Config { tool_paths: paths, extension }
}

/// The configuration that values read from elsewhere amount to: without
/// tool paths the default stands, extension included; otherwise the paths are
/// taken as they are, with the extension that was given, or `.rt`.
pub fn config_from_values(tool_paths: Vec<String>, extension: Option<String>, default: Config) -> (c:
    Config)
    ensures
        tool_paths@.len() == 0 ==> c == default,
        tool_paths@.len() > 0 ==> c.tool_paths == tool_paths && c.extension@ == match extension {
            Some(e) => e@,
            None => ".rt"@,
        },
{
    if tool_paths.len() == 0 {
        return default;
    }
    let extension = match extension {
        Some(e) => e,
        None => String::from_str(".rt"),
    };
    Config { tool_paths, extension }
}

/// Where the configuration is read from.
#[derive(Debug, Clone)]
pub enum ConfigSource {
    /// The file at this path.
    File(String),
    /// No file: the default configuration.
    Defaults,
}

/// Where the configuration is read from: the file that the environment
/// names, whether it exists or not; without one, the default file in the
/// home directory where it exists; otherwise no file.
pub fn config_source(named: Option<&str>, default_file: Option<&str>, default_file_exists: bool) -> (r:
    ConfigSource)
    ensures
        match named {
            Some(n) => r is File && r->File_0@ == n@,
            None => if default_file is Some && default_file_exists {
                r is File && r->File_0@ == default_file->0@
            } else {
                r is Defaults
            },
        },
{
    match named {
        Some(n) => ConfigSource::File(String::from_str(n)),
        None => match default_file {
            Some(d) => if default_file_exists {
                ConfigSource::File(String::from_str(d))
            } else {
                ConfigSource::Defaults
            },
            None => ConfigSource::Defaults,
        },
    }
}

/// Whether a configuration file with the given extension, in lower case, is
/// read as TOML; every other file is read as Python.
pub fn is_toml_extension(lowered_extension: Option<&str>) -> (b: bool)
    ensures
        b == (lowered_extension is Some && lowered_extension->0@ == "toml"@),
{
    match lowered_extension {
        Some(e) => crate::text::str_eq(e, "toml"),
        None => false,
    }
}

/// `r` is what reading a configuration gives when its lines were scanned to
/// `scan`: an error where a list could not be read; the default, with one
/// tool path and the extension `.rt`, where no tool path was assigned;
/// otherwise as many tool paths as were assigned, each plain path as it was
/// written, with the extension that was assigned, or `.rt`.
pub open spec fn reads_as(r: Result<Config, RezToolsError>, scan: ScanView) -> bool {
    if scan.failed {
        r is Err && r->Err_0.is_config("Invalid list format in config"@)
    } else if scan.paths.len() == 0 {
        r is Ok && r->Ok_0.tool_paths@.len() == 1 && r->Ok_0.extension@ == ".rt"@
    } else {
        &&& r is Ok
        &&& r->Ok_0.tool_paths@.len() == scan.paths.len()
        &&& r->Ok_0.extension@ == match scan.extension {
            Some(e) => e,
            None => ".rt"@,
        }
        &&& forall|i: int|
            0 <= i < scan.paths.len() ==> (#[trigger] scan.paths[i] matches PathExprView::Plain(p)
                ==> r->Ok_0.tool_paths@[i]@ == p)
    }
}

/// Simple parser for basic Python config syntax. Succeeds unless a
/// `tool_paths` line has its brackets in the wrong order. A configuration
/// without tool paths gives the default configuration.
pub fn parse_python_config_simple(content: &str) -> (r: Result<Config, RezToolsError>)
    ensures
        reads_as(r, scan_of(content@)),
{
    match parse_python_config_entries(content) {
        Err(e) => Err(e),
        Ok(parsed) => {
            let home = home_dir();
            let default = Config::new();
            let c = match &home {
                Some(h) => config_from_entries(&parsed, Some(h.as_str()), default),
                None => config_from_entries(&parsed, None, default),
            };
            proof {
                let scan = scan_of(content@);
                assert(expr_views(parsed.tool_paths@).len() == parsed.tool_paths@.len());
                if scan.paths.len() > 0 {
                    assert forall|i: int| 0 <= i < scan.paths.len() implies (
                    #[trigger] scan.paths[i] matches PathExprView::Plain(p)
                        ==> c.tool_paths@[i]@ == p) by {
                        assert(scan.paths[i] == parsed.tool_paths@[i]@);
                    }
                }
            }
            Ok(c)
        },
    }
}

/// Parse a Python config file: the configuration that running the file
/// gave, where it could be run; otherwise what the simple parser reads from
/// its text.
pub fn parse_python_config(content: &str, executed: Option<Config>) -> (r: Result<
    Config,
    RezToolsError,
>)
    ensures
        executed is Some ==> r is Ok && r->Ok_0 == executed->0,
        executed is None ==> reads_as(r, scan_of(content@)),
{
    match executed {
        Some(c) => Ok(c),
        None => parse_python_config_simple(content),
    }
}

} // verus!
