//! A rez tool plugin as it was loaded from a tool file, and the rules that
//! such a plugin has to meet.

use crate::error::RezToolsError;
use crate::paths::file_stem_of;
use crate::text::{chars_of, trim, trim_of};
use vstd::prelude::*;
use vstd::string::*;

verus! {

/// Represents a rez tool plugin loaded from a .rt file.
#[derive(Debug, Clone)]
pub struct Plugin {
    /// The command to execute.
    pub command: String,
    /// Optional name override (defaults to filename without extension).
    pub name: Option<String>,
    /// Short help description.
    pub short_help: Option<String>,
    /// List of rez packages required.
    pub requires: Vec<String>,
    /// Whether to run the command detached.
    pub run_detached: bool,
    /// Tools this plugin inherits from.
    pub inherits_from: Option<String>,
    /// File path where this plugin was loaded from.
    pub file_path: String,
}

/// The pattern that the name of a plugin has to match.
pub open spec fn name_pattern() -> Seq<char> {
    "^[a-zA-Z][a-zA-Z0-9_]+$"@
}

/// Whether a text matches a regular expression, as the `regex` crate
/// decides it; `None` where the pattern is no regular expression.
pub uninterp spec fn pattern_match_of(pattern: Seq<char>, text: Seq<char>) -> Option<bool>;

/// Compiles `pattern` with `Regex::new` and asks `Regex::is_match` whether
/// it matches somewhere in `text`. A pattern that does not compile gives the
/// text of the error. The answer is a function of pattern and text alone.
#[verifier::external_body]
pub(crate) fn pattern_match(pattern: &str, text: &str) -> (r: Result<bool, String>)
    ensures
        match r {
            Ok(b) => pattern_match_of(pattern@, text@) == Some(b),
            Err(_) => pattern_match_of(pattern@, text@) is None,
        },
{
    match regex::Regex::new(pattern) {
        Ok(re) => Ok(re.is_match(text)),
        Err(e) => Err(e.to_string()),
    }
}

/// The effective name of a plugin: its own name where it has one, else the
/// stem of its file's name, else `unknown`.
pub open spec fn effective_name(name: Option<String>, stem: Option<String>) -> Seq<char> {
    match name {
        Some(n) => n@,
        None => match stem {
            Some(s) => s@,
            None => "unknown"@,
        },
    }
}

/// The message of the error for a name that does not match the pattern.
pub open spec fn bad_name_message(name: Seq<char>) -> Seq<char> {
    "Plugin name '"@ + name + "' does not match required pattern '^[a-zA-Z][a-zA-Z0-9_]+$'"@
}

impl Plugin {
    /// The effective name for a plugin whose file has the given stem.
    pub fn name_with_stem(&self, stem: Option<String>) -> (r: String)
        ensures
            r@ == effective_name(self.name, stem),
    {
        match &self.name {
            Some(n) => n.clone(),
            None => match stem {
                Some(s) => s,
                None => String::from_str("unknown"),
            },
        }
    }

    /// Get the effective name of the plugin: its own name where it has
    /// one; otherwise it is taken from the name of its file.
    pub fn get_name(&self) -> (r: String)
        ensures
            self.name is Some ==> r@ == self.name->0@,
    {
        let stem = file_stem_of(self.file_path.as_str());
        self.name_with_stem(stem)
    }

    /// The short help text of a plugin with the given effective name: its
    /// own where it has one, else a sentence that names the plugin.
    pub fn short_help_for(&self, name: &str) -> (r: String)
        ensures
            r@ == match self.short_help {
                Some(h) => h@,
                None => "A rez plugin - "@ + name@ + "."@,
            },
    {
        match &self.short_help {
            Some(h) => h.clone(),
            None => String::from_str("A rez plugin - ").concat(name).concat("."),
        }
    }

    /// Get the short help text.
    pub fn get_short_help(&self) -> (r: String)
        ensures
            self.short_help is Some ==> r@ == self.short_help->0@,
            self.short_help is None && self.name is Some ==> r@ == "A rez plugin - "@
                + self.name->0@ + "."@,
    {
        let name = self.get_name();
        self.short_help_for(name.as_str())
    }

    /// Validate the plugin under the effective name `name`, given what
    /// matching the name against the pattern gave. In this order: a pattern
    /// that did not compile, a name that does not match, a command that is
    /// empty but for white space, and a plugin without required packages
    /// are errors.
    pub fn validate_as(&self, name: &str, matched: Result<bool, String>) -> (r: Result<
        (),
        RezToolsError,
    >)
        ensures
            match matched {
                Err(e) => r is Err && r->Err_0 == RezToolsError::RegexError(e),
                Ok(m) => if !m {
                    r is Err && r->Err_0 is PluginValidationError && r->Err_0.detail()
                        == bad_name_message(name@)
                } else if trim_of(self.command@, None).len() == 0 {
                    r is Err && r->Err_0 is PluginValidationError && r->Err_0.detail()
                        == "Plugin command cannot be empty"@
                } else if self.requires@.len() == 0 {
                    r is Err && r->Err_0 is PluginValidationError && r->Err_0.detail()
                        == "Plugin must specify at least one required package"@
                } else {
                    r is Ok
                },
            },
    {
        match matched {
            Err(e) => Err(RezToolsError::RegexError(e)),
            Ok(m) => {
                if !m {
                    return Err(
                        RezToolsError::PluginValidationError(
                            String::from_str("Plugin name '").concat(name).concat(
                                "' does not match required pattern '^[a-zA-Z][a-zA-Z0-9_]+$'",
                            ),
                        ),
                    );
                }
                let command = trim(&chars_of(self.command.as_str()));
                if command.len() == 0 {
                    return Err(
                        RezToolsError::PluginValidationError(
                            String::from_str("Plugin command cannot be empty"),
                        ),
                    );
                }
                if self.requires.len() == 0 {
                    return Err(
                        RezToolsError::PluginValidationError(
                            String::from_str("Plugin must specify at least one required package"),
                        ),
                    );
                }
                Ok(())
            },
        }
    }

    /// Validate the plugin configuration: its effective name has to match
    /// the name pattern, its command must not be empty, and it has to require
    /// at least one package.
    pub fn validate(&self) -> (r: Result<(), RezToolsError>)
        ensures
            self.name is Some ==> match pattern_match_of(name_pattern(), self.name->0@) {
                None => r is Err && r->Err_0 is RegexError,
                Some(m) => if !m {
                    r is Err && r->Err_0 is PluginValidationError && r->Err_0.detail()
                        == bad_name_message(self.name->0@)
                } else if trim_of(self.command@, None).len() == 0 {
                    r is Err && r->Err_0 is PluginValidationError && r->Err_0.detail()
                        == "Plugin command cannot be empty"@
                } else if self.requires@.len() == 0 {
                    r is Err && r->Err_0 is PluginValidationError && r->Err_0.detail()
                        == "Plugin must specify at least one required package"@
                } else {
                    r is Ok
                },
            },
            r is Ok ==> trim_of(self.command@, None).len() > 0 && self.requires@.len() > 0,
    {
        let name = self.get_name();
        let matched = pattern_match("^[a-zA-Z][a-zA-Z0-9_]+$", name.as_str());
        self.validate_as(name.as_str(), matched)
    }
}

} // verus!
