use rez_tools::error::RezToolsError;
use rez_tools::plugin::Plugin;

fn plugin(name: Option<&str>, file_path: &str) -> Plugin {
    Plugin {
        command: "python".to_string(),
        name: name.map(|n| n.to_string()),
        short_help: None,
        requires: vec!["python-3".to_string(), "cmake".to_string()],
        run_detached: false,
        inherits_from: None,
        file_path: file_path.to_string(),
    }
}

#[test]
fn test_parse_valid_plugin() {
    let mut plugin = plugin(None, "/tools/python_tool.rt");
    plugin.short_help = Some("Python3.".to_string());
    assert_eq!(plugin.command, "python");
    assert_eq!(plugin.short_help, Some("Python3.".to_string()));
    assert_eq!(plugin.requires, vec!["python-3", "cmake"]);
    assert!(!plugin.run_detached);
    assert_eq!(plugin.get_name(), "python_tool");
    assert_eq!(plugin.get_short_help(), "Python3.");
    assert!(plugin.validate().is_ok());
}

#[test]
fn test_parse_plugin_with_name() {
    let plugin = plugin(Some("custom_python"), "/tools/any_name.rt");
    assert_eq!(plugin.get_name(), "custom_python");
    assert_eq!(plugin.get_short_help(), "A rez plugin - custom_python.");
}

#[test]
fn name_falls_back_to_unknown() {
    let p = plugin(None, "");
    assert_eq!(p.get_name(), "unknown");
    assert_eq!(p.name_with_stem(Some("stem".to_string())), "stem");
    assert_eq!(p.name_with_stem(None), "unknown");
    assert_eq!(p.short_help_for("n"), "A rez plugin - n.");
}

#[test]
fn test_invalid_plugin_name() {
    let p = plugin(None, "/tools/123invalid.rt");
    match p.validate() {
        Err(RezToolsError::PluginValidationError(m)) => assert_eq!(
            m,
            "Plugin name '123invalid' does not match required pattern '^[a-zA-Z][a-zA-Z0-9_]+$'"
        ),
        other => panic!("unexpected result {:?}", other),
    }
    assert!(plugin(Some("a"), "x.rt").validate().is_err());
    assert!(plugin(Some("ab"), "x.rt").validate().is_ok());
    assert!(plugin(Some("a-b"), "x.rt").validate().is_err());
    assert!(plugin(Some("a_1"), "x.rt").validate().is_ok());
}

#[test]
fn validation_checks_command_and_requirements() {
    let mut p = plugin(Some("tool"), "x.rt");
    p.command = "  \t ".to_string();
    match p.validate() {
        Err(RezToolsError::PluginValidationError(m)) => {
            assert_eq!(m, "Plugin command cannot be empty")
        }
        other => panic!("unexpected result {:?}", other),
    }
    let mut q = plugin(Some("tool"), "x.rt");
    q.requires.clear();
    match q.validate() {
        Err(RezToolsError::PluginValidationError(m)) => {
            assert_eq!(m, "Plugin must specify at least one required package")
        }
        other => panic!("unexpected result {:?}", other),
    }
    let r = plugin(Some("tool"), "x.rt");
    match r.validate_as("tool", Err("bad pattern".to_string())) {
        Err(RezToolsError::RegexError(m)) => assert_eq!(m, "bad pattern"),
        other => panic!("unexpected result {:?}", other),
    }
    assert!(r.validate_as("tool", Ok(true)).is_ok());
    assert!(r.validate_as("tool", Ok(false)).is_err());
}
