use rez_tools::config::Config;
use rez_tools::loader::{
    config_from_entries, config_from_values, config_source, is_toml_extension, ConfigSource, expand_path, extract_list_content, extract_path_from_line,
    extract_string_value, parse_path_list, parse_python_config, parse_python_config_entries,
    parse_python_config_simple, ParsedConfig, PathExpr,
};

fn plain(e: &PathExpr) -> &str {
    match e {
        PathExpr::Plain(p) => p.as_str(),
        PathExpr::BelowHome(_) => panic!("a path below the home directory"),
    }
}

#[test]
fn test_parse_simple_config() {
    let config_content = r#"
# Tool paths configuration
tool_paths = [
    "/path/to/tools",
    "~/packages",
    "/another/path"
]

extension = ".rt"
"#;

    let config = parse_python_config(config_content, None).unwrap();
    assert_eq!(config.tool_paths.len(), 3);
    assert_eq!(config.extension, ".rt");
    assert_eq!(config.tool_paths, vec!["/path/to/tools", "~/packages", "/another/path"]);
}

#[test]
fn test_extract_string_value() {
    assert_eq!(extract_string_value("\"hello\""), Some("hello".to_string()));
    assert_eq!(extract_string_value("'world'"), Some("world".to_string()));
    assert_eq!(extract_string_value("extension = \".rt\""), Some(".rt".to_string()));
}

#[test]
fn string_values_at_the_edges() {
    assert_eq!(extract_string_value(""), None);
    assert_eq!(extract_string_value("   "), None);
    assert_eq!(extract_string_value("x ="), None);
    assert_eq!(extract_string_value("bare"), Some("bare".to_string()));
    assert_eq!(extract_string_value("  a = b = 'c'  "), Some("c".to_string()));
    assert_eq!(extract_string_value("\"\""), Some("".to_string()));
    assert_eq!(extract_string_value("\"a=b\""), Some("a=b".to_string()));
    assert_eq!(extract_string_value("\"mixed'"), Some("\"mixed'".to_string()));
    assert_eq!(extract_string_value("\""), Some("\"".to_string()));
}

#[test]
fn list_content_is_between_the_outer_brackets() {
    assert_eq!(extract_list_content("x = [a, [b], c]").unwrap(), "a, [b], c");
    assert_eq!(extract_list_content("[]").unwrap(), "");
    assert_eq!(
        extract_list_content("no list").unwrap_err().to_string(),
        "Configuration error: Invalid list format in config"
    );
    assert!(extract_list_content("] [").is_err());
    assert!(extract_list_content("[").is_err());
}

#[test]
fn path_list_reads_each_piece() {
    let list = parse_path_list(" \"/a\", '/b' , /c ,, os.path.expanduser(\"~/tools\"), os.path.expanduser(\"/abs\"), os.path.dirname(__file__)");
    assert_eq!(list.len(), 6);
    assert_eq!(plain(&list[0]), "/a");
    assert_eq!(plain(&list[1]), "/b");
    assert_eq!(plain(&list[2]), "/c");
    assert!(matches!(&list[3], PathExpr::BelowHome(rest) if rest == "tools"));
    assert_eq!(plain(&list[4]), "/abs");
    assert_eq!(plain(&list[5]), ".");
}

#[test]
fn path_from_line_drops_commas_and_brackets() {
    assert_eq!(extract_path_from_line("  \"/a\",  "), Some("/a".to_string()));
    assert_eq!(extract_path_from_line(", '/b'"), Some("/b".to_string()));
    assert_eq!(extract_path_from_line("]"), None);
    assert_eq!(extract_path_from_line(" [ "), None);
    assert_eq!(extract_path_from_line(""), None);
    assert_eq!(extract_path_from_line(","), None);
    assert_eq!(extract_path_from_line("/c"), Some("/c".to_string()));
}

#[test]
fn single_line_list_replaces_and_extension_is_kept() {
    let parsed = parse_python_config_entries(
        "extension = '.tool'\ntool_paths = ['/a', '/b']\n# tool_paths = ['/z']\n",
    )
    .unwrap();
    assert_eq!(parsed.tool_paths.len(), 2);
    assert_eq!(plain(&parsed.tool_paths[0]), "/a");
    assert_eq!(plain(&parsed.tool_paths[1]), "/b");
    assert_eq!(parsed.extension.as_deref(), Some(".tool"));
    let config = parse_python_config_simple("extension = '.tool'\ntool_paths = ['/a', '/b']\n").unwrap();
    assert_eq!(config.tool_paths, vec!["/a", "/b"]);
    assert_eq!(config.extension, ".tool");
}

#[test]
fn list_over_several_lines_ends_with_its_bracket() {
    let parsed = parse_python_config_entries(
        "tool_paths = [\n  '/a',\n  '/b'\n]\n'/not/in/list'\nextension = .x\n",
    )
    .unwrap();
    assert_eq!(parsed.tool_paths.len(), 2);
    assert_eq!(parsed.extension.as_deref(), Some(".x"));
}

#[test]
fn config_without_paths_is_the_default() {
    let config = parse_python_config_simple("extension = '.tool'\n").unwrap();
    assert_eq!(config.tool_paths.len(), 1);
    assert_eq!(config.extension, ".rt");
    assert!(config.tool_paths[0].ends_with("packages"));
    let empty = parse_python_config_simple("").unwrap();
    assert_eq!(empty.extension, ".rt");
}

#[test]
fn brackets_in_the_wrong_order_are_an_error() {
    let r = parse_python_config_simple("tool_paths = ] [\n");
    assert_eq!(r.unwrap_err().to_string(), "Configuration error: Invalid list format in config");
}

#[test]
fn executed_configuration_is_taken_as_it_is() {
    let executed = Config { tool_paths: vec!["/e".to_string()], extension: ".e".to_string() };
    let config = parse_python_config("tool_paths = ['/a']", Some(executed)).unwrap();
    assert_eq!(config.tool_paths, vec!["/e"]);
    assert_eq!(config.extension, ".e");
}

#[test]
fn paths_below_home_without_a_home_stay_as_written() {
    let expr = PathExpr::BelowHome("tools".to_string());
    assert_eq!(expand_path(&expr, None), "~/tools");
    assert_eq!(expand_path(&PathExpr::Plain("/p".to_string()), Some("/home/u")), "/p");
    let joined = expand_path(&expr, Some("/home/u"));
    assert!(joined.starts_with("/home/u"));
    assert!(joined.ends_with("tools"));
    let parsed = ParsedConfig {
        tool_paths: vec![PathExpr::Plain("/a".to_string()), PathExpr::BelowHome("b".to_string())],
        extension: None,
    };
    let default = Config::with_default_path("/d".to_string());
    let config = config_from_entries(&parsed, None, default);
    assert_eq!(config.tool_paths, vec!["/a", "~/b"]);
    assert_eq!(config.extension, ".rt");
    let none = ParsedConfig { tool_paths: Vec::new(), extension: Some(".x".to_string()) };
    let kept = config_from_entries(&none, None, Config::with_default_path("/d".to_string()));
    assert_eq!(kept.tool_paths, vec!["/d"]);
    assert_eq!(kept.extension, ".rt");
}

#[test]
fn config_builders() {
    let mut config = Config::new();
    assert_eq!(config.tool_paths.len(), 1);
    assert_eq!(config.extension, ".rt");
    config.add_tool_path("/more");
    assert_eq!(config.tool_paths.len(), 2);
    assert_eq!(config.tool_paths[1], "/more");
    config.set_extension(".tool");
    assert_eq!(config.extension, ".tool");
}

#[test]
fn default_configuration() {
    let config = Config::default();
    assert_eq!(config.tool_paths.len(), 1);
    assert!(config.tool_paths[0].ends_with("packages"));
    assert_eq!(config.extension, ".rt");
    let given = Config::with_default_path("/home/u/packages".to_string());
    assert_eq!(given.tool_paths, vec!["/home/u/packages"]);
    assert_eq!(given.extension, ".rt");
}

#[test]
fn values_from_elsewhere() {
    let default = || Config::with_default_path("/d".to_string());
    let c = config_from_values(vec!["/a".to_string()], Some(".x".to_string()), default());
    assert_eq!(c.tool_paths, vec!["/a"]);
    assert_eq!(c.extension, ".x");
    let c = config_from_values(vec!["/a".to_string()], None, default());
    assert_eq!(c.extension, ".rt");
    let c = config_from_values(Vec::new(), Some(".x".to_string()), default());
    assert_eq!(c.tool_paths, vec!["/d"]);
    assert_eq!(c.extension, ".rt");
}

#[test]
fn configuration_source() {
    assert!(matches!(
        config_source(Some("/named.py"), Some("/home/u/reztoolsconfig.py"), true),
        ConfigSource::File(p) if p == "/named.py"
    ));
    assert!(matches!(
        config_source(None, Some("/home/u/reztoolsconfig.py"), true),
        ConfigSource::File(p) if p == "/home/u/reztoolsconfig.py"
    ));
    assert!(matches!(
        config_source(None, Some("/home/u/reztoolsconfig.py"), false),
        ConfigSource::Defaults
    ));
    assert!(matches!(config_source(None, None, true), ConfigSource::Defaults));
    assert!(is_toml_extension(Some("toml")));
    assert!(!is_toml_extension(Some("py")));
    assert!(!is_toml_extension(Some("TOML")));
    assert!(!is_toml_extension(None));
}

#[test]
fn configuration_as_toml() {
    let config = Config {
        tool_paths: vec!["/a/tools".to_string(), "C:\\tools\\rt".to_string()],
        extension: ".rt".to_string(),
    };
    assert_eq!(
        config.to_toml("in.py"),
        "# rez-tools configuration file (TOML format)\n# Converted from: in.py\n\n\
         # File extension for tool files\nextension = \".rt\"\n\n\
         # Paths to search for .rt files\ntool_paths = [\n    \"/a/tools\",\n    \"C:\\\\tools\\\\rt\"\n]\n"
    );
    let empty = Config { tool_paths: Vec::new(), extension: "x".to_string() };
    assert!(empty.to_toml("s").ends_with("tool_paths = [\n\n]\n"));
}
