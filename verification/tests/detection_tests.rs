use rez_tools::detection::{
    detect_python_build_standalone, standalone_roots, RootProbe, detect_rez_environment, find_python_executable_in_dir, list_items, missing_environment,
    parse_rez_config, rez_version_text, standalone_environment, EnvironmentProbe, RezConfig,
};
use rez_tools::locator::ProbedPath;
use rez_tools::platform::RezEnvironment;

#[test]
fn test_parse_rez_config() {
    let config_str = r#"
packages_path: ["/path/to/packages", "/another/path"]
python_executable: "/usr/bin/python3"
"#;
    let config = parse_rez_config(config_str).unwrap();
    assert_eq!(config.packages_path.len(), 2);
    assert!(config.python_path.is_some());
    assert_eq!(config.packages_path[0], "/path/to/packages");
    assert_eq!(config.packages_path[1], "/another/path");
    assert_eq!(config.python_path.unwrap(), "/usr/bin/python3");
}

#[test]
fn test_parse_rez_config_empty() {
    let config_str = "";
    let config = parse_rez_config(config_str).unwrap();
    assert_eq!(config.packages_path.len(), 0);
    assert!(config.python_path.is_none());
}

#[test]
fn test_parse_rez_config_malformed() {
    let config_str = r#"
packages_path: ["/path/to/packages"
python_executable:
"#;
    let config = parse_rez_config(config_str).unwrap();
    // Should handle malformed config gracefully
    assert_eq!(config.packages_path.len(), 0);
    assert!(config.python_path.is_none());
}

#[test]
fn rez_config_lines_add_up() {
    let text = "  packages_path: ['/a' , \"/b\",, '' ]  \r\nother: 1\npackages_path: [/c]\n\
                python_executable: /first\npython_executable: '/second'\npython_executable: \"\"\n\
                packages_path: []\npackages_path: /not/a/list\n";
    let config = parse_rez_config(text).unwrap();
    assert_eq!(config.packages_path, vec!["/a", "/b", "/c"]);
    assert_eq!(config.python_path.as_deref(), Some("/second"));
}

#[test]
fn list_items_are_unquoted_and_not_empty() {
    let chars: Vec<char> = " \"a b\" ,'c', d ,\"\", ,".chars().collect();
    assert_eq!(list_items(&chars), vec!["a b", "c", "d"]);
    assert!(list_items(&Vec::new()).is_empty());
}

#[test]
fn test_find_python_executable_in_dir_not_found() {
    let places = vec![
        ProbedPath { path: "/d/python/bin/python3".to_string(), exists: false },
        ProbedPath { path: "/d/bin/python3".to_string(), exists: false },
    ];
    let result = find_python_executable_in_dir(&places);
    assert!(result.is_err());
    assert!(result.unwrap_err().to_string().contains("Python executable not found"));
}

#[test]
fn test_find_python_executable_in_dir_nested() {
    let places = vec![
        ProbedPath { path: "/d/python/bin/python3".to_string(), exists: false },
        ProbedPath { path: "/d/python/python3".to_string(), exists: true },
        ProbedPath { path: "/d/python3".to_string(), exists: true },
    ];
    let result = find_python_executable_in_dir(&places);
    assert!(result.is_ok());
    assert_eq!(result.unwrap(), "/d/python/python3");
}

fn probe() -> EnvironmentProbe {
    EnvironmentProbe {
        rez_path_env: None,
        rez_version: None,
        rez_config: None,
        standalone: None,
        standalone_python: None,
    }
}

#[test]
fn test_detect_rez_environment() {
    let env = detect_rez_environment(probe());
    assert!(env.is_ok());
    let env = env.unwrap();
    assert!(!env.is_installed);
    assert!(env.version.is_none());
    assert!(env.rez_path.is_none());
    assert!(env.python_path.is_none());
    assert!(env.packages_path.is_empty());
}

#[test]
fn running_rez_comes_first() {
    let mut p = probe();
    p.rez_path_env = Some("/opt/rez".to_string());
    p.rez_version = Some("2.112.0".to_string());
    p.rez_config = Some(RezConfig {
        packages_path: vec!["/pk".to_string()],
        python_path: Some("/usr/bin/python3".to_string()),
    });
    p.standalone = Some(standalone_environment("/s/python".to_string(), Some("3.0\n")));
    p.standalone_python = Some("/opt/pbs/bin/python3".to_string());
    let env = RezEnvironment::detect(p).unwrap();
    assert!(env.is_installed);
    assert_eq!(env.version.as_deref(), Some("2.112.0"));
    assert_eq!(env.rez_path.as_deref(), Some("/opt/rez"));
    assert_eq!(env.packages_path, vec!["/pk"]);
    assert_eq!(env.python_path.as_deref(), Some("/usr/bin/python3"));
}

#[test]
fn standalone_installation_is_the_fallback() {
    let mut p = probe();
    p.standalone = Some(standalone_environment("/s/python".to_string(), Some(" 3.0.0\n")));
    p.standalone_python = Some("/opt/pbs/bin/python3".to_string());
    let env = detect_rez_environment(p).unwrap();
    assert!(env.is_installed);
    assert_eq!(env.version.as_deref(), Some("Rez 3.0.0"));
    assert_eq!(env.python_path.as_deref(), Some("/s/python"));

    let mut q = probe();
    q.standalone = Some(standalone_environment("/s/python".to_string(), None));
    q.standalone_python = Some("/opt/pbs/bin/python3".to_string());
    let env = detect_rez_environment(q).unwrap();
    assert!(!env.is_installed);
    assert!(env.version.is_none());
    assert_eq!(env.python_path.as_deref(), Some("/opt/pbs/bin/python3"));

    let mut r = probe();
    r.rez_version = Some("2.0".to_string());
    r.standalone_python = Some("/opt/pbs/bin/python3".to_string());
    let env = detect_rez_environment(r).unwrap();
    assert!(env.is_installed);
    assert_eq!(env.python_path.as_deref(), Some("/opt/pbs/bin/python3"));
    assert!(env.packages_path.is_empty());
}

#[test]
fn test_detect_standalone_rez_installation_not_installed() {
    let env = missing_environment();
    assert!(env.version.is_some() || !env.is_installed);
    assert!(env.python_path.is_none());
    let found = standalone_environment("/p".to_string(), None);
    assert!(found.version.is_some() || !found.is_installed);
    assert_eq!(found.python_path.as_deref(), Some("/p"));
}

#[test]
fn version_text_is_trimmed() {
    assert_eq!(rez_version_text("  Rez 2.1\r\n"), "Rez 2.1");
    assert_eq!(rez_version_text(""), "");
}

#[test]
fn usual_places_of_a_self_contained_python() {
    let roots = standalone_roots();
    let seen: Vec<(bool, &str)> = roots.iter().map(|r| (r.below_home, r.path.as_str())).collect();
    assert_eq!(
        seen,
        vec![
            (true, ".local/share/python-build-standalone"),
            (false, "/opt/python-build-standalone"),
            (false, "/usr/local/python-build-standalone"),
        ]
    );
    let probe = |root_exists: bool, path: &str, exists: bool| RootProbe {
        root_exists,
        python: ProbedPath { path: path.to_string(), exists },
    };
    let probes = vec![
        probe(true, "/h/bin/python3", false),
        probe(false, "/opt/bin/python3", true),
        probe(true, "/usr/local/bin/python3", true),
    ];
    assert_eq!(detect_python_build_standalone(&probes), Some("/usr/local/bin/python3".to_string()));
    assert_eq!(detect_python_build_standalone(&probes[..2].to_vec()), None);
    assert_eq!(detect_python_build_standalone(&Vec::new()), None);
}
