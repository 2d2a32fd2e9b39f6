use rez_tools::locator::{
    conventional_places, first_existing, search_tree, DirNode, ProbedPath, SearchRules,
};
use rez_tools::platform::Platform;
use rez_tools::python_standalone::{
    name_matches, preferred_versions, select_asset, PythonStandalone, ReleaseAsset, ReleaseIndex,
};

fn platform(os: &str, arch: &str, triple: &str) -> Platform {
    Platform { os: os.to_string(), arch: arch.to_string(), target_triple: triple.to_string() }
}

fn asset(name: &str, url: &str) -> ReleaseAsset {
    ReleaseAsset { name: name.to_string(), download_url: Some(url.to_string()) }
}

fn file(path: &str, name: &str) -> DirNode {
    DirNode {
        path: path.to_string(),
        name: Some(name.to_string()),
        is_file: true,
        is_dir: false,
        entries: Vec::new(),
    }
}

fn dir(path: &str, name: &str, entries: Vec<DirNode>) -> DirNode {
    DirNode {
        path: path.to_string(),
        name: Some(name.to_string()),
        is_file: false,
        is_dir: true,
        entries,
    }
}

fn probed(path: &str, exists: bool) -> ProbedPath {
    ProbedPath { path: path.to_string(), exists }
}

#[test]
fn test_python_standalone_new() {
    let install_dir = "/test/path".to_string();
    let python_standalone = PythonStandalone::new(install_dir.clone());
    assert_eq!(python_standalone.install_dir, install_dir);
}

#[test]
fn test_get_target_pattern_windows() {
    let python_standalone = PythonStandalone::new("/test".to_string());
    let platform = platform("windows", "x86_64", "x86_64-pc-windows-msvc");
    let pattern = python_standalone.get_target_pattern(&platform).unwrap();
    assert_eq!(pattern, "x86_64-pc-windows-msvc-install_only");
}

#[test]
fn test_get_target_pattern_linux() {
    let python_standalone = PythonStandalone::new("/test".to_string());
    let platform = platform("linux", "x86_64", "x86_64-unknown-linux-gnu");
    let pattern = python_standalone.get_target_pattern(&platform).unwrap();
    assert_eq!(pattern, "x86_64-unknown-linux-gnu-install_only");
}

#[test]
fn test_get_target_pattern_macos_x86_64() {
    let python_standalone = PythonStandalone::new("/test".to_string());
    let platform = platform("macos", "x86_64", "x86_64-apple-darwin");
    let pattern = python_standalone.get_target_pattern(&platform).unwrap();
    assert_eq!(pattern, "x86_64-apple-darwin-install_only");
}

#[test]
fn test_get_target_pattern_macos_aarch64() {
    let python_standalone = PythonStandalone::new("/test".to_string());
    let platform = platform("macos", "aarch64", "aarch64-apple-darwin");
    let pattern = python_standalone.get_target_pattern(&platform).unwrap();
    assert_eq!(pattern, "aarch64-apple-darwin-install_only");
}

#[test]
fn test_get_target_pattern_unsupported() {
    let python_standalone = PythonStandalone::new("/test".to_string());
    let platform = platform("unsupported", "unknown", "unknown-unknown-unknown");
    let result = python_standalone.get_target_pattern(&platform);
    assert!(result.is_err());
    assert!(result.unwrap_err().to_string().contains("Unsupported platform"));
}

#[test]
fn unsupported_platform_error_names_the_pair() {
    let python_standalone = PythonStandalone::new("/test".to_string());
    let result = python_standalone.get_target_pattern(&platform("linux", "aarch64", ""));
    let message = result.unwrap_err().to_string();
    assert_eq!(
        message,
        "Configuration error: Unsupported platform: linux-aarch64 \
         (supported: windows/x86_64, linux/x86_64, macos/x86_64, macos/aarch64)"
    );
    for pair in ["windows/x86_64", "linux/x86_64", "macos/x86_64", "macos/aarch64"] {
        assert!(message.contains(pair));
    }
    // Neither the target triple nor the installation directory matters.
    let other = PythonStandalone::new("/elsewhere".to_string());
    let same = other.get_target_pattern(&platform("linux", "aarch64", "anything"));
    assert_eq!(same.unwrap_err().to_string(), message);
    assert!(other.get_target_pattern(&platform("windows", "aarch64", "")).is_err());
}

#[test]
fn test_find_best_asset() {
    let python_standalone = PythonStandalone::new("/test".to_string());
    let assets = vec![
        asset(
            "cpython-3.10.12+20250517-x86_64-pc-windows-msvc-install_only.tar.gz",
            "https://example.com/python310.tar.gz",
        ),
        asset(
            "cpython-3.11.12+20250517-x86_64-pc-windows-msvc-install_only.tar.gz",
            "https://example.com/python311.tar.gz",
        ),
        asset(
            "cpython-3.12.1+20250517-x86_64-pc-windows-msvc-install_only.tar.gz",
            "https://example.com/python312.tar.gz",
        ),
    ];

    let target_pattern = "x86_64-pc-windows-msvc-install_only";
    let result = python_standalone.find_best_asset(&assets, target_pattern);

    assert!(result.is_ok());
    let (url, filename) = result.unwrap();
    assert!(filename.contains("3.11"));
    assert_eq!(url, "https://example.com/python311.tar.gz");
}

#[test]
fn test_find_best_asset_no_match() {
    let python_standalone = PythonStandalone::new("/test".to_string());
    let assets = vec![asset("some-other-file.tar.gz", "https://example.com/other.tar.gz")];

    let target_pattern = "x86_64-pc-windows-msvc-install_only";
    let result = python_standalone.find_best_asset(&assets, target_pattern);

    assert!(result.is_err());
    assert!(result
        .unwrap_err()
        .to_string()
        .contains("No suitable Python Build Standalone found"));
}

#[test]
fn best_asset_takes_version_order_then_asset_order() {
    let ps = PythonStandalone::new("/t".to_string());
    let assets = vec![
        asset("cpython-3.9.1-PAT.tar.gz", "u39"),
        asset("cpython-3.12.1-PAT.tar.gz", "u312a"),
        asset("cpython-3.12.2-PAT.tar.gz", "u312b"),
        asset("cpython-3.11.1-PAT.zip", "u311zip"),
        asset("cpython-3.11.1-OTHER.tar.gz", "u311other"),
    ];
    let (url, name) = ps.find_best_asset(&assets, "PAT").unwrap();
    assert_eq!(url, "u312a");
    assert_eq!(name, "cpython-3.12.1-PAT.tar.gz");
    let again = ps.find_best_asset(&assets, "PAT").unwrap();
    assert_eq!(again.0, "u312a");
    let versions = preferred_versions();
    assert_eq!(versions, vec!["3.11", "3.12", "3.10", "3.9"]);
    assert_eq!(select_asset(&assets, "PAT", &versions), Some((1, 1)));
    let reversed: Vec<String> = vec!["3.9".to_string(), "3.12".to_string()];
    assert_eq!(select_asset(&assets, "PAT", &reversed), Some((0, 0)));
    assert_eq!(select_asset(&assets, "NONE", &versions), None);
    assert_eq!(select_asset(&Vec::new(), "PAT", &versions), None);
    assert_eq!(select_asset(&assets, "PAT", &Vec::new()), None);
}

#[test]
fn best_asset_without_address_is_an_error() {
    let ps = PythonStandalone::new("/t".to_string());
    let assets = vec![ReleaseAsset {
        name: "cpython-3.11.1-PAT.tar.gz".to_string(),
        download_url: None,
    }];
    let r = ps.find_best_asset(&assets, "PAT");
    assert_eq!(r.unwrap_err().to_string(), "Configuration error: No download URL found");
}

#[test]
fn asset_name_has_to_hold_pattern_version_and_suffix() {
    assert!(name_matches("cpython-3.11.1-PAT.tar.gz", "PAT", "3.11"));
    assert!(!name_matches("cpython-3.11.1-PAT.tar.gz", "PAT", "3.12"));
    assert!(!name_matches("cpython-3.11.1-PAT.tar.gz", "TAP", "3.11"));
    assert!(!name_matches("cpython-3.11.1-PAT.tar.gz.sha256", "PAT", "3.11"));
    assert!(!name_matches("", "PAT", "3.11"));
    assert!(name_matches(".tar.gz", "", ""));
}

#[test]
fn download_info_from_release_index() {
    let ps = PythonStandalone::new("/t".to_string());
    let linux = platform("linux", "x86_64", "");
    let json = br#"{"tag_name":"20250517","assets":[
        {"name":"cpython-3.10.1-x86_64-unknown-linux-gnu-install_only.tar.gz","browser_download_url":"https://e/310"},
        {"name":"cpython-3.11.1-x86_64-unknown-linux-gnu-install_only.tar.gz","browser_download_url":"https://e/311"},
        {"browser_download_url":"https://e/noname"},
        {"name":"cpython-3.11.1-x86_64-pc-windows-msvc-install_only.tar.gz","browser_download_url":"https://e/win"}
    ]}"#;
    let (url, name) = ps.get_download_info_from_bytes(&linux, json).unwrap();
    assert_eq!(url, "https://e/311");
    assert_eq!(name, "cpython-3.11.1-x86_64-unknown-linux-gnu-install_only.tar.gz");

    let bad = ps.get_download_info_from_bytes(&linux, b"not json");
    assert!(bad.unwrap_err().to_string().contains("Failed to parse JSON"));

    let none = ps.get_download_info_from_bytes(&linux, br#"{"assets": 3}"#);
    assert_eq!(
        none.unwrap_err().to_string(),
        "Configuration error: No assets found in release"
    );

    let unsupported = ps.get_download_info_from_bytes(&platform("plan9", "x86_64", ""), json);
    assert!(unsupported.unwrap_err().to_string().contains("Unsupported platform"));

    let missing_url = br#"{"assets":[{"name":"cpython-3.11.1-x86_64-unknown-linux-gnu-install_only.tar.gz"}]}"#;
    let r = ps.get_download_info_from_bytes(&linux, missing_url);
    assert_eq!(r.unwrap_err().to_string(), "Configuration error: No download URL found");

    let direct = ps.get_download_info(&linux, ReleaseIndex::Invalid("why".to_string()));
    assert_eq!(
        direct.unwrap_err().to_string(),
        "Configuration error: Failed to parse JSON: why"
    );
}

#[test]
fn test_find_python_executable_nested_windows() {
    let ps = PythonStandalone::new("/inst".to_string());
    let win = platform("windows", "x86_64", "x86_64-pc-windows-msvc");
    let places = conventional_places(true);
    assert_eq!(places[0], vec!["python", "python.exe"]);
    let probed: Vec<ProbedPath> = places
        .iter()
        .enumerate()
        .map(|(i, parts)| probed(&format!("/inst/{}", parts.join("/")), i == 0))
        .collect();
    let tree = dir("/inst", "inst", Vec::new());
    let result = ps.find_python_executable(&probed, &tree, &win);
    assert!(result.is_ok());
    assert_eq!(result.unwrap(), "/inst/python/python.exe");
}

#[test]
fn test_find_python_executable_nested_unix() {
    let ps = PythonStandalone::new("/inst".to_string());
    let linux = platform("linux", "x86_64", "x86_64-unknown-linux-gnu");
    let places = conventional_places(false);
    assert_eq!(places[0], vec!["python", "bin", "python3"]);
    let probed: Vec<ProbedPath> = places
        .iter()
        .enumerate()
        .map(|(i, parts)| probed(&format!("/inst/{}", parts.join("/")), i == 0 || i == 4))
        .collect();
    let tree = dir("/inst", "inst", Vec::new());
    let result = ps.find_python_executable(&probed, &tree, &linux);
    assert!(result.is_ok());
    assert_eq!(result.unwrap(), "/inst/python/bin/python3");
}

#[test]
fn test_find_python_executable_not_found() {
    let ps = PythonStandalone::new("/inst".to_string());
    let win = platform("windows", "x86_64", "x86_64-pc-windows-msvc");
    let probed: Vec<ProbedPath> = conventional_places(true)
        .iter()
        .map(|parts| probed(&format!("/inst/{}", parts.join("/")), false))
        .collect();
    let tree = dir("/inst", "inst", Vec::new());
    let result = ps.find_python_executable(&probed, &tree, &win);
    assert!(result.is_err());
    assert!(result.unwrap_err().to_string().contains("Python executable not found"));
}

#[test]
fn test_search_python_executable_limited_depth() {
    let ps = PythonStandalone::new("/inst".to_string());
    let deep = dir(
        "/inst/level1",
        "level1",
        vec![dir(
            "/inst/level1/level2",
            "level2",
            vec![dir(
                "/inst/level1/level2/level3",
                "level3",
                vec![dir(
                    "/inst/level1/level2/level3/level4",
                    "level4",
                    vec![file("/inst/level1/level2/level3/level4/python.exe", "python.exe")],
                )],
            )],
        )],
    );
    let shallow = dir(
        "/inst/python",
        "python",
        vec![file("/inst/python/python.exe", "python.exe")],
    );
    let tree = dir("/inst", "inst", vec![deep, shallow]);
    let win = platform("windows", "x86_64", "x86_64-pc-windows-msvc");
    let result = ps.search_python_executable_limited(&tree, &win, 0, 3);
    assert!(result.is_ok());
    assert_eq!(result.unwrap(), "/inst/python/python.exe");
}

#[test]
fn walk_finds_nothing_below_the_depth_limit() {
    let ps = PythonStandalone::new("/inst".to_string());
    let win = platform("windows", "x86_64", "");
    let chain = |leaf: DirNode| {
        dir(
            "/inst",
            "inst",
            vec![dir(
                "/inst/a",
                "a",
                vec![dir("/inst/a/b", "b", vec![dir("/inst/a/b/c", "c", vec![leaf])])],
            )],
        )
    };
    let at_depth_3 = chain(file("/inst/a/b/c/python.exe", "python.exe"));
    assert_eq!(
        ps.search_python_executable_limited(&at_depth_3, &win, 0, 3).unwrap(),
        "/inst/a/b/c/python.exe"
    );
    let r = ps.search_python_executable_limited(&at_depth_3, &win, 0, 2);
    assert_eq!(
        r.unwrap_err().to_string(),
        "Configuration error: Python executable not found in extracted archive"
    );
    let at_depth_4 = chain(dir(
        "/inst/a/b/c/d",
        "d",
        vec![file("/inst/a/b/c/d/python.exe", "python.exe")],
    ));
    assert!(ps.search_python_executable_limited(&at_depth_4, &win, 0, 3).is_err());
    assert!(ps.search_python_executable_limited(&at_depth_4, &win, 0, 4).is_ok());
    assert!(ps.search_python_executable_limited(&at_depth_4, &win, 5, 4).is_err());
}

#[test]
fn walk_prefers_clean_directory_over_virtual_environment() {
    let rules = SearchRules::for_os(false);
    let tree = dir(
        "/opt/inst",
        "inst",
        vec![
            dir("/opt/inst/venv", "venv", vec![file("/opt/inst/venv/python3", "python3")]),
            dir("/opt/inst/clean", "clean", vec![file("/opt/inst/clean/python3", "python3")]),
        ],
    );
    assert_eq!(search_tree(&tree, &rules, 0, 3), Some("/opt/inst/clean/python3".to_string()));
    let only_venv = dir(
        "/opt/inst",
        "inst",
        vec![dir("/opt/inst/VENV", "VENV", vec![file("/opt/inst/VENV/python3", "python3")])],
    );
    assert_eq!(search_tree(&only_venv, &rules, 0, 3), None);
}

#[test]
fn walk_passes_over_marked_paths_and_skipped_directories() {
    let rules = SearchRules::for_os(true);
    assert_eq!(rules.exe_names, vec!["python.exe", "python3.exe"]);
    assert_eq!(rules.markers, vec!["venv", "test", "lib"]);
    assert_eq!(rules.skipped_dirs, vec!["scripts"]);
    // A file whose whole path holds a marker is not accepted, whatever its own directory.
    let under_lib = dir(
        "/usr/lib/inst",
        "inst",
        vec![file("/usr/lib/inst/python.exe", "python.exe")],
    );
    assert_eq!(search_tree(&under_lib, &rules, 0, 3), None);
    let scripts = dir(
        "/i",
        "i",
        vec![
            dir("/i/Scripts", "Scripts", vec![file("/i/Scripts/python.exe", "python.exe")]),
            dir("/i/Tests", "Tests", vec![file("/i/Tests/python.exe", "python.exe")]),
            dir("/i/bin", "bin", vec![file("/i/bin/python3.exe", "python3.exe")]),
        ],
    );
    assert_eq!(search_tree(&scripts, &rules, 0, 3), Some("/i/bin/python3.exe".to_string()));
    // A file in the directory is preferred to going deeper, and other names are ignored.
    let both = dir(
        "/i",
        "i",
        vec![
            dir("/i/a", "a", vec![file("/i/a/python.exe", "python.exe")]),
            file("/i/pythonw.exe", "pythonw.exe"),
            file("/i/python.exe", "python.exe"),
        ],
    );
    assert_eq!(search_tree(&both, &rules, 0, 3), Some("/i/python.exe".to_string()));
    // A directory without a readable name is entered; a file without one is not accepted.
    let nameless = DirNode {
        path: "/i/x".to_string(),
        name: None,
        is_file: false,
        is_dir: true,
        entries: vec![file("/i/x/python.exe", "python.exe")],
    };
    let tree = dir("/i", "i", vec![nameless]);
    assert_eq!(search_tree(&tree, &rules, 0, 3), Some("/i/x/python.exe".to_string()));
}

#[test]
fn first_existing_takes_the_first() {
    let paths = vec![probed("/a", false), probed("/b", true), probed("/c", true)];
    assert_eq!(first_existing(&paths), Some("/b".to_string()));
    assert_eq!(first_existing(&vec![probed("/a", false)]), None);
    assert_eq!(first_existing(&Vec::new()), None);
}

#[test]
fn conventional_places_by_operating_system() {
    let win = conventional_places(true);
    assert_eq!(
        win,
        vec![
            vec!["python", "python.exe"],
            vec!["python", "Scripts", "python.exe"],
            vec!["python.exe"],
            vec!["bin", "python.exe"],
            vec!["Scripts", "python.exe"],
        ]
    );
    let unix = conventional_places(false);
    assert_eq!(
        unix,
        vec![
            vec!["python", "bin", "python3"],
            vec!["python", "bin", "python"],
            vec!["python", "python3"],
            vec!["python", "python"],
            vec!["bin", "python3"],
            vec!["bin", "python"],
            vec!["python3"],
            vec!["python"],
        ]
    );
}

#[test]
fn installed_needs_directory_and_executable() {
    let ps = PythonStandalone::new("/inst".to_string());
    let found: Result<String, rez_tools::error::RezToolsError> = Ok("/inst/python/bin/python3".to_string());
    assert!(ps.is_installed(true, &found, true));
    assert!(!ps.is_installed(false, &found, true));
    assert!(!ps.is_installed(true, &found, false));
    let linux = platform("linux", "x86_64", "");
    let tree = dir("/inst/python", "python", Vec::new());
    let r = ps.get_python_executable(false, &Vec::new(), &tree, &linux);
    assert_eq!(
        r.unwrap_err().to_string(),
        "Configuration error: Python Build Standalone not installed"
    );
    let places = vec![probed("/inst/python/bin/python3", true)];
    assert_eq!(
        ps.get_python_executable(true, &places, &tree, &linux).unwrap(),
        "/inst/python/bin/python3"
    );
}
