use rez_tools::plugin::Plugin;
use rez_tools::rez::RezCommand;

fn create_test_plugin() -> Plugin {
    Plugin {
        command: "echo".to_string(),
        name: Some("test".to_string()),
        short_help: Some("Test plugin".to_string()),
        requires: vec!["test-package".to_string()],
        run_detached: false,
        inherits_from: None,
        file_path: "test.rt".to_string(),
    }
}

#[test]
fn test_build_command() {
    let plugin = create_test_plugin();
    let rez_cmd = RezCommand::new(plugin);

    let command = rez_cmd.build_command(None);

    // The first element should be either "rez" or a path to rez executable
    assert!(command[0] == "rez" || command[0].contains("rez"));
    assert_eq!(command[1], "env");
    assert_eq!(command[2], "-q");
    assert_eq!(command[3], "test-package");
    assert_eq!(command[4], "--");
    assert_eq!(command[5], "echo");
}

#[test]
fn test_build_command_with_args() {
    let plugin = create_test_plugin();
    let rez_cmd =
        RezCommand::new(plugin).with_args(vec!["hello".to_string(), "world".to_string()]);

    let command = rez_cmd.build_command(None);
    assert_eq!(command[6], "hello");
    assert_eq!(command[7], "world");
}

#[test]
fn test_build_command_ignore_cmd() {
    let plugin = create_test_plugin();
    let rez_cmd = RezCommand::new(plugin)
        .with_ignore_cmd(true)
        .with_args(vec![
            "python".to_string(),
            "-c".to_string(),
            "print('hello')".to_string(),
        ]);

    let command = rez_cmd.build_command(None);
    assert_eq!(command[5], "python");
    assert_eq!(command[6], "-c");
    assert_eq!(command[7], "print('hello')");
}

#[test]
fn command_line_with_resolved_interpreter() {
    let mut plugin = create_test_plugin();
    plugin.requires = vec!["a".to_string(), "b-1".to_string()];
    let prefix = vec!["/p/python3".to_string(), "-m".to_string(), "rez".to_string()];
    let cmd = RezCommand::new(plugin).with_args(vec!["x".to_string()]);
    assert_eq!(
        cmd.build_command(Some(&prefix)),
        vec!["/p/python3", "-m", "rez", "env", "-q", "a", "b-1", "--", "echo", "x"]
    );
    let ignoring = cmd.clone().with_ignore_cmd(true);
    assert_eq!(
        ignoring.build_command(None),
        vec!["rez", "env", "-q", "a", "b-1", "--", "x"]
    );
    let no_args = RezCommand::new(create_test_plugin()).with_ignore_cmd(true);
    assert_eq!(
        no_args.build_command(None),
        vec!["rez", "env", "-q", "test-package", "--", "echo"]
    );
}

#[test]
fn builders_set_one_field() {
    let mut plugin = create_test_plugin();
    plugin.run_detached = true;
    let cmd = RezCommand::new(plugin);
    assert!(cmd.detached);
    assert!(!cmd.ignore_cmd);
    assert!(cmd.args.is_empty());
    let cmd = cmd.with_detached(false);
    assert!(!cmd.detached);
    assert!(cmd.plugin.run_detached);
    let cmd = cmd.with_ignore_cmd(true).with_args(vec!["a".to_string()]);
    assert!(cmd.ignore_cmd);
    assert_eq!(cmd.args, vec!["a"]);
    assert_eq!(cmd.plugin.command, "echo");
}
