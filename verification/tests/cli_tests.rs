use rez_tools::cli::{
    handle_list_command, pad, parse_plugin_args, CliAction, CliApp, NamedPlugin, PluginAction,
};
use rez_tools::plugin::Plugin;

fn plugin(command: &str, detached: bool) -> Plugin {
    Plugin {
        command: command.to_string(),
        name: None,
        short_help: None,
        requires: vec!["pkg".to_string()],
        run_detached: detached,
        inherits_from: None,
        file_path: "tool.rt".to_string(),
    }
}

fn named(name: &str, command: &str) -> NamedPlugin {
    NamedPlugin { name: name.to_string(), plugin: plugin(command, false) }
}

fn args(list: &[&str]) -> Vec<String> {
    list.iter().map(|s| s.to_string()).collect()
}

#[test]
fn route_reads_the_first_argument() {
    let app = CliApp::new(vec![named("maya", "maya1"), named("nuke", "nuke"), named("maya", "maya2")]);
    assert_eq!(app.route(&args(&["rt"])), CliAction::Help(1));
    assert_eq!(app.route(&args(&[])), CliAction::Help(1));
    assert_eq!(app.route(&args(&["rt", "--help"])), CliAction::Help(0));
    assert_eq!(app.route(&args(&["rt", "-h", "x"])), CliAction::Help(0));
    assert_eq!(app.route(&args(&["rt", "--version"])), CliAction::Version);
    assert_eq!(app.route(&args(&["rt", "-V"])), CliAction::Version);
    assert_eq!(app.route(&args(&["rt", "list"])), CliAction::List);
    assert_eq!(app.route(&args(&["rt", "install-rez"])), CliAction::InstallRez);
    assert_eq!(app.route(&args(&["rt", "check-rez"])), CliAction::CheckRez);
    assert_eq!(app.route(&args(&["rt", "nuke", "--print"])), CliAction::RunPlugin(1));
    assert_eq!(app.route(&args(&["rt", "maya"])), CliAction::RunPlugin(2));
    assert_eq!(app.route(&args(&["rt", "houdini"])), CliAction::Unknown);
    assert_eq!(app.find("maya"), Some(2));
    assert_eq!(app.callable(), vec![1, 2]);
    assert!(CliApp::new(Vec::new()).callable().is_empty());
    assert_eq!(app.find("none"), None);
}

#[test]
fn plugin_arguments_are_split_into_options_and_the_rest() {
    let o = parse_plugin_args(&args(&["a", "--print", "b", "--ignore-cmd", "--print", "-c"]));
    assert!(o.print_details);
    assert!(o.ignore_cmd);
    assert!(!o.run_detached);
    assert_eq!(o.remaining_args, vec!["a", "b", "-c"]);
    let none = parse_plugin_args(&Vec::new());
    assert!(!none.print_details && !none.ignore_cmd && !none.run_detached);
    assert!(none.remaining_args.is_empty());
}

#[test]
fn plugin_command_is_printed_or_run() {
    let app = CliApp::new(Vec::new());
    assert!(matches!(
        app.handle_plugin_command(plugin("echo", false), &args(&["x", "--print"])),
        PluginAction::PrintDetails
    ));
    match app.handle_plugin_command(plugin("echo", false), &args(&["--run-detached", "x", "y"])) {
        PluginAction::Run(cmd) => {
            assert!(cmd.detached);
            assert!(!cmd.ignore_cmd);
            assert_eq!(cmd.args, vec!["x", "y"]);
            assert_eq!(cmd.plugin.command, "echo");
        }
        other => panic!("unexpected action {:?}", other),
    }
    match app.handle_plugin_command(plugin("echo", true), &args(&["--ignore-cmd"])) {
        PluginAction::Run(cmd) => {
            assert!(cmd.detached);
            assert!(cmd.ignore_cmd);
            assert!(cmd.args.is_empty());
        }
        other => panic!("unexpected action {:?}", other),
    }
}

#[test]
fn test_rt_list_empty() {
    let app = CliApp::new(Vec::new());
    let listing = handle_list_command(&app).unwrap();
    assert_eq!(listing.exit_code, 0);
    assert_eq!(listing.lines, vec!["No plugins found."]);
}

#[test]
fn listing_has_one_line_for_each_name() {
    let mut helped = named("nuke", "nuke");
    helped.plugin.short_help = Some("Compositing".to_string());
    let long = named("a_plugin_with_a_very_long_name", "x");
    let app = CliApp::new(vec![named("maya", "maya1"), helped, named("maya", "maya2"), long]);
    assert_eq!(
        app.list_plugins(),
        vec![
            "Available plugins:",
            "  nuke                 Compositing",
            "  maya                 A rez plugin - maya.",
            "  a_plugin_with_a_very_long_name A rez plugin - a_plugin_with_a_very_long_name.",
        ]
    );
    assert_eq!(app.list_line(0), format!("  {:<20} {}", "maya", "A rez plugin - maya."));
}

#[test]
fn padding_fills_up_to_the_width() {
    assert_eq!(pad("ab", 5), "ab   ");
    assert_eq!(pad("abcde", 5), "abcde");
    assert_eq!(pad("abcdef", 5), "abcdef");
    assert_eq!(pad("", 0), "");
    assert_eq!(pad("é", 3), format!("{:<3}", "é"));
}
