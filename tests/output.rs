use envfetch::cli::CliError;
use envfetch::config::{config_file_in, default_config, get_config_file_path};
use envfetch::models::{Cli, Commands, Config, ErrorKind, ExportArgs, LoadArgs, PrintArgs};
use envfetch::state::{AppState, VISIBLE_ROWS};
use envfetch::variables::{
    appended_value, format_entry, parse_env_file, print_env, print_format, replace_all,
};
use envfetch::view::{layout, truncate_value, value_window, KEY_HINT};

fn pair(k: &str, v: &str) -> (String, String) {
    (k.to_string(), v.to_string())
}

#[test]
fn truncation_marks_only_longer_values() {
    assert_eq!(truncate_value("abcdef", 3), "abc...");
    assert_eq!(truncate_value("abc", 3), "abc");
    assert_eq!(truncate_value("", 0), "");
    assert_eq!(truncate_value("é€x", 2), "é€...");
}

#[test]
fn value_window_shows_scroll_hints() {
    let p = value_window("K", "abcdefgh", 2, 3);
    assert_eq!(p.name, "K");
    assert_eq!(p.visible, "cde");
    assert!(p.more_left);
    assert!(p.more_right);
    let q = value_window("K", "abc", 9, 5);
    assert_eq!(q.visible, "");
    assert!(q.more_left);
    assert!(!q.more_right);
    let r = value_window("K", "abc", 0, 5);
    assert_eq!(r.visible, "abc");
    assert!(!r.more_left);
    assert!(!r.more_right);
}

#[test]
fn layout_shows_visible_window_and_footer() {
    let entries: Vec<(String, String)> =
        (0..20).map(|i| (format!("VAR{}", i), format!("VALUE{}", i))).collect();
    let mut state = AppState::new(entries);
    state.current_index = 15;
    state.scroll_offset = 10;
    let l = layout(&state, 4, 80);
    assert_eq!(l.rows.len(), VISIBLE_ROWS);
    assert_eq!(l.rows[0].name, "VAR10");
    assert_eq!(l.rows[0].value, "VALU...");
    assert!(l.rows[5].selected);
    assert!(!l.rows[4].selected);
    assert!(l.more_above);
    assert!(!l.more_below);
    assert_eq!(l.value_panel.as_ref().map(|p| p.visible.clone()), Some("VALUE15".to_string()));
    assert_eq!(l.footer, KEY_HINT);
    state.show_message_at("Saved", 1000, 0);
    assert_eq!(layout(&state, 4, 80).footer, "Saved");
}

#[test]
fn layout_of_empty_list() {
    let state = AppState::new(vec![]);
    let l = layout(&state, 10, 10);
    assert!(l.rows.is_empty());
    assert!(!l.more_above);
    assert!(!l.more_below);
    assert!(l.value_panel.is_none());
}

#[test]
fn replace_all_is_left_to_right_without_overlap() {
    assert_eq!(replace_all("aaa", "aa", "b"), "ba");
    assert_eq!(replace_all("x{name}y{name}", "{name}", "N"), "xNyN");
    assert_eq!(replace_all("abc", "", "Z"), "abc");
    assert_eq!(replace_all("", "a", "b"), "");
}

#[test]
fn entry_formatting() {
    assert_eq!(format_entry("{name} = \"{value}\"", "HOME", "/root"), "HOME = \"/root\"");
    assert_eq!(format_entry("{value}:{name}:{value}", "K", "v"), "v:K:v");
    assert_eq!(format_entry("{name}", "{value}", "X"), "X");
}

#[test]
fn print_env_writes_one_line_per_variable() {
    let vars = vec![pair("A", "1"), pair("B", "")];
    assert_eq!(print_env("{name}={value}", &vars), "A=1\nB=\n");
    assert_eq!(print_env("{name}", &vec![]), "");
}

#[test]
fn print_format_prefers_command_then_config() {
    let own = PrintArgs { format: Some("{name}".to_string()) };
    let none = PrintArgs { format: None };
    let cfg = Some(Config { print_format: Some("{value}".to_string()) });
    let empty_cfg = Some(Config { print_format: None });
    assert_eq!(print_format(&own, &cfg), "{name}");
    assert_eq!(print_format(&none, &cfg), "{value}");
    assert_eq!(print_format(&none, &empty_cfg), "{name} = \"{value}\"");
    assert_eq!(print_format(&none, &None), "{name} = \"{value}\"");
}

#[test]
fn appended_value_concatenates() {
    assert_eq!(appended_value(Some("/bin".to_string()), ":/usr/bin"), "/bin:/usr/bin");
    assert_eq!(appended_value(None, "x"), "x");
}

#[test]
fn dotenv_content_is_parsed() {
    let vars = parse_env_file("A=1\nB=\"two words\"\n").unwrap();
    assert_eq!(vars, vec![pair("A", "1"), pair("B", "two words")]);
}

#[test]
fn dotenv_error_is_a_parsing_error() {
    match parse_env_file("=broken") {
        Err(ErrorKind::ParsingError(text)) => assert!(!text.is_empty()),
        other => panic!("unexpected result: {:?}", other),
    }
}

#[test]
fn config_path_joins_directory() {
    assert_eq!(config_file_in(Some("/home/u/.config".to_string())), "/home/u/.config/envfetch.toml");
    assert_eq!(config_file_in(Some("/x/".to_string())), "/x/envfetch.toml");
    assert_eq!(config_file_in(Some(String::new())), "envfetch.toml");
    assert_eq!(config_file_in(None), "envfetch.toml");
    assert!(get_config_file_path().ends_with("envfetch.toml"));
}

#[test]
fn default_config_sets_nothing() {
    for line in default_config().lines() {
        assert!(line.is_empty() || line.starts_with('#'));
    }
}

#[test]
fn cli_errors() {
    assert_eq!(Cli::parse_from(&["envfetch"]), Err(CliError::MissingCommand));
    assert_eq!(Cli::parse_from(&["envfetch", "frobnicate"]), Err(CliError::UnknownCommand));
    assert_eq!(Cli::parse_from(&["envfetch", "get", "A", "--bogus"]), Err(CliError::UnknownOption));
    assert_eq!(Cli::parse_from(&["envfetch", "print", "--format"]), Err(CliError::MissingValue));
    assert_eq!(Cli::parse_from(&["envfetch", "get"]), Err(CliError::MissingArgument));
    assert_eq!(Cli::parse_from(&["envfetch", "get", "A", "B"]), Err(CliError::UnexpectedArgument));
    assert_eq!(Cli::parse_from(&["envfetch", "set", "A", "1"]), Err(CliError::MissingProcess));
    assert_eq!(Cli::parse_from(&["envfetch", "get", "-h"]), Err(CliError::HelpRequested));
    assert_eq!(Cli::parse_from(&["envfetch", "--help"]), Err(CliError::HelpRequested));
    assert_eq!(Cli::parse_from(&["envfetch", "-V"]), Err(CliError::VersionRequested));
    assert_eq!(Cli::parse_from(&["envfetch", "export", "out.env"]), Err(CliError::MissingArgument));
}

#[test]
fn cli_load_print_export_and_plain_commands() {
    assert_eq!(
        Cli::parse_from(&["envfetch", "load", "--global"]).unwrap().command,
        Commands::Load(LoadArgs { global: true, process: None, file: ".env".to_string() })
    );
    assert_eq!(
        Cli::parse_from(&["envfetch", "load", "-f", "x.env", "--", "make"]).unwrap().command,
        Commands::Load(LoadArgs {
            global: false,
            process: Some("make".to_string()),
            file: "x.env".to_string()
        })
    );
    assert_eq!(
        Cli::parse_from(&["envfetch", "print", "-f", "{name}"]).unwrap().command,
        Commands::Print(PrintArgs { format: Some("{name}".to_string()) })
    );
    assert_eq!(
        Cli::parse_from(&["envfetch", "export", "out.env", "--", "A", "B"]).unwrap().command,
        Commands::Export(ExportArgs {
            file_name: "out.env".to_string(),
            keys: vec!["A".to_string(), "B".to_string()]
        })
    );
    assert_eq!(Cli::parse_from(&["envfetch", "interactive"]).unwrap().command, Commands::Interactive);
}
