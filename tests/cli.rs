use envfetch::models::{AddArgs, Cli, Commands, DeleteArgs, GetArgs, PrintArgs, SetArgs};

#[test]
fn test_get_command_without_no_similar_names_flag() {
        let args = Cli::parse_from(&["envfetch", "get", "PATH"]).unwrap();
        assert_eq!(
            args.command,
            Commands::Get(GetArgs {
                key: "PATH".to_string(),
                no_similar_names: false
            })
        );
    }

#[test]
fn test_get_command_with_no_similar_names_flag() {
        let args = Cli::parse_from(&["envfetch", "get", "PATH", "--no-similar-names"]).unwrap();
        assert_eq!(
            args.command,
            Commands::Get(GetArgs {
                key: "PATH".to_string(),
                no_similar_names: true
            })
        );
    }

#[test]
fn test_print_command() {
        let args = Cli::parse_from(&["envfetch", "print"]).unwrap();
        assert_eq!(args.command, Commands::Print(PrintArgs { format: None }));
    }

#[test]
fn test_print_command_with_format() {
        let args = Cli::parse_from(&["envfetch", "print", "--format", "{name}: \"{value}\""]).unwrap();
        assert_eq!(
            args.command,
            Commands::Print(PrintArgs {
                format: Some("{name}: \"{value}\"".to_owned())
            })
        );
    }

#[test]
fn main_test_init_config() {
        let args = Cli::parse_from(&["envfetch", "init-config"]).unwrap();
        assert_eq!(args.command, Commands::InitConfig);
    }

#[test]
fn test_set_command_simple() {
        let args = Cli::parse_from(&["envfetch", "set", "VAR", "VALUE", "--", "npm run"]).unwrap();
        assert_eq!(
            args.command,
            Commands::SetVar(SetArgs {
                global: false,
                key: "VAR".to_string(),
                value: "VALUE".to_string(),
                process: Some("npm run".to_string())
            })
        );
    }

#[test]
fn test_set_command_with_global_flag() {
        let args = Cli::parse_from(&["envfetch", "set", "VAR", "VALUE", "--global"]).unwrap();
        assert_eq!(
            args.command,
            Commands::SetVar(SetArgs {
                global: true,
                key: "VAR".to_string(),
                value: "VALUE".to_string(),
                process: None
            })
        );
    }

#[test]
fn test_set_command_with_global_flag_and_process() {
        let args = Cli::parse_from(&[
            "envfetch", "set", "VAR", "VALUE", "--global", "--", "npm run",
        ]).unwrap();
        assert_eq!(
            args.command,
            Commands::SetVar(SetArgs {
                global: true,
                key: "VAR".to_string(),
                value: "VALUE".to_string(),
                process: Some("npm run".to_string())
            })
        );
    }

#[test]
fn test_add_command_simple() {
        let args = Cli::parse_from(&["envfetch", "add", "PATH", "./executable", "--", "npm run"]).unwrap();
        assert_eq!(
            args.command,
            Commands::Add(AddArgs {
                global: false,
                key: "PATH".to_string(),
                value: "./executable".to_string(),
                process: Some("npm run".to_string())
            })
        );
    }

#[test]
fn test_add_command_with_global_flag() {
        let args = Cli::parse_from(&["envfetch", "add", "PATH", "./executable", "--global"]).unwrap();
        assert_eq!(
            args.command,
            Commands::Add(AddArgs {
                global: true,
                key: "PATH".to_string(),
                value: "./executable".to_string(),
                process: None
            })
        );
    }

#[test]
fn test_add_command_with_global_flag_and_process() {
        let args = Cli::parse_from(&[
            "envfetch",
            "add",
            "PATH",
            "./executable",
            "--global",
            "--",
            "npm run",
        ]).unwrap();
        assert_eq!(
            args.command,
            Commands::Add(AddArgs {
                global: true,
                key: "PATH".to_string(),
                value: "./executable".to_string(),
                process: Some("npm run".to_string())
            })
        );
    }

#[test]
fn test_delete_command_simple() {
        let args = Cli::parse_from(&["envfetch", "delete", "VAR", "--", "npm run"]).unwrap();
        assert_eq!(
            args.command,
            Commands::Delete(DeleteArgs {
                key: "VAR".to_string(),
                global: false,
                process: Some("npm run".to_string())
            })
        );
    }

#[test]
fn test_delete_command_with_global_flag() {
        let args = Cli::parse_from(&["envfetch", "delete", "VAR", "--global"]).unwrap();
        assert_eq!(
            args.command,
            Commands::Delete(DeleteArgs {
                key: "VAR".to_string(),
                global: true,
                process: None
            })
        );
    }

#[test]
fn test_delete_command_with_global_flag_and_process() {
        let args = Cli::parse_from(&["envfetch", "delete", "VAR", "--global", "--", "npm run"]).unwrap();
        assert_eq!(
            args.command,
            Commands::Delete(DeleteArgs {
                key: "VAR".to_string(),
                global: true,
                process: Some("npm run".to_string())
            })
        );
    }
