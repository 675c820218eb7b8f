use rusty_commit::cli::{Cli, Commands, ConfigCommands, Plan};
use rusty_commit::utils::env_variable::{get_shell, profile_name, variable_line, Shell};

fn cli(command: Option<Commands>, dry_run: bool) -> Cli {
    Cli {
        command,
        dry_run,
        interactive: false,
        force: false,
        verbose: false,
        model: "openai/gpt-3.5-turbo".to_string(),
        api_key: None,
        config: None,
    }
}

#[test]
fn generate_asks_for_a_message_only() {
    assert_eq!(cli(Some(Commands::Generate), false).plan(), Plan::Generate);
    assert_eq!(cli(Some(Commands::Generate), true).plan(), Plan::Generate);
}

#[test]
fn dry_run_without_a_subcommand_generates() {
    assert_eq!(cli(None, true).plan(), Plan::Generate);
}

#[test]
fn nothing_asked_shows_the_usage() {
    assert_eq!(cli(None, false).plan(), Plan::Usage);
}

#[test]
fn commit_carries_its_message() {
    assert_eq!(
        cli(Some(Commands::Commit { message: Some("m".to_string()) }), false).plan(),
        Plan::Commit { message: Some("m".to_string()) }
    );
    assert_eq!(
        cli(Some(Commands::Commit { message: None }), true).plan(),
        Plan::Commit { message: None }
    );
}

#[test]
fn config_subcommands_are_told_apart() {
    let set_key = Commands::Config { config_command: ConfigCommands::SetApiKey };
    assert_eq!(cli(Some(set_key), false).plan(), Plan::SetApiKey);
    let set_model =
        Commands::Config { config_command: ConfigCommands::SetModel { model: "m".to_string() } };
    assert_eq!(cli(Some(set_model), false).plan(), Plan::SetModel { model: "m".to_string() });
    let show = Commands::Config { config_command: ConfigCommands::Show };
    assert_eq!(cli(Some(show), true).plan(), Plan::ShowConfig);
}

#[test]
fn install_hook_is_its_own_plan() {
    assert_eq!(cli(Some(Commands::InstallHook), false).plan(), Plan::InstallHook);
}

#[test]
fn zsh_is_preferred_over_bash() {
    assert_eq!(get_shell(true, true), Some(Shell::Zsh));
    assert_eq!(get_shell(true, false), Some(Shell::Zsh));
    assert_eq!(get_shell(false, true), Some(Shell::Bash));
    assert_eq!(get_shell(false, false), None);
}

#[test]
fn each_shell_has_its_profile() {
    assert_eq!(profile_name(Shell::Zsh), ".zshrc");
    assert_eq!(profile_name(Shell::Bash), ".bashrc");
}

#[test]
fn variable_line_sets_key_to_value() {
    assert_eq!(variable_line("OPENROUTER_API_KEY", "sk-1"), "OPENROUTER_API_KEY=sk-1\n");
    assert_eq!(variable_line("K", ""), "K=\n");
}
