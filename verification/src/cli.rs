//! The command line, as values: what was asked for, and what is to be done
//! about it.

use crate::utils::text::option_text;
use vstd::prelude::*;

verus! {

/// The command line.
#[derive(Debug, Clone, PartialEq, Eq)]
pub struct Cli {
    pub command: Option<Commands>,
    /// Generate a message without committing.
    pub dry_run: bool,
    /// Offer the message for editing.
    pub interactive: bool,
    /// Commit without asking.
    pub force: bool,
    /// Say more.
    pub verbose: bool,
    /// The model to ask.
    pub model: String,
    /// The credential, in place of the configured one.
    pub api_key: Option<String>,
    /// The path of the settings file.
    pub config: Option<String>,
}

/// The subcommands.
#[derive(Debug, Clone, PartialEq, Eq)]
pub enum Commands {
    /// Commit, with the given message or a generated one.
    Commit { message: Option<String> },
    /// Generate a message only.
    Generate,
    /// Install as a git hook.
    InstallHook,
    /// Read or change the settings.
    Config { config_command: ConfigCommands },
}

/// The subcommands of `config`.
#[derive(Debug, Clone, PartialEq, Eq)]
pub enum ConfigCommands {
    /// Ask for the credential and store it.
    SetApiKey,
    /// Store the model to ask.
    SetModel { model: String },
    /// Print the settings.
    Show,
}

/// What a command line asks for.
#[derive(Debug, Clone, PartialEq, Eq)]
pub enum Plan {
    /// Generate a message and print it.
    Generate,
    /// Commit, with the given message or a generated one.
    Commit { message: Option<String> },
    /// Ask for the credential and store it.
    SetApiKey,
    /// Store the model to ask.
    SetModel { model: String },
    /// Print the settings.
    ShowConfig,
    /// Install as a git hook.
    InstallHook,
    /// Say how the program is used.
    Usage,
}

/// The mathematical content of a `Plan`.
pub enum PlanView {
    Generate,
    Commit { message: Option<Seq<char>> },
    SetApiKey,
    SetModel { model: Seq<char> },
    ShowConfig,
    InstallHook,
    Usage,
}

impl View for Plan {
    type V = PlanView;

    open spec fn view(&self) -> PlanView {
        match self {
            Plan::Generate => PlanView::Generate,
            Plan::Commit { message } => PlanView::Commit { message: option_text(*message) },
            Plan::SetApiKey => PlanView::SetApiKey,
            Plan::SetModel { model } => PlanView::SetModel { model: model@ },
            Plan::ShowConfig => PlanView::ShowConfig,
            Plan::InstallHook => PlanView::InstallHook,
            Plan::Usage => PlanView::Usage,
        }
    }
}

impl Cli {
    /// What this command line asks for. `generate` asks for a message only,
    /// and so does a dry run without a subcommand; without either, the usage
    /// is shown.
    pub open spec fn planned(&self) -> PlanView {
        match self.command {
            Some(Commands::Commit { message }) => PlanView::Commit { message: option_text(message) },
            Some(Commands::Generate) => PlanView::Generate,
            Some(Commands::InstallHook) => PlanView::InstallHook,
            Some(Commands::Config { config_command }) => match config_command {
                ConfigCommands::SetApiKey => PlanView::SetApiKey,
                ConfigCommands::SetModel { model } => PlanView::SetModel { model: model@ },
                ConfigCommands::Show => PlanView::ShowConfig,
            },
            None => if self.dry_run {
                PlanView::Generate
            } else {
                PlanView::Usage
            },
        }
    }

    /// Decides what to do about this command line.
    pub fn plan(&self) -> (plan: Plan)
        ensures
            plan@ == self.planned(),
    {
        match &self.command {
            Some(Commands::Commit { message }) => Plan::Commit {
                message: match message {
                    Some(text) => Some(text.clone()),
                    None => None,
                },
            },
            Some(Commands::Generate) => Plan::Generate,
            Some(Commands::InstallHook) => Plan::InstallHook,
            Some(Commands::Config { config_command }) => match config_command {
                ConfigCommands::SetApiKey => Plan::SetApiKey,
                ConfigCommands::SetModel { model } => Plan::SetModel { model: model.clone() },
                ConfigCommands::Show => Plan::ShowConfig,
            },
            None => if self.dry_run {
                Plan::Generate
            } else {
                Plan::Usage
            },
        }
    }
}

} // verus!
