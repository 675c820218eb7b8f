//! The settings of a run: their defaults, how they are read from the values
//! of a settings file, and where that file is looked for.

use crate::errors::{result_view, CommitError, CommitErrorView};
use crate::utils::text::option_text;
use vstd::prelude::*;
use vstd::string::*;

verus! {

/// The model that is asked where none is set.
pub const DEFAULT_MODEL: &'static str = "openai/gpt-3.5-turbo";

/// The line budget of a diff where none is set.
pub const DEFAULT_MAX_DIFF_LINES: usize = 1000;

/// The sampling temperature where none is set, in thousandths.
pub const DEFAULT_TEMPERATURE_MILLI: u32 = 700;

/// The bound on the tokens of an answer where none is set.
pub const DEFAULT_MAX_TOKENS: u32 = 150;

/// The name of the settings file of a project, in its directory.
pub const LOCAL_CONFIG_FILE: &'static str = ".rusty-commit.toml";

/// The directories from the home directory down to the settings file of the
/// user, and the file's name.
pub const GLOBAL_CONFIG_DIR: &'static str = ".config";

pub const GLOBAL_CONFIG_SUBDIR: &'static str = "rusty-commit";

pub const GLOBAL_CONFIG_FILE: &'static str = "config.toml";

/// What is said where the line budget is not a positive number that fits.
pub const BAD_MAX_DIFF_LINES: &'static str = "max_diff_lines must be a positive integer";

/// What is said where the token bound is negative or too large.
pub const BAD_MAX_TOKENS: &'static str = "max_tokens is out of range";

/// The settings of a run.
#[derive(Debug, Clone, PartialEq, Eq)]
pub struct Config {
    pub api_key: Option<String>,
    pub default_model: String,
    pub max_diff_lines: usize,
    /// Sampling temperature, in thousandths.
    pub temperature_milli: u32,
    pub max_tokens: u32,
}

/// The mathematical content of a `Config`.
pub struct ConfigView {
    pub api_key: Option<Seq<char>>,
    pub default_model: Seq<char>,
    pub max_diff_lines: nat,
    pub temperature_milli: nat,
    pub max_tokens: nat,
}

impl View for Config {
    type V = ConfigView;

    open spec fn view(&self) -> ConfigView {
        ConfigView {
            api_key: option_text(self.api_key),
            default_model: self.default_model@,
            max_diff_lines: self.max_diff_lines as nat,
            temperature_milli: self.temperature_milli as nat,
            max_tokens: self.max_tokens as nat,
        }
    }
}

/// The settings that hold where nothing is set.
pub open spec fn default_config() -> ConfigView {
    ConfigView {
        api_key: None,
        default_model: DEFAULT_MODEL@,
        max_diff_lines: 1000,
        temperature_milli: 700,
        max_tokens: 150,
    }
}

impl Default for Config {
    fn default() -> (config: Config)
        ensures
            config@ == default_config(),
    {
        Config {
            api_key: None,
            default_model: DEFAULT_MODEL.to_owned(),
            max_diff_lines: DEFAULT_MAX_DIFF_LINES,
            temperature_milli: DEFAULT_TEMPERATURE_MILLI,
            max_tokens: DEFAULT_MAX_TOKENS,
        }
    }
}

/// The values of a settings file, each as it was found there: `None` where
/// the key is missing or holds a value of another kind.
#[derive(Debug, Clone, PartialEq, Eq)]
pub struct RawSettings {
    pub api_key: Option<String>,
    pub default_model: Option<String>,
    pub max_diff_lines: Option<i64>,
    /// Sampling temperature, in thousandths.
    pub temperature_milli: Option<u32>,
    pub max_tokens: Option<i64>,
}

impl RawSettings {
    /// The line budget is positive and fits the machine.
    pub open spec fn max_diff_lines_ok(&self) -> bool {
        match self.max_diff_lines {
            Some(lines) => 1 <= lines <= usize::MAX,
            None => true,
        }
    }

    /// The token bound is not negative and fits 32 bits.
    pub open spec fn max_tokens_ok(&self) -> bool {
        match self.max_tokens {
            Some(tokens) => 0 <= tokens <= u32::MAX,
            None => true,
        }
    }

    /// The settings that these values give, or why they give none.
    pub open spec fn checked(&self) -> Result<ConfigView, CommitErrorView> {
        if !self.max_diff_lines_ok() {
            Err(CommitErrorView::ConfigError(BAD_MAX_DIFF_LINES@))
        } else if !self.max_tokens_ok() {
            Err(CommitErrorView::ConfigError(BAD_MAX_TOKENS@))
        } else {
            Ok(self.settings())
        }
    }

    /// Each value that is there, and the default in place of each that is
    /// not.
    pub open spec fn settings(&self) -> ConfigView {
        ConfigView {
            api_key: option_text(self.api_key),
            default_model: match self.default_model {
                Some(model) => model@,
                None => DEFAULT_MODEL@,
            },
            max_diff_lines: match self.max_diff_lines {
                Some(lines) => lines as nat,
                None => 1000,
            },
            temperature_milli: match self.temperature_milli {
                Some(milli) => milli as nat,
                None => 700,
            },
            max_tokens: match self.max_tokens {
                Some(tokens) => tokens as nat,
                None => 150,
            },
        }
    }
}

impl Config {
    /// The settings that the values of a settings file give. A line budget
    /// that is not positive, and a number that does not fit, are refused.
    pub fn from_settings(raw: RawSettings) -> (read: Result<Config, CommitError>)
        ensures
            result_view(read) == raw.checked(),
    {
        let max_diff_lines: usize = match raw.max_diff_lines {
            Some(lines) => {
                if lines < 1 || lines as u64 > usize::MAX as u64 {
                    return Err(CommitError::ConfigError(BAD_MAX_DIFF_LINES.to_owned()));
                }
                lines as usize
            },
            None => DEFAULT_MAX_DIFF_LINES,
        };
        let max_tokens: u32 = match raw.max_tokens {
            Some(tokens) => {
                if tokens < 0 || tokens > u32::MAX as i64 {
                    return Err(CommitError::ConfigError(BAD_MAX_TOKENS.to_owned()));
                }
                tokens as u32
            },
            None => DEFAULT_MAX_TOKENS,
        };
        Ok(
            Config {
                api_key: raw.api_key,
                default_model: match raw.default_model {
                    Some(model) => model,
                    None => DEFAULT_MODEL.to_owned(),
                },
                max_diff_lines,
                temperature_milli: match raw.temperature_milli {
                    Some(milli) => milli,
                    None => DEFAULT_TEMPERATURE_MILLI,
                },
                max_tokens,
            },
        )
    }

    /// The settings of a run: those of the settings file where one was
    /// found, the defaults where none was.
    pub fn from_file(found: Option<RawSettings>) -> (read: Result<Config, CommitError>)
        ensures
            result_view(read) == match found {
                Some(raw) => raw.checked(),
                None => Ok(default_config()),
            },
    {
        match found {
            Some(raw) => Config::from_settings(raw),
            None => Ok(Config::default()),
        }
    }

    /// The settings with what the command line sets in place: the model
    /// always, the credential where one is given.
    pub fn with_overrides(self, model: String, api_key: Option<String>) -> (config: Config)
        ensures
            config@ == (ConfigView {
                default_model: model@,
                api_key: if api_key is Some {
                    option_text(api_key)
                } else {
                    self@.api_key
                },
                ..self@
            }),
    {
        Config {
            api_key: match api_key {
                Some(key) => Some(key),
                None => self.api_key,
            },
            default_model: model,
            max_diff_lines: self.max_diff_lines,
            temperature_milli: self.temperature_milli,
            max_tokens: self.max_tokens,
        }
    }
}

/// Where the settings file is.
#[derive(Debug, Clone, PartialEq, Eq)]
pub enum ConfigLocation {
    /// At the path that was given.
    Explicit(String),
    /// In the directory of the project.
    Local,
    /// Under the home directory that is held here.
    Global(String),
}

/// The mathematical content of a `ConfigLocation`.
pub enum ConfigLocationView {
    Explicit(Seq<char>),
    Local,
    Global(Seq<char>),
}

impl View for ConfigLocation {
    type V = ConfigLocationView;

    open spec fn view(&self) -> ConfigLocationView {
        match self {
            ConfigLocation::Explicit(path) => ConfigLocationView::Explicit(path@),
            ConfigLocation::Local => ConfigLocationView::Local,
            ConfigLocation::Global(home) => ConfigLocationView::Global(home@),
        }
    }
}

/// Where the settings file is looked for: at the path given, if one is; else
/// in the project, if a file is there; else under the home directory, if one
/// is known; else in the project.
pub open spec fn config_location(
    explicit_path: Option<Seq<char>>,
    local_exists: bool,
    home_dir: Option<Seq<char>>,
) -> ConfigLocationView {
    match explicit_path {
        Some(path) => ConfigLocationView::Explicit(path),
        None => if local_exists {
            ConfigLocationView::Local
        } else {
            match home_dir {
                Some(home) => ConfigLocationView::Global(home),
                None => ConfigLocationView::Local,
            }
        },
    }
}

/// Decides where the settings file is looked for. `local_exists` says
/// whether the project has a settings file, `home_dir` is the home directory
/// where one is known.
pub fn find_config_file(
    explicit_path: Option<String>,
    local_exists: bool,
    home_dir: Option<String>,
) -> (location: ConfigLocation)
    ensures
        location@ == config_location(option_text(explicit_path), local_exists, option_text(home_dir)),
{
    match explicit_path {
        Some(path) => ConfigLocation::Explicit(path),
        None => if local_exists {
            ConfigLocation::Local
        } else {
            match home_dir {
                Some(home) => ConfigLocation::Global(home),
                None => ConfigLocation::Local,
            }
        },
    }
}

} // verus!
