//! Keeping a variable in the profile of the user's shell: which shell, which
//! file, which line.

use vstd::prelude::*;
use vstd::string::*;

verus! {

/// The profile of zsh, in the home directory.
pub const ZSH_PROFILE: &'static str = ".zshrc";

/// The profile of bash, in the home directory.
pub const BASH_PROFILE: &'static str = ".bashrc";

/// A shell whose profile can be written to.
#[derive(Debug, Clone, Copy, PartialEq, Eq)]
pub enum Shell {
    Zsh,
    Bash,
}

/// The shell to write for: zsh where it is installed, else bash where that
/// is, else none.
pub fn get_shell(has_zsh: bool, has_bash: bool) -> (shell: Option<Shell>)
    ensures
        shell == if has_zsh {
            Some(Shell::Zsh)
        } else if has_bash {
            Some(Shell::Bash)
        } else {
            None::<Shell>
        },
{
    if has_zsh {
        Some(Shell::Zsh)
    } else if has_bash {
        Some(Shell::Bash)
    } else {
        None
    }
}

/// The name of the profile of `shell`.
pub fn profile_name(shell: Shell) -> (name: &'static str)
    ensures
        name@ == match shell {
            Shell::Zsh => ZSH_PROFILE@,
            Shell::Bash => BASH_PROFILE@,
        },
{
    match shell {
        Shell::Zsh => ZSH_PROFILE,
        Shell::Bash => BASH_PROFILE,
    }
}

/// The line that sets the variable `key` to `value`, with its line feed.
pub fn variable_line(key: &str, value: &str) -> (line: String)
    ensures
        line@ == key@ + "="@ + value@ + "\n"@,
{
    let mut line = key.to_owned();
    line.append("=");
    line.append(value);
    line.append("\n");
    line
}

} // verus!
