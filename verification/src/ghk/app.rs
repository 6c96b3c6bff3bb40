//! What the helper does before it runs a command.

use vstd::prelude::*;
use crate::ghk::config::isfirstrun;

verus! {

/// The variable that the helper takes out of its environment, so that the
/// GitHub CLI uses its own login.
pub const TOKEN_VARIABLE: &'static str = "GITHUB_TOKEN";

/// The lines that welcome a new user.
pub open spec fn welcome_lines() -> Seq<Seq<char>> {
    seq![
        "\n  Welcome to ghk!"@,
        "\n  Simple GitHub helper - push code without the complexity"@,
        "\n  Quick start:"@,
        "    ghk setup    Check requirements"@,
        "    ghk init     Start tracking a project"@,
        "    ghk create   Create repo on GitHub"@,
        "    ghk push     Save your changes"@,
        "\n  Run ghk --help for all commands\n"@,
    ]
}

/// The lines that welcome a new user.
pub fn welcome() -> (lines: Vec<String>)
    ensures
        lines.deep_view() == welcome_lines(),
{
    let mut lines: Vec<String> = Vec::new();
    lines.push("\n  Welcome to ghk!".to_owned());
    lines.push("\n  Simple GitHub helper - push code without the complexity".to_owned());
    lines.push("\n  Quick start:".to_owned());
    lines.push("    ghk setup    Check requirements".to_owned());
    lines.push("    ghk init     Start tracking a project".to_owned());
    lines.push("    ghk create   Create repo on GitHub".to_owned());
    lines.push("    ghk push     Save your changes".to_owned());
    lines.push("\n  Run ghk --help for all commands\n".to_owned());
    lines
}

/// Whether the user is welcomed, and the settings of a first run are
/// written out: on the first run, unless output is suppressed.
pub fn greets(quiet: bool, config_found: bool) -> (yes: bool)
    ensures
        yes == (!quiet && !config_found),
{
    !quiet && isfirstrun(config_found)
}

} // verus!
