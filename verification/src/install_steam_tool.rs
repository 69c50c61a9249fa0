//! Installing the wrapper as a Steam compatibility tool.

use crate::includes::{as_deref_or_default, text_or_empty};
use vstd::prelude::*;
use vstd::string::*;

verus! {

/// The launch script up to the extra environment variables.
pub const SCRIPT_HEAD: &'static str =
    "#!/bin/env bash\n\n# Prevents launching twice.\nif [[ \"$1\" == \"run\" ]]; then sleep 1; exit; fi\n\ntooldir=\"$(realpath \"$(dirname \"$0\")\")\"\n\n# XLM pre-launch scripts.\nif [ -d $tooldir/prelaunch.d ]; then\n    for extension in $tooldir/prelaunch.d/*; do\n        if [ -f \"$extension\" ]; then\n            echo \"Running XLM prelaunch $extension\"\n            . \"$extension\"\n        fi\n    done\nfi\nunset extension\n\nPATH=$PATH:$tooldir/xlcore ";

/// The launch script between the extra environment variables and the extra
/// launch arguments.
pub const SCRIPT_COMMAND: &'static str = " $tooldir/xlm launch ";

/// The launch script after the extra launch arguments.
pub const SCRIPT_TAIL: &'static str =
    " --install-directory $tooldir/xlcore $4\n\n# XLM post-launch scripts.\nif [ -d $tooldir/postlaunch.d ]; then\n    for extension in $tooldir/postlaunch.d/*; do\n        if [ -f \"$extension\" ]; then\n            echo \"Running XLM postlaunch $extension\"\n            . \"$extension\"\n        fi\n    done\nfi\nunset extension\n";

/// Mode bits of the launch script's file: it can be executed.
pub const SCRIPT_MODE: u32 = 0o755;

/// The launch script of the compatibility tool: it runs the scripts under
/// `prelaunch.d`, calls `xlm launch` with the extra environment variables
/// before it and the extra arguments behind it, and runs the scripts under
/// `postlaunch.d`.
pub open spec fn tool_launch_script(extra_env_vars: Seq<char>, extra_launch_args: Seq<char>) -> Seq<char> {
    SCRIPT_HEAD@ + extra_env_vars + SCRIPT_COMMAND@ + extra_launch_args + SCRIPT_TAIL@
}

/// Get the xlm.sh launch script as a pre-formatted string.
pub fn launch_script_with(extra_env_vars: Option<String>, extra_launch_args: Option<String>) -> (r:
    String)
    ensures
        r@ == tool_launch_script(
            text_or_empty(extra_env_vars.deep_view()),
            text_or_empty(extra_launch_args.deep_view()),
        ),
{
    let mut script = SCRIPT_HEAD.to_owned();
    script.append(as_deref_or_default(&extra_env_vars));
    script.append(SCRIPT_COMMAND);
    script.append(as_deref_or_default(&extra_launch_args));
    script.append(SCRIPT_TAIL);
    script
}

/// Why the compatibility tool cannot be installed.
#[derive(Debug, Clone, Copy, PartialEq, Eq, Structural)]
pub enum SteamToolError {
    /// The path to the compatibility tools has no parent directory.
    NoParent,
    /// The parent directory of the path does not exist.
    ParentMissing,
}

/// Install the XLM Steam compatibility tool to the chosen path.
#[derive(Debug, PartialEq, Eq)]
pub struct InstallSteamToolCommand {
    /// Path to Steam's `compatibilitytools.d` directory.
    pub steam_compat_path: String,
    /// Additional flags to pass to the launch command when started from the
    /// compatibility tool.
    pub extra_launch_args: Option<String>,
    /// Additional environment variables to pass to the launch command when
    /// started from the compatibility tool.
    pub extra_env_vars: Option<String>,
}

impl InstallSteamToolCommand {
    /// Whether the tool can be installed: the path to the compatibility
    /// tools must have a parent directory, and that directory must exist.
    /// `parent_exists` is `None` where there is no parent.
    pub fn check_parent(parent_exists: Option<bool>) -> (r: Result<(), SteamToolError>)
        ensures
            r == match parent_exists {
                None => Err::<(), SteamToolError>(SteamToolError::NoParent),
                Some(false) => Err::<(), SteamToolError>(SteamToolError::ParentMissing),
                Some(true) => Ok::<(), SteamToolError>(()),
            },
    {
        match parent_exists {
            None => Err(SteamToolError::NoParent),
            Some(false) => Err(SteamToolError::ParentMissing),
            Some(true) => Ok(()),
        }
    }

    /// The launch script that this command writes.
    pub fn launch_script(&self) -> (r: String)
        ensures
            r@ == tool_launch_script(
                text_or_empty(self.extra_env_vars.deep_view()),
                text_or_empty(self.extra_launch_args.deep_view()),
            ),
    {
        let mut script = SCRIPT_HEAD.to_owned();
        script.append(as_deref_or_default(&self.extra_env_vars));
        script.append(SCRIPT_COMMAND);
        script.append(as_deref_or_default(&self.extra_launch_args));
        script.append(SCRIPT_TAIL);
        script
    }
}

} // verus!
