//! File names and the launch script of the Steam compatibility tool.

use vstd::prelude::*;
use vstd::string::*;

verus! {

pub const COMPATIBILITYTOOL_VDF_FILENAME: &'static str = "compatibilitytool.vdf";

pub const TOOLMANIFEST_VDF_FILENAME: &'static str = "toolmanifest.vdf";

pub const XLM_LAUNCHSCRIPT_FILENAME: &'static str = "xlm.sh";

pub const XLM_BINARY_FILENAME: &'static str = "xlm";

pub const XLM_COMPATDIR_DIRNAME: &'static str = "XLM";

/// The launch script up to the extra environment variables.
pub const LAUNCH_SCRIPT_HEAD: &'static str =
    "#!/bin/env bash\n\n# Prevents launching twice.\nif [[ \"$1\" == \"run\" ]]; then sleep 1; exit; fi\n\ntooldir=\"$(realpath \"$(dirname \"$0\")\")\"\n\nPATH=$PATH:$tooldir/xlcore ";

/// The launch script between the extra environment variables and the extra
/// launch arguments.
pub const LAUNCH_SCRIPT_COMMAND: &'static str = " $tooldir/xlm launch ";

/// The launch script after the extra launch arguments.
pub const LAUNCH_SCRIPT_TAIL: &'static str = " --install-directory $tooldir/xlcore $4\n";

/// The text that an option holds, empty where it holds none.
pub open spec fn text_or_empty(text: Option<Seq<char>>) -> Seq<char> {
    match text {
        Some(t) => t,
        None => Seq::empty(),
    }
}

/// The `xlm.sh` launch script: the extra environment variables stand before
/// the call of `xlm launch`, the extra arguments behind it.
pub open spec fn launch_script(extra_env_vars: Seq<char>, extra_launch_args: Seq<char>) -> Seq<char> {
    LAUNCH_SCRIPT_HEAD@ + extra_env_vars + LAUNCH_SCRIPT_COMMAND@ + extra_launch_args
        + LAUNCH_SCRIPT_TAIL@
}

/// The text of an option as a string slice, empty where there is none.
pub fn as_deref_or_default(text: &Option<String>) -> (r: &str)
    ensures
        r@ == text_or_empty(text.deep_view()),
{
    proof {
        reveal_strlit("");
    }
    match text {
        Some(t) => t.as_str(),
        None => "",
    }
}

/// Get the xlm.sh launch script as a pre-formatted string.
pub fn get_launch_script(extra_env_vars: &Option<String>, extra_launch_args: &Option<String>) -> (r:
    String)
    ensures
        r@ == launch_script(
            text_or_empty(extra_env_vars.deep_view()),
            text_or_empty(extra_launch_args.deep_view()),
        ),
{
    let mut script = LAUNCH_SCRIPT_HEAD.to_owned();
    script.append(as_deref_or_default(extra_env_vars));
    script.append(LAUNCH_SCRIPT_COMMAND);
    script.append(as_deref_or_default(extra_launch_args));
    script.append(LAUNCH_SCRIPT_TAIL);
    script
}

} // verus!
