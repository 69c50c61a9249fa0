//! Setting up the XLCM Steam compatibility tool.

use crate::includes::{as_deref_or_default, text_or_empty};
use vstd::prelude::*;
use vstd::string::*;

verus! {

pub const XLCM_COMPAT_FOLDER_NAME: &'static str = "XLCM";

pub const XLCM_BINARY_NAME: &'static str = "xlcm";

pub const XLCM_LAUNCHSCRIPT_FILENAME: &'static str = "xlcm.sh";

/// The launcher script up to the extra launch arguments.
pub const XLCM_SCRIPT_HEAD: &'static str =
    "#!/bin/env bash\n\n# Prevents launching twice.\nif [ $1 == \"run\" ]; then sleep 1; exit; fi\n\ntooldir=\"$(realpath \"$(dirname \"$0\")\")\"\n\nXL_SECRET_PROVIDER=FILE PATH=$PATH:$tooldir/xlcore $tooldir/xlcm launch --install-directory $tooldir/xlcore ";

/// The launcher script: the extra arguments end the call of `xlcm launch`.
pub open spec fn setup_script(extra_launch_args: Seq<char>) -> Seq<char> {
    XLCM_SCRIPT_HEAD@ + extra_launch_args + "\n"@
}

/// Setup the XLCM steam compatibility tool.
#[derive(Debug, PartialEq, Eq)]
pub struct SetupCommand {
    /// The path to the 'compatibilitytools.d' folder in your steam
    /// installation directory.
    pub steam_compat_path: String,
    /// Extra arguments to pass to the launch command when launching from the
    /// compatibility tool.
    pub extra_launch_args: Option<String>,
}

impl SetupCommand {
    /// The launcher script that this command writes.
    pub fn script(&self) -> (r: String)
        ensures
            r@ == setup_script(text_or_empty(self.extra_launch_args.deep_view())),
    {
        let mut script = XLCM_SCRIPT_HEAD.to_owned();
        script.append(as_deref_or_default(&self.extra_launch_args));
        script.append("\n");
        script
    }
}

} // verus!
