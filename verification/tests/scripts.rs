use xlm::includes::{
    get_launch_script, COMPATIBILITYTOOL_VDF_FILENAME, TOOLMANIFEST_VDF_FILENAME,
    XLM_BINARY_FILENAME, XLM_COMPATDIR_DIRNAME, XLM_LAUNCHSCRIPT_FILENAME,
};
use xlm::install_steam_tool::{
    launch_script_with, InstallSteamToolCommand, SteamToolError, SCRIPT_MODE,
};
use xlm::setup::{
    SetupCommand, XLCM_BINARY_NAME, XLCM_COMPAT_FOLDER_NAME, XLCM_LAUNCHSCRIPT_FILENAME,
};

#[test]
fn launch_script_with_both_extras() {
    let expected = r#"#!/bin/env bash

# Prevents launching twice.
if [[ "$1" == "run" ]]; then sleep 1; exit; fi

tooldir="$(realpath "$(dirname "$0")")"

PATH=$PATH:$tooldir/xlcore MANGOHUD=1 $tooldir/xlm launch --skip-update --install-directory $tooldir/xlcore $4
"#;
    assert_eq!(
        get_launch_script(&Some("MANGOHUD=1".to_string()), &Some("--skip-update".to_string())),
        expected
    );
}

#[test]
fn launch_script_without_extras() {
    let expected = r#"#!/bin/env bash

# Prevents launching twice.
if [[ "$1" == "run" ]]; then sleep 1; exit; fi

tooldir="$(realpath "$(dirname "$0")")"

PATH=$PATH:$tooldir/xlcore  $tooldir/xlm launch  --install-directory $tooldir/xlcore $4
"#;
    assert_eq!(get_launch_script(&None, &None), expected);
    assert_eq!(get_launch_script(&Some(String::new()), &Some(String::new())), expected);
}

#[test]
fn tool_launch_script_with_both_extras() {
    let expected = r#"#!/bin/env bash

# Prevents launching twice.
if [[ "$1" == "run" ]]; then sleep 1; exit; fi

tooldir="$(realpath "$(dirname "$0")")"

# XLM pre-launch scripts.
if [ -d $tooldir/prelaunch.d ]; then
    for extension in $tooldir/prelaunch.d/*; do
        if [ -f "$extension" ]; then
            echo "Running XLM prelaunch $extension"
            . "$extension"
        fi
    done
fi
unset extension

PATH=$PATH:$tooldir/xlcore A=1 B=2 $tooldir/xlm launch --use-fallback-secret-provider --install-directory $tooldir/xlcore $4

# XLM post-launch scripts.
if [ -d $tooldir/postlaunch.d ]; then
    for extension in $tooldir/postlaunch.d/*; do
        if [ -f "$extension" ]; then
            echo "Running XLM postlaunch $extension"
            . "$extension"
        fi
    done
fi
unset extension
"#;
    assert_eq!(
        launch_script_with(
            Some("A=1 B=2".to_string()),
            Some("--use-fallback-secret-provider".to_string())
        ),
        expected
    );
    let command = InstallSteamToolCommand {
        steam_compat_path: "/home/u/.steam/root/compatibilitytools.d".to_string(),
        extra_launch_args: Some("--use-fallback-secret-provider".to_string()),
        extra_env_vars: Some("A=1 B=2".to_string()),
    };
    assert_eq!(command.launch_script(), expected);
}

#[test]
fn tool_launch_script_without_extras() {
    let script = launch_script_with(None, None);
    assert!(script.starts_with("#!/bin/env bash\n\n# Prevents launching twice.\n"));
    assert!(script
        .contains("\nPATH=$PATH:$tooldir/xlcore  $tooldir/xlm launch  --install-directory $tooldir/xlcore $4\n"));
    assert!(script.ends_with("fi\nunset extension\n"));
    assert_eq!(script.len(), 760);
}

#[test]
fn tool_needs_an_existing_parent_directory() {
    assert_eq!(InstallSteamToolCommand::check_parent(None), Err(SteamToolError::NoParent));
    assert_eq!(
        InstallSteamToolCommand::check_parent(Some(false)),
        Err(SteamToolError::ParentMissing)
    );
    assert_eq!(InstallSteamToolCommand::check_parent(Some(true)), Ok(()));
}

#[test]
fn setup_script_with_and_without_arguments() {
    let expected = r#"#!/bin/env bash

# Prevents launching twice.
if [ $1 == "run" ]; then sleep 1; exit; fi

tooldir="$(realpath "$(dirname "$0")")"

XL_SECRET_PROVIDER=FILE PATH=$PATH:$tooldir/xlcore $tooldir/xlcm launch --install-directory $tooldir/xlcore --skip-update
"#;
    let command = SetupCommand {
        steam_compat_path: "/c".to_string(),
        extra_launch_args: Some("--skip-update".to_string()),
    };
    assert_eq!(command.script(), expected);
    let bare = SetupCommand { steam_compat_path: "/c".to_string(), extra_launch_args: None };
    assert_eq!(bare.script(), expected.replace("--skip-update", ""));
}

#[test]
fn tool_file_names() {
    assert_eq!(COMPATIBILITYTOOL_VDF_FILENAME, "compatibilitytool.vdf");
    assert_eq!(TOOLMANIFEST_VDF_FILENAME, "toolmanifest.vdf");
    assert_eq!(XLM_LAUNCHSCRIPT_FILENAME, "xlm.sh");
    assert_eq!(XLM_BINARY_FILENAME, "xlm");
    assert_eq!(XLM_COMPATDIR_DIRNAME, "XLM");
    assert_eq!(SCRIPT_MODE, 0o755);
    assert_eq!(XLCM_COMPAT_FOLDER_NAME, "XLCM");
    assert_eq!(XLCM_BINARY_NAME, "xlcm");
    assert_eq!(XLCM_LAUNCHSCRIPT_FILENAME, "xlcm.sh");
}
