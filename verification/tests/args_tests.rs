use subspace_menu::args::resolve_args;
use subspace_menu::command::Command;

fn argv(parts: &[&str]) -> Vec<String> {
    parts.iter().map(|p| p.to_string()).collect()
}

#[test]
fn no_arguments_means_no_command() {
    assert_eq!(resolve_args(&argv(&[])).unwrap(), None);
}

#[test]
fn plain_subcommands_resolve() {
    assert_eq!(resolve_args(&argv(&["init"])).unwrap(), Some(Command::Init));
    assert_eq!(resolve_args(&argv(&["info"])).unwrap(), Some(Command::Info));
    assert_eq!(resolve_args(&argv(&["open-logs"])).unwrap(), Some(Command::OpenLogs));
}

#[test]
fn farm_flags_default_to_false() {
    assert_eq!(
        resolve_args(&argv(&["farm"])).unwrap(),
        Some(Command::Farm { verbose: false, executor: false, no_rotation: false })
    );
}

#[test]
fn farm_flags_are_recognized_in_both_spellings() {
    assert_eq!(
        resolve_args(&argv(&["farm", "-v", "--no-rotation"])).unwrap(),
        Some(Command::Farm { verbose: true, executor: false, no_rotation: true })
    );
    assert_eq!(
        resolve_args(&argv(&["farm", "--executor", "--verbose"])).unwrap(),
        Some(Command::Farm { verbose: true, executor: true, no_rotation: false })
    );
    assert_eq!(
        resolve_args(&argv(&["farm", "-e"])).unwrap(),
        Some(Command::Farm { verbose: false, executor: true, no_rotation: false })
    );
}

#[test]
fn wipe_flags_are_recognized() {
    assert_eq!(
        resolve_args(&argv(&["wipe"])).unwrap(),
        Some(Command::Wipe { farmer: false, node: false })
    );
    assert_eq!(
        resolve_args(&argv(&["wipe", "--farmer"])).unwrap(),
        Some(Command::Wipe { farmer: true, node: false })
    );
    assert_eq!(
        resolve_args(&argv(&["wipe", "--node", "--farmer"])).unwrap(),
        Some(Command::Wipe { farmer: true, node: true })
    );
}

#[test]
fn unknown_subcommand_is_a_usage_error() {
    let err = resolve_args(&argv(&["plant"])).unwrap_err();
    assert!(err.message.contains("plant"));
}

#[test]
fn unknown_flag_is_a_usage_error() {
    assert!(resolve_args(&argv(&["farm", "--loud"])).is_err());
    assert!(resolve_args(&argv(&["wipe", "-v"])).is_err());
}

#[test]
fn extra_arguments_after_plain_subcommands_are_usage_errors() {
    assert!(resolve_args(&argv(&["init", "now"])).is_err());
    assert!(resolve_args(&argv(&["info", "-v"])).is_err());
    assert!(resolve_args(&argv(&["open-logs", "x"])).is_err());
}
