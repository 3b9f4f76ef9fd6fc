use subspace_menu::command::Command;
use subspace_menu::prompts::{assemble_command, farm_prompt, parse_yes_no, prompt_count};

#[test]
fn yes_and_no_answers_parse() {
    assert_eq!(parse_yes_no("y"), Ok(true));
    assert_eq!(parse_yes_no("yes"), Ok(true));
    assert_eq!(parse_yes_no("n"), Ok(false));
    assert_eq!(parse_yes_no("no"), Ok(false));
}

#[test]
fn malformed_answer_fails_resolution() {
    assert!(parse_yes_no("maybe").is_err());
    assert!(parse_yes_no("").is_err());
    assert!(parse_yes_no("yep").is_err());
}

#[test]
fn farm_answers_become_farm_flags() {
    // The three prompts answered "y", "n", "y" in asking order.
    let answers = ["y", "n", "y"];
    let mut flags: Vec<bool> = Vec::new();
    for a in answers {
        flags.push(parse_yes_no(a).expect("a yes/no answer"));
    }
    let cmd = assemble_command(1, &flags);
    assert_eq!(cmd, Command::Farm { verbose: true, executor: false, no_rotation: true });
}

#[test]
fn only_the_farm_entry_needs_prompts() {
    assert_eq!(prompt_count(0), 0);
    assert_eq!(prompt_count(1), 3);
    assert_eq!(prompt_count(2), 0);
    assert_eq!(prompt_count(3), 0);
    assert_eq!(prompt_count(4), 0);
}

#[test]
fn farm_prompts_ask_in_order() {
    assert_eq!(farm_prompt(0), "Do you want to initialize farmer in verbose mode? [y/n]: ");
    assert_eq!(farm_prompt(1), "Do you want to be an executor? [y/n]: ");
    assert_eq!(farm_prompt(2), "Do you want to disable rotation for logs? [y/n]: ");
}

#[test]
fn plain_entries_take_default_flags() {
    let no_flags: Vec<bool> = Vec::new();
    assert_eq!(assemble_command(0, &no_flags), Command::Init);
    assert_eq!(assemble_command(2, &no_flags), Command::Wipe { farmer: false, node: false });
    assert_eq!(assemble_command(3, &no_flags), Command::Info);
    assert_eq!(assemble_command(4, &no_flags), Command::OpenLogs);
}
