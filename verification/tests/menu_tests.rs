use subspace_menu::command::{menu_options, Command};
use subspace_menu::menu::{classify, KeyTag, MenuAction, MenuEvent, MenuSession, Phase};
use subspace_menu::prompts::{assemble_command, prompt_count};

fn fresh_session() -> MenuSession {
    let options = menu_options();
    MenuSession::new(options.len(), 0)
}

#[test]
fn starts_on_first_option_in_raw_mode() {
    let s = fresh_session();
    assert_eq!(s.selected, 0);
    assert_eq!(s.phase, Phase::Rendering);
    assert!(s.raw_on);
    assert_eq!(s.n_options, 5);
}

#[test]
fn down_down_enter_selects_wipe() {
    let mut s = fresh_session();
    assert_eq!(s.step(MenuEvent::Down), MenuAction::Redraw);
    assert_eq!(s.step(MenuEvent::Down), MenuAction::Redraw);
    assert_eq!(s.step(MenuEvent::Enter), MenuAction::EndToDetails);
    assert_eq!(s.selected, 2);
    let options = menu_options();
    assert_eq!(options[s.selected], "wipe");
    assert_eq!(s.phase, Phase::AwaitingDetails);
    assert!(!s.raw_on);
    // No detail prompts: the dispatch target is wipe with default flags.
    assert_eq!(prompt_count(s.selected), 0);
    let flags: Vec<bool> = Vec::new();
    assert_eq!(assemble_command(s.selected, &flags), Command::Wipe { farmer: false, node: false });
}

#[test]
fn five_downs_clamp_at_last_option() {
    let mut s = fresh_session();
    assert_eq!(s.step(MenuEvent::Down), MenuAction::Redraw);
    assert_eq!(s.step(MenuEvent::Down), MenuAction::Redraw);
    assert_eq!(s.step(MenuEvent::Down), MenuAction::Redraw);
    assert_eq!(s.step(MenuEvent::Down), MenuAction::Redraw);
    assert_eq!(s.step(MenuEvent::Down), MenuAction::Ignore);
    assert_eq!(s.selected, 4);
}

#[test]
fn up_at_first_option_is_a_noop() {
    let mut s = fresh_session();
    assert_eq!(s.step(MenuEvent::Up), MenuAction::Ignore);
    assert_eq!(s.selected, 0);
    assert_eq!(s.phase, Phase::Rendering);
}

#[test]
fn redraws_happen_exactly_on_index_changes() {
    let mut s = fresh_session();
    let events = [
        MenuEvent::Down,
        MenuEvent::Down,
        MenuEvent::Up,
        MenuEvent::Up,
        MenuEvent::Up,
        MenuEvent::Other,
    ];
    let mut redraws = 0;
    let mut changes = 0;
    for ev in events {
        let before = s.selected;
        let action = s.step(ev);
        if action == MenuAction::Redraw {
            redraws += 1;
        }
        if s.selected != before {
            changes += 1;
        }
    }
    assert_eq!(redraws, 4);
    assert_eq!(redraws, changes);
}

#[test]
fn interrupt_cancels_without_dispatch_and_releases_raw_mode() {
    let mut s = fresh_session();
    assert_eq!(s.step(MenuEvent::Interrupt), MenuAction::EndCancelled);
    assert_eq!(s.phase, Phase::Cancelled);
    assert!(!s.raw_on);
    // A cancelled session ignores everything after.
    assert_eq!(s.step(MenuEvent::Down), MenuAction::Ignore);
    assert_eq!(s.selected, 0);
}

#[test]
fn io_error_fails_the_session_and_releases_raw_mode() {
    let mut s = fresh_session();
    assert_eq!(s.step(MenuEvent::Down), MenuAction::Redraw);
    assert_eq!(s.step(MenuEvent::IoError), MenuAction::EndFailed);
    assert_eq!(s.phase, Phase::Failed);
    assert!(!s.raw_on);
}

#[test]
fn details_phase_ends_in_dispatching_or_failed() {
    let mut s = fresh_session();
    s.step(MenuEvent::Enter);
    s.finish_details(true);
    assert_eq!(s.phase, Phase::Dispatching);

    let mut t = fresh_session();
    t.step(MenuEvent::Enter);
    t.finish_details(false);
    assert_eq!(t.phase, Phase::Failed);
}

#[test]
fn keys_map_to_navigation_events() {
    assert_eq!(classify(KeyTag::Up, false), MenuEvent::Up);
    assert_eq!(classify(KeyTag::Down, false), MenuEvent::Down);
    assert_eq!(classify(KeyTag::Enter, false), MenuEvent::Enter);
    assert_eq!(classify(KeyTag::Char('k'), false), MenuEvent::Up);
    assert_eq!(classify(KeyTag::Char('j'), false), MenuEvent::Down);
    assert_eq!(classify(KeyTag::Char('c'), true), MenuEvent::Interrupt);
    assert_eq!(classify(KeyTag::Char('c'), false), MenuEvent::Other);
    assert_eq!(classify(KeyTag::Char('x'), false), MenuEvent::Other);
    assert_eq!(classify(KeyTag::Other, false), MenuEvent::Other);
}
