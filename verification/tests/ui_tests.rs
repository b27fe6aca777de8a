use muth::ui::{best_match, App, AppCommand, AppMode, Console, InputEvent, KeyCode};

#[test]
fn best_match_picks_first_highest_positive() {
    assert_eq!(best_match(&vec![]), None);
    assert_eq!(best_match(&vec![None, None]), None);
    assert_eq!(best_match(&vec![Some(0), Some(-3)]), None);
    assert_eq!(best_match(&vec![None, Some(5), Some(9), Some(9)]), Some((2, 9)));
    assert_eq!(best_match(&vec![Some(7), Some(7)]), Some((0, 7)));
    assert_eq!(best_match(&vec![Some(-1), Some(2)]), Some((1, 2)));
}

#[test]
fn console_starts_empty_with_quit_on_offer() {
    let c = Console::new();
    assert_eq!(c.input_string, "");
    assert_eq!(c.matched, None);
    assert_eq!(c.cmds.len(), 1);
    assert_eq!(c.cmds[0].0, "quit");
    assert_eq!(c.cmds[0].1, AppCommand::QuitApp);
}

#[test]
fn typing_matches_the_quit_command() {
    let mut c = Console::new();
    c.handle_command(AppCommand::PushInputChar('q'));
    assert_eq!(c.input_string, "q");
    let (ix, score) = c.matched.expect("q matches quit");
    assert_eq!(ix, 0);
    assert!(score > 0);
    // The matcher ignores case.
    c.handle_command(AppCommand::PushInputChar('T'));
    assert_eq!(c.input_string, "qT");
    assert!(c.matched.is_some());
}

#[test]
fn backspace_edits_and_rescores() {
    let mut c = Console::new();
    c.handle_command(AppCommand::PushInputChar('q'));
    c.handle_command(AppCommand::PushInputChar('z'));
    c.handle_command(AppCommand::PopInputChar);
    assert_eq!(c.input_string, "q");
    assert!(c.matched.is_some());
    // Popping an empty line is a no-op.
    let mut empty = Console::new();
    empty.handle_command(AppCommand::PopInputChar);
    assert_eq!(empty.input_string, "");
}

#[test]
fn nonsense_input_matches_nothing() {
    let mut c = Console::new();
    for ch in "xyzw".chars() {
        c.handle_command(AppCommand::PushInputChar(ch));
    }
    assert_eq!(c.matched, None);
    // With nothing suggested, enter does nothing.
    assert_eq!(c.handle_input(InputEvent::Key(KeyCode::Enter)), None);
}

#[test]
fn console_key_translation() {
    let mut c = Console::new();
    c.handle_command(AppCommand::PushInputChar('q'));
    assert_eq!(
        c.handle_input(InputEvent::Key(KeyCode::Enter)),
        Some(AppCommand::QuitApp)
    );
    assert_eq!(
        c.handle_input(InputEvent::Key(KeyCode::Esc)),
        Some(AppCommand::SetMode(AppMode::Normal))
    );
    assert_eq!(
        c.handle_input(InputEvent::Key(KeyCode::Backspace)),
        Some(AppCommand::PopInputChar)
    );
    assert_eq!(
        c.handle_input(InputEvent::Key(KeyCode::Char('a'))),
        Some(AppCommand::PushInputChar('a'))
    );
    assert_eq!(c.handle_input(InputEvent::Key(KeyCode::Other)), None);
    assert_eq!(c.handle_input(InputEvent::Tick), None);
}

#[test]
fn app_mode_transitions() {
    let mut app = App::new();
    assert_eq!(app.app_mode, AppMode::Normal);
    // In normal mode, '/' opens the console and escape quits.
    assert_eq!(
        app.handle_input(InputEvent::Key(KeyCode::Char('/'))),
        Some(AppCommand::SetMode(AppMode::Input))
    );
    assert_eq!(
        app.handle_input(InputEvent::Key(KeyCode::Esc)),
        Some(AppCommand::QuitApp)
    );
    assert_eq!(app.handle_input(InputEvent::Key(KeyCode::Char('x'))), None);
    assert_eq!(app.handle_input(InputEvent::Tick), None);
    app.handle_command(AppCommand::SetMode(AppMode::Input));
    assert_eq!(app.app_mode, AppMode::Input);
    // In input mode the console decides; escape now leaves input mode.
    assert_eq!(
        app.handle_input(InputEvent::Key(KeyCode::Esc)),
        Some(AppCommand::SetMode(AppMode::Normal))
    );
    // Typed characters reach the console through commands.
    app.handle_command(AppCommand::PushInputChar('q'));
    assert_eq!(app.console.input_string, "q");
    assert_eq!(
        app.handle_input(InputEvent::Key(KeyCode::Enter)),
        Some(AppCommand::QuitApp)
    );
    app.handle_command(AppCommand::PopInputChar);
    assert_eq!(app.console.input_string, "");
    // QuitApp itself changes no state here; the caller tears down.
    app.handle_command(AppCommand::QuitApp);
    assert_eq!(app.app_mode, AppMode::Input);
}

#[test]
fn full_quit_flow() {
    let mut app = App::new();
    let open = app.handle_input(InputEvent::Key(KeyCode::Char('/'))).unwrap();
    app.handle_command(open);
    for ch in "qt".chars() {
        let cmd = app.handle_input(InputEvent::Key(KeyCode::Char(ch))).unwrap();
        app.handle_command(cmd);
    }
    assert!(app.console.matched.is_some(), "fuzzy match of qt against quit");
    let fired = app.handle_input(InputEvent::Key(KeyCode::Enter));
    assert_eq!(fired, Some(AppCommand::QuitApp));
}
