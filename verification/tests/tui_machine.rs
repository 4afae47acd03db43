use cce::config::Config;
use cce::tui::{InputMode, Key, TuiAction, TuiApp};

fn config_with(names: &[&str]) -> Config {
    let mut c = Config::empty();
    for n in names {
        c.add_provider(n.to_string(), format!("https://{n}"), format!("tok-{n}"), None);
    }
    c
}

fn type_text(app: &mut TuiApp, text: &str) {
    for ch in text.chars() {
        let r = app.handle_input(Key::Char(ch), false);
        assert!(matches!(r, TuiAction::Idle));
    }
}

#[test]
fn tui_new_selects_first_when_nonempty() {
    let app = TuiApp::new(config_with(&["a", "b"]));
    assert_eq!(app.selected, Some(0));
    assert!(matches!(app.input_mode, InputMode::Normal));
    let app = TuiApp::new(Config::empty());
    assert_eq!(app.selected, None);
}

#[test]
fn tui_navigation_wraps() {
    let mut app = TuiApp::new(config_with(&["a", "b", "c"]));
    app.handle_input(Key::Down, false);
    assert_eq!(app.selected, Some(1));
    app.handle_input(Key::Char('j'), false);
    assert_eq!(app.selected, Some(2));
    app.handle_input(Key::Down, false);
    assert_eq!(app.selected, Some(0));
    app.handle_input(Key::Up, false);
    assert_eq!(app.selected, Some(2));
    app.handle_input(Key::Char('k'), false);
    assert_eq!(app.selected, Some(1));
}

#[test]
fn tui_navigation_noop_when_empty() {
    let mut app = TuiApp::new(Config::empty());
    app.handle_input(Key::Down, false);
    assert_eq!(app.selected, None);
    app.handle_input(Key::Up, false);
    assert_eq!(app.selected, None);
}

#[test]
fn tui_quit_keys() {
    let mut app = TuiApp::new(Config::empty());
    assert!(matches!(app.handle_input(Key::Char('q'), false), TuiAction::Quit));
    assert!(matches!(app.handle_input(Key::Esc, false), TuiAction::Quit));
    assert!(matches!(app.handle_input(Key::Char('c'), true), TuiAction::Quit));
}

#[test]
fn tui_use_selected_provider() {
    let mut app = TuiApp::new(config_with(&["a", "b"]));
    app.handle_input(Key::Down, false);
    let r = app.handle_input(Key::Enter, false);
    match r {
        TuiAction::SaveAndApply { provider } => assert_eq!(provider.name, "b"),
        _ => panic!("expected a switch"),
    }
    assert_eq!(app.config.current_provider.as_deref(), Some("b"));
    assert_eq!(app.message.as_deref(), Some("Switched to provider 'b'"));
}

#[test]
fn tui_clear_key() {
    let mut app = TuiApp::new(config_with(&["a"]));
    app.handle_input(Key::Enter, false);
    let r = app.handle_input(Key::Char('c'), false);
    assert!(matches!(r, TuiAction::SaveAndClear));
    assert!(app.config.current_provider.is_none());
    assert_eq!(app.message.as_deref(), Some("Cleared current provider"));
}

#[test]
fn tui_add_form_full_flow() {
    let mut app = TuiApp::new(Config::empty());
    app.handle_input(Key::Char('a'), false);
    assert!(matches!(app.input_mode, InputMode::AddProvider(_)));
    type_text(&mut app, "acme");
    app.handle_input(Key::Enter, false);
    type_text(&mut app, "https://u");
    app.handle_input(Key::Tab, false);
    type_text(&mut app, "tok");
    app.handle_input(Key::Tab, false);
    type_text(&mut app, "mod");
    let r = app.handle_input(Key::Enter, false);
    assert!(matches!(r, TuiAction::SaveOnly));
    assert!(matches!(app.input_mode, InputMode::Normal));
    assert_eq!(app.config.providers.len(), 1);
    assert_eq!(app.config.providers[0].name, "acme");
    assert_eq!(app.config.providers[0].api_url, "https://u");
    assert_eq!(app.config.providers[0].token, "tok");
    assert_eq!(app.config.providers[0].model.as_deref(), Some("mod"));
    assert_eq!(app.selected, Some(0));
    assert_eq!(app.message.as_deref(), Some("Added provider 'acme'"));
}

#[test]
fn tui_add_form_requires_mandatory_fields() {
    let mut app = TuiApp::new(Config::empty());
    app.handle_input(Key::Char('a'), false);
    type_text(&mut app, "acme");
    app.handle_input(Key::Tab, false);
    app.handle_input(Key::Tab, false);
    app.handle_input(Key::Tab, false);
    let r = app.handle_input(Key::Enter, false);
    assert!(matches!(r, TuiAction::Idle));
    assert!(matches!(app.input_mode, InputMode::AddProvider(_)));
    assert!(app.message_is_error);
    assert_eq!(app.message.as_deref(), Some("Name, URL, and Token are required"));
    assert_eq!(app.config.providers.len(), 0);
}

#[test]
fn tui_add_form_empty_model_means_none() {
    let mut app = TuiApp::new(Config::empty());
    app.handle_input(Key::Char('a'), false);
    type_text(&mut app, "a");
    app.handle_input(Key::Enter, false);
    type_text(&mut app, "u");
    app.handle_input(Key::Enter, false);
    type_text(&mut app, "t");
    app.handle_input(Key::Enter, false);
    let r = app.handle_input(Key::Enter, false);
    assert!(matches!(r, TuiAction::SaveOnly));
    assert!(app.config.providers[0].model.is_none());
}

#[test]
fn tui_add_form_backspace_and_cancel() {
    let mut app = TuiApp::new(Config::empty());
    app.handle_input(Key::Char('a'), false);
    type_text(&mut app, "ab");
    app.handle_input(Key::Backspace, false);
    match &app.input_mode {
        InputMode::AddProvider(s) => assert_eq!(s.name, "a"),
        _ => panic!("form must stay open"),
    }
    app.handle_input(Key::Esc, false);
    assert!(matches!(app.input_mode, InputMode::Normal));
    assert_eq!(app.config.providers.len(), 0);
}

#[test]
fn tui_backtab_cycles_focus_backwards() {
    let mut app = TuiApp::new(Config::empty());
    app.handle_input(Key::Char('a'), false);
    app.handle_input(Key::BackTab, false);
    match &app.input_mode {
        InputMode::AddProvider(s) => assert_eq!(s.current_field, 3),
        _ => panic!("form must stay open"),
    }
    app.handle_input(Key::BackTab, false);
    match &app.input_mode {
        InputMode::AddProvider(s) => assert_eq!(s.current_field, 2),
        _ => panic!("form must stay open"),
    }
}

#[test]
fn tui_delete_needs_confirmation() {
    let mut app = TuiApp::new(config_with(&["a", "b"]));
    app.handle_input(Key::Char('d'), false);
    assert!(matches!(app.input_mode, InputMode::DeleteConfirm));
    app.handle_input(Key::Char('n'), false);
    assert!(matches!(app.input_mode, InputMode::Normal));
    assert_eq!(app.config.providers.len(), 2);
    app.handle_input(Key::Char('d'), false);
    let r = app.handle_input(Key::Char('y'), false);
    assert!(matches!(r, TuiAction::SaveOnly));
    assert!(matches!(app.input_mode, InputMode::Normal));
    assert_eq!(app.config.providers.len(), 1);
    assert_eq!(app.config.providers[0].name, "b");
    assert_eq!(app.message.as_deref(), Some("Deleted provider 'a'"));
}

#[test]
fn tui_delete_last_moves_cursor_back() {
    let mut app = TuiApp::new(config_with(&["a", "b"]));
    app.handle_input(Key::Down, false);
    app.handle_input(Key::Char('d'), false);
    app.handle_input(Key::Char('Y'), false);
    assert_eq!(app.selected, Some(0));
    app.handle_input(Key::Char('d'), false);
    app.handle_input(Key::Char('y'), false);
    assert_eq!(app.selected, None);
    assert_eq!(app.config.providers.len(), 0);
}

#[test]
fn tui_delete_key_ignored_without_selection() {
    let mut app = TuiApp::new(Config::empty());
    app.handle_input(Key::Char('d'), false);
    assert!(matches!(app.input_mode, InputMode::Normal));
}

#[test]
fn tui_ctrl_ignored_in_form_text() {
    let mut app = TuiApp::new(Config::empty());
    app.handle_input(Key::Char('a'), false);
    let r = app.handle_input(Key::Char('c'), true);
    assert!(matches!(r, TuiAction::Idle));
    match &app.input_mode {
        InputMode::AddProvider(s) => assert_eq!(s.name, "c"),
        _ => panic!("form must stay open"),
    }
}
