use stunt::app::{AppMode, Message};
use stunt::form::{new_ssh_form, EntryTypeSelection};
use stunt::keys::{key_message, Key, KeyCode};

fn key(code: KeyCode) -> Key {
    Key { code, ctrl: false }
}

fn ctrl(c: char) -> Key {
    Key { code: KeyCode::Char(c), ctrl: true }
}

#[test]
fn list_view_keys() {
    let m = AppMode::Normal;
    assert!(matches!(key_message(&m, false, key(KeyCode::Char('q'))), Some(Message::Quit)));
    assert!(matches!(key_message(&m, false, ctrl('c')), Some(Message::Quit)));
    assert!(key_message(&m, false, key(KeyCode::Char('c'))).is_none());
    assert!(matches!(key_message(&m, false, key(KeyCode::Char('k'))), Some(Message::NavigateUp)));
    assert!(matches!(key_message(&m, false, key(KeyCode::Down)), Some(Message::NavigateDown)));
    assert!(matches!(key_message(&m, false, key(KeyCode::Enter)), Some(Message::ToggleConnect)));
    assert!(matches!(key_message(&m, false, key(KeyCode::Char('n'))), Some(Message::NewEntry)));
    assert!(matches!(key_message(&m, false, key(KeyCode::Char('e'))), Some(Message::EditEntry)));
    assert!(matches!(key_message(&m, false, key(KeyCode::Char('d'))), Some(Message::DeleteEntry)));
    assert!(key_message(&m, false, key(KeyCode::PageUp)).is_none());
}

#[test]
fn type_selector_keys() {
    let m = AppMode::TypeSelect(EntryTypeSelection { selected: 0 });
    assert!(matches!(key_message(&m, false, key(KeyCode::Esc)), Some(Message::FormCancel)));
    assert!(matches!(key_message(&m, false, key(KeyCode::Tab)), Some(Message::FormNextField)));
    assert!(matches!(key_message(&m, false, key(KeyCode::Char('k'))), Some(Message::FormPrevField)));
    assert!(matches!(key_message(&m, false, ctrl('t')), Some(Message::FormCycleForwardType)));
    assert!(key_message(&m, false, key(KeyCode::Char('t'))).is_none());
}

#[test]
fn form_keys() {
    let m = AppMode::Form(new_ssh_form());
    assert!(matches!(key_message(&m, false, ctrl('a')), Some(Message::FormAddForward)));
    assert!(matches!(key_message(&m, false, ctrl('d')), Some(Message::FormDeleteForward)));
    assert!(matches!(key_message(&m, false, key(KeyCode::Char('a'))), Some(Message::FormInput('a'))));
    assert!(matches!(key_message(&m, false, key(KeyCode::Char('j'))), Some(Message::FormInput('j'))));
    assert!(matches!(key_message(&m, false, key(KeyCode::Backspace)), Some(Message::FormBackspace)));
    assert!(matches!(key_message(&m, false, key(KeyCode::BackTab)), Some(Message::FormPrevField)));
}

#[test]
fn demo_mode_keys_only_quit() {
    let m = AppMode::Normal;
    assert!(matches!(key_message(&m, true, key(KeyCode::Char('q'))), Some(Message::Quit)));
    assert!(matches!(key_message(&m, true, ctrl('c')), Some(Message::Quit)));
    assert!(key_message(&m, true, key(KeyCode::Char('n'))).is_none());
    assert!(key_message(&m, true, key(KeyCode::Enter)).is_none());
}
