//! Which message each key press becomes, in each mode of the application.

use vstd::prelude::*;

use crate::app::{AppMode, AppModeView, Message};

verus! {

/// The keys that the application distinguishes.
#[derive(Debug, Clone, Copy, PartialEq, Eq, Structural)]
pub enum KeyCode {
    /// A printable character.
    Char(char),
    Up,
    Down,
    Enter,
    Esc,
    Tab,
    BackTab,
    Backspace,
    PageUp,
    PageDown,
    End,
    /// Any other key.
    Other,
}

/// A key press: the key and whether Control was held.
#[derive(Debug, Clone, Copy, PartialEq, Eq, Structural)]
pub struct Key {
    pub code: KeyCode,
    pub ctrl: bool,
}

/// The message of a key in the list view.
pub open spec fn normal_key_spec(k: Key) -> Option<Message> {
    match k.code {
        KeyCode::Char('q') => Some(Message::Quit),
        KeyCode::Up | KeyCode::Char('k') => Some(Message::NavigateUp),
        KeyCode::Down | KeyCode::Char('j') => Some(Message::NavigateDown),
        KeyCode::Enter => Some(Message::ToggleConnect),
        KeyCode::Char('n') => Some(Message::NewEntry),
        KeyCode::Char('e') => Some(Message::EditEntry),
        KeyCode::Char('d') => Some(Message::DeleteEntry),
        KeyCode::Char('c') if k.ctrl => Some(Message::Quit),
        _ => None,
    }
}

/// The message of a key while choosing the type of a new entry.
pub open spec fn type_select_key_spec(k: Key) -> Option<Message> {
    match k.code {
        KeyCode::Esc => Some(Message::FormCancel),
        KeyCode::Enter => Some(Message::FormSubmit),
        KeyCode::Tab | KeyCode::Down | KeyCode::Char('j') => Some(Message::FormNextField),
        KeyCode::BackTab | KeyCode::Up | KeyCode::Char('k') => Some(Message::FormPrevField),
        KeyCode::Char('t') if k.ctrl => Some(Message::FormCycleForwardType),
        _ => None,
    }
}

/// The message of a key in the form: control chords first, then any
/// character is typed.
pub open spec fn form_key_spec(k: Key) -> Option<Message> {
    match k.code {
        KeyCode::Esc => Some(Message::FormCancel),
        KeyCode::Enter => Some(Message::FormSubmit),
        KeyCode::Tab | KeyCode::Down => Some(Message::FormNextField),
        KeyCode::BackTab | KeyCode::Up => Some(Message::FormPrevField),
        KeyCode::Backspace => Some(Message::FormBackspace),
        KeyCode::Char('a') if k.ctrl => Some(Message::FormAddForward),
        KeyCode::Char('d') if k.ctrl => Some(Message::FormDeleteForward),
        KeyCode::Char('t') if k.ctrl => Some(Message::FormCycleForwardType),
        KeyCode::Char(c) => Some(Message::FormInput(c)),
        _ => None,
    }
}

/// Whether a key quits: `q`, or Control-C.
pub open spec fn is_quit_key(k: Key) -> bool {
    k.code == KeyCode::Char('q') || (k.code == KeyCode::Char('c') && k.ctrl)
}

/// The message of a key press: in demo mode only quitting is possible;
/// otherwise it depends on the mode.
pub open spec fn key_message_spec(mode: AppModeView, demo_mode: bool, k: Key) -> Option<Message> {
    if demo_mode {
        if is_quit_key(k) { Some(Message::Quit) } else { None }
    } else {
        match mode {
            AppModeView::Normal => normal_key_spec(k),
            AppModeView::TypeSelect(_) => type_select_key_spec(k),
            AppModeView::Form(_) => form_key_spec(k),
        }
    }
}

/// The message (if any) that a key press becomes.
pub fn key_message(mode: &AppMode, demo_mode: bool, k: Key) -> (r: Option<Message>)
    ensures
        r == key_message_spec(mode@, demo_mode, k),
{
    if demo_mode {
        let quit = match k.code {
            KeyCode::Char('q') => true,
            KeyCode::Char('c') => k.ctrl,
            _ => false,
        };
        return if quit { Some(Message::Quit) } else { None };
    }
    match mode {
        AppMode::Normal => match k.code {
            KeyCode::Char('q') => Some(Message::Quit),
            KeyCode::Up | KeyCode::Char('k') => Some(Message::NavigateUp),
            KeyCode::Down | KeyCode::Char('j') => Some(Message::NavigateDown),
            KeyCode::Enter => Some(Message::ToggleConnect),
            KeyCode::Char('n') => Some(Message::NewEntry),
            KeyCode::Char('e') => Some(Message::EditEntry),
            KeyCode::Char('d') => Some(Message::DeleteEntry),
            KeyCode::Char('c') if k.ctrl => Some(Message::Quit),
            _ => None,
        },
        AppMode::TypeSelect(_) => match k.code {
            KeyCode::Esc => Some(Message::FormCancel),
            KeyCode::Enter => Some(Message::FormSubmit),
            KeyCode::Tab | KeyCode::Down | KeyCode::Char('j') => Some(Message::FormNextField),
            KeyCode::BackTab | KeyCode::Up | KeyCode::Char('k') => Some(Message::FormPrevField),
            KeyCode::Char('t') if k.ctrl => Some(Message::FormCycleForwardType),
            _ => None,
        },
        AppMode::Form(_) => match k.code {
            KeyCode::Esc => Some(Message::FormCancel),
            KeyCode::Enter => Some(Message::FormSubmit),
            KeyCode::Tab | KeyCode::Down => Some(Message::FormNextField),
            KeyCode::BackTab | KeyCode::Up => Some(Message::FormPrevField),
            KeyCode::Backspace => Some(Message::FormBackspace),
            KeyCode::Char('a') if k.ctrl => Some(Message::FormAddForward),
            KeyCode::Char('d') if k.ctrl => Some(Message::FormDeleteForward),
            KeyCode::Char('t') if k.ctrl => Some(Message::FormCycleForwardType),
            KeyCode::Char(c) => Some(Message::FormInput(c)),
            _ => None,
        },
    }
}

/// Law: in demo mode a key either quits or does nothing, so no key can
/// change an entry.
pub proof fn law_demo_keys_only_quit(mode: AppModeView, k: Key)
    ensures
        key_message_spec(mode, true, k) is None || key_message_spec(mode, true, k) == Some(Message::Quit),
{
}

} // verus!
