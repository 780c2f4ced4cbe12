//! Abstract input events, and the mode-dependent key-to-event mapping.
//!
//! Polling the terminal for key presses is I/O and lives outside this
//! library; it hands the mapping a plain `Key`.

use vstd::prelude::*;

verus! {

/// A key press, reduced to what the mapping reads: the arrows, enter,
/// escape, backspace, a printable character, or anything else.
#[derive(PartialEq, Eq, Structural, Debug, Clone, Copy)]
pub enum Key {
    Char(char),
    Down,
    Up,
    Left,
    Right,
    Enter,
    Esc,
    Backspace,
    Other,
}

/// An abstract input event. `Idle` is the event of no input within the poll
/// timeout, or of a key with no meaning in the current mode.
#[derive(PartialEq, Eq, Structural, Debug, Clone, Copy)]
pub enum InputEvent {
    Quit,
    Down,
    Up,
    Left,
    Right,
    ToggleDone,
    ToggleExpand,
    EnableEditing,
    DisableEditing,
    Backspace,
    PromotePriority,
    DemotePriority,
    Char(char),
    TodoSplit,
    Idle,
}

/// What the event loop does after an event is applied: leave the loop,
/// persist the task list.
pub struct EventOutcome {
    pub quit: bool,
    pub save: bool,
}

/// The Normal-mode key map: `q` quits, arrows move, enter toggles done,
/// space expands, `e` edits, escape leaves editing, backspace deletes,
/// `p`/`l` promote/demote, `b` splits.
pub open spec fn normal_mode_event(code: Key) -> InputEvent {
    match code {
        Key::Char(c) => if c == 'q' {
            InputEvent::Quit
        } else if c == ' ' {
            InputEvent::ToggleExpand
        } else if c == 'e' {
            InputEvent::EnableEditing
        } else if c == 'p' {
            InputEvent::PromotePriority
        } else if c == 'l' {
            InputEvent::DemotePriority
        } else if c == 'b' {
            InputEvent::TodoSplit
        } else {
            InputEvent::Idle
        },
        Key::Down => InputEvent::Down,
        Key::Up => InputEvent::Up,
        Key::Left => InputEvent::Left,
        Key::Right => InputEvent::Right,
        Key::Enter => InputEvent::ToggleDone,
        Key::Esc => InputEvent::DisableEditing,
        Key::Backspace => InputEvent::Backspace,
        Key::Other => InputEvent::Idle,
    }
}

/// The Editing-mode key map: arrows move between fields and within the
/// field, escape saves and exits, backspace deletes, enter toggles done, any
/// other character is typed into the field.
pub open spec fn edit_mode_event(code: Key) -> InputEvent {
    match code {
        Key::Char(c) => InputEvent::Char(c),
        Key::Down => InputEvent::Down,
        Key::Up => InputEvent::Up,
        Key::Left => InputEvent::Left,
        Key::Right => InputEvent::Right,
        Key::Enter => InputEvent::ToggleDone,
        Key::Esc => InputEvent::DisableEditing,
        Key::Backspace => InputEvent::Backspace,
        Key::Other => InputEvent::Idle,
    }
}

pub fn match_key_code_for_normal_mode(code: Key) -> (r: InputEvent)
    ensures
        r == normal_mode_event(code),
{
    match code {
        Key::Char(c) => if c == 'q' {
            InputEvent::Quit
        } else if c == ' ' {
            InputEvent::ToggleExpand
        } else if c == 'e' {
            InputEvent::EnableEditing
        } else if c == 'p' {
            InputEvent::PromotePriority
        } else if c == 'l' {
            InputEvent::DemotePriority
        } else if c == 'b' {
            InputEvent::TodoSplit
        } else {
            InputEvent::Idle
        },
        Key::Down => InputEvent::Down,
        Key::Up => InputEvent::Up,
        Key::Left => InputEvent::Left,
        Key::Right => InputEvent::Right,
        Key::Enter => InputEvent::ToggleDone,
        Key::Esc => InputEvent::DisableEditing,
        Key::Backspace => InputEvent::Backspace,
        Key::Other => InputEvent::Idle,
    }
}

pub fn match_key_code_for_edit_mode(code: Key) -> (r: InputEvent)
    ensures
        r == edit_mode_event(code),
{
    match code {
        Key::Char(c) => InputEvent::Char(c),
        Key::Down => InputEvent::Down,
        Key::Up => InputEvent::Up,
        Key::Left => InputEvent::Left,
        Key::Right => InputEvent::Right,
        Key::Enter => InputEvent::ToggleDone,
        Key::Esc => InputEvent::DisableEditing,
        Key::Backspace => InputEvent::Backspace,
        Key::Other => InputEvent::Idle,
    }
}

} // verus!
