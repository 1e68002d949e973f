//! What each key does to the state of the viewer.

use vstd::prelude::*;

use crate::app::{App, Mode};

verus! {

/// A key press, as far as the viewer tells keys apart.
#[derive(Debug, Clone, Copy, PartialEq, Eq, Structural)]
pub enum Key {
    Char(char),
    Up,
    Down,
    Home,
    End,
    Enter,
    Esc,
    Backspace,
    Other,
}

/// What a key does in normal mode: `j`/`k` and the arrows move the
/// selection, `g`/`G` and Home/End jump to the ends, Enter folds the details,
/// `/` starts a filter; any other key does nothing.
pub open spec fn normal_effect(before: App, key: Key, after: App) -> bool {
    match key {
        Key::Char('j') | Key::Down => after == (App {
            selected: if before.selected + 1 < before.filtered.len() {
                (before.selected + 1) as usize
            } else {
                before.selected
            },
            ..before
        }),
        Key::Char('k') | Key::Up => after == (App {
            selected: if before.selected > 0 {
                (before.selected - 1) as usize
            } else {
                0
            },
            ..before
        }),
        Key::Char('g') | Key::Home => after == (App { selected: 0, ..before }),
        Key::Char('G') | Key::End => after == (App {
            selected: if before.filtered.len() > 0 {
                (before.filtered.len() - 1) as usize
            } else {
                before.selected
            },
            ..before
        }),
        Key::Enter => after == (App { details_expanded: !before.details_expanded, ..before }),
        Key::Char('/') => after == (App { mode: Mode::Filter, ..before }),
        _ => after == before,
    }
}

/// What a key does in filter mode: a character is added to the filter,
/// Backspace removes the last one, Esc drops the filter and leaves the mode,
/// Enter leaves the mode and keeps the filter; any other key does nothing.
pub open spec fn filter_effect(before: App, key: Key, after: App) -> bool {
    match key {
        Key::Esc => after.refiltered(before, Seq::empty()) && after.mode == Mode::Normal,
        Key::Backspace => after.refiltered(
            before,
            if before.filter@.len() > 0 {
                before.filter@.drop_last()
            } else {
                before.filter@
            },
        ) && after.mode == before.mode,
        Key::Char(c) => after.refiltered(before, before.filter@.push(c)) && after.mode
            == before.mode,
        Key::Enter => after == (App { mode: Mode::Normal, ..before }),
        _ => after == before,
    }
}

/// What a key does, by the mode it is pressed in.
pub open spec fn key_effect(before: App, key: Key, after: App) -> bool {
    match before.mode {
        Mode::Normal => normal_effect(before, key, after),
        Mode::Filter => filter_effect(before, key, after),
    }
}

/// Handle a key pressed in normal mode.
pub fn handle_normal(app: &mut App, key: Key)
    ensures
        normal_effect(*old(app), key, *final(app)),
        old(app).wf() ==> final(app).wf(),
{
    match key {
        Key::Char('j') | Key::Down => app.move_down(),
        Key::Char('k') | Key::Up => app.move_up(),
        Key::Char('g') | Key::Home => app.move_to_top(),
        Key::Char('G') | Key::End => app.move_to_bottom(),
        Key::Enter => app.toggle_details(),
        Key::Char('/') => app.enter_filter_mode(),
        _ => {},
    }
}

/// Handle a key pressed in filter mode.
pub fn handle_filter(app: &mut App, key: Key)
    ensures
        filter_effect(*old(app), key, *final(app)),
        old(app).wf() ==> final(app).wf(),
{
    match key {
        Key::Esc => app.exit_filter_mode(),
        Key::Backspace => app.filter_pop(),
        Key::Char(c) => app.filter_push(c),
        Key::Enter => {
            // Confirm the filter: back to normal mode, the filter stays.
            app.mode = Mode::Normal;
        },
        _ => {},
    }
}

/// Handle a key press in the mode the viewer is in.
pub fn handle_key(app: &mut App, key: Key)
    ensures
        key_effect(*old(app), key, *final(app)),
        old(app).wf() ==> final(app).wf(),
{
    match app.mode {
        Mode::Normal => handle_normal(app, key),
        Mode::Filter => handle_filter(app, key),
    }
}

/// Handle a key press and say whether the viewer is to quit: it quits on `q`
/// where that leaves it in normal mode.
pub fn on_key(app: &mut App, key: Key) -> (quit: bool)
    ensures
        key_effect(*old(app), key, *final(app)),
        old(app).wf() ==> final(app).wf(),
        quit == (final(app).mode == Mode::Normal && key == Key::Char('q')),
{
    handle_key(app, key);
    match (app.mode, key) {
        (Mode::Normal, Key::Char('q')) => true,
        _ => false,
    }
}

} // verus!
