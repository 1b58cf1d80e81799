//! Mode-dependent handling of key intents.
//!
//! The terminal adapter decodes raw key events into plain `Key` values;
//! everything that happens from there on — which keys mean anything in
//! the current mode, and which operation they trigger — is decided here.
//! The per-mode step relations below pin the whole dispatch table: each
//! recognized key performs exactly its operation's effect, and a key
//! that means nothing in the current mode leaves the application
//! untouched, never an error.

use vstd::prelude::*;

use crate::app::{App, InputMode};

verus! {

/// One decoded key press.
#[derive(Clone, Copy, Debug, PartialEq, Eq, Structural)]
pub enum Key {
    Char(char),
    CtrlChar(char),
    Enter,
    Esc,
    Backspace,
    Tab,
    Up,
    Down,
    Left,
    Right,
}

/// The keys that mean something while browsing.
pub open spec fn normal_recognized(key: Key) -> bool {
    ||| key == Key::Char('q')
    ||| key == Key::Char('Q')
    ||| key == Key::Char('h')
    ||| key == Key::Char('l')
    ||| key == Key::Char('j')
    ||| key == Key::Char('k')
    ||| key == Key::Char('n')
    ||| key == Key::Char('N')
    ||| key == Key::Char('d')
    ||| key == Key::Char('D')
    ||| key == Key::Char('m')
    ||| key == Key::Char('M')
    ||| key == Key::Left
    ||| key == Key::Right
    ||| key == Key::Up
    ||| key == Key::Down
    ||| key == Key::Enter
}

/// What one key press does while browsing: each recognized key performs
/// exactly its operation; anything else changes nothing.
pub open spec fn normal_step(pre: App, post: App, key: Key) -> bool {
    &&& (key == Key::Char('q') || key == Key::Char('Q') ==> App::quit_effect(pre, post))
    &&& (key == Key::Char('h') || key == Key::Left ==> App::select_left_effect(pre, post))
    &&& (key == Key::Char('l') || key == Key::Right ==> App::select_right_effect(pre, post))
    &&& (key == Key::Char('j') || key == Key::Down ==> App::select_down_effect(pre, post))
    &&& (key == Key::Char('k') || key == Key::Up ==> App::select_up_effect(pre, post))
    &&& (key == Key::Char('n') || key == Key::Char('N') ==> App::start_adding_effect(pre, post))
    &&& (key == Key::Enter ==> App::start_editing_effect(pre, post))
    &&& (key == Key::Char('d') || key == Key::Char('D') ==> App::delete_selected_effect(
        pre,
        post,
    ))
    &&& (key == Key::Char('m') ==> App::start_moving_effect(pre, post))
    &&& (key == Key::Char('M') ==> App::move_prev_effect(pre, post))
    &&& (!normal_recognized(key) ==> post == pre)
}

/// The keys that mean something in an open add/edit form.
pub open spec fn form_recognized(key: Key) -> bool {
    ||| key == Key::Enter
    ||| key == Key::Esc
    ||| key == Key::Backspace
    ||| key == Key::Tab
    ||| key == Key::Up
    ||| key == Key::Down
    ||| key matches Key::Char(_)
    ||| key == Key::CtrlChar('c')
}

/// What one key press does in an open add/edit form: Enter confirms the
/// active form (a blank staged title leaves everything unchanged with
/// the form open), Esc and Ctrl-c cancel, characters and backspace edit
/// the focused field, Tab and the vertical arrows cycle focus; anything
/// else changes nothing.
pub open spec fn form_step(pre: App, post: App, key: Key) -> bool {
    &&& (key == Key::Enter && pre.input_mode == InputMode::AddingTask
        ==> App::finish_adding_effect(pre, post))
    &&& (key == Key::Enter && pre.input_mode == InputMode::Editing ==> App::finish_editing_effect(
        pre,
        post,
    ))
    &&& (key == Key::Esc || key == Key::CtrlChar('c') ==> App::cancel_effect(pre, post))
    &&& (key matches Key::Char(c) ==> App::append_char_effect(pre, post, c))
    &&& (key == Key::Backspace ==> App::backspace_effect(pre, post))
    &&& (key == Key::Tab || key == Key::Down ==> App::field_next_effect(pre, post))
    &&& (key == Key::Up ==> App::field_prev_effect(pre, post))
    &&& (!form_recognized(key) ==> post == pre)
}

/// The keys that mean something while choosing a move target.
pub open spec fn moving_recognized(key: Key) -> bool {
    ||| key == Key::Char('m')
    ||| key == Key::Char('h')
    ||| key == Key::Char('l')
    ||| key == Key::Esc
    ||| key == Key::Left
    ||| key == Key::Right
}

/// What one key press does while choosing a move target: `m` confirms
/// the move, Esc cancels it, the horizontal keys shift the target;
/// anything else changes nothing.
pub open spec fn moving_step(pre: App, post: App, key: Key) -> bool {
    &&& (key == Key::Char('m') ==> App::confirm_move_effect(pre, post))
    &&& (key == Key::Esc ==> App::cancel_effect(pre, post))
    &&& (key == Key::Char('h') || key == Key::Left ==> App::target_left_effect(pre, post))
    &&& (key == Key::Char('l') || key == Key::Right ==> App::target_right_effect(pre, post))
    &&& (!moving_recognized(key) ==> post == pre)
}

/// Dispatches one key press to the operation it means in the current
/// mode, exactly as the per-mode step relations state. Every invariant
/// of the application survives, and only `q`/`Q` in normal mode ask the
/// session to end.
pub fn handle_key_events(key: Key, app: &mut App)
    requires
        old(app).wf(),
    ensures
        final(app).wf(),
        old(app).input_mode == InputMode::Normal ==> normal_step(*old(app), *final(app), key),
        old(app).input_mode == InputMode::AddingTask || old(app).input_mode == InputMode::Editing
            ==> form_step(*old(app), *final(app), key),
        old(app).input_mode == InputMode::MovingTask ==> moving_step(*old(app), *final(app), key),
        final(app).should_quit == (old(app).should_quit || (old(app).input_mode
            == InputMode::Normal && (key == Key::Char('q') || key == Key::Char('Q')))),
{
    match app.input_mode {
        InputMode::Normal => handle_normal_mode(key, app),
        InputMode::AddingTask | InputMode::Editing => handle_input_mode(key, app),
        InputMode::MovingTask => handle_moving_mode(key, app),
    }
}

/// Browsing: navigation, task operations, and quitting.
fn handle_normal_mode(key: Key, app: &mut App)
    requires
        old(app).wf(),
        old(app).input_mode == InputMode::Normal,
    ensures
        final(app).wf(),
        normal_step(*old(app), *final(app), key),
        final(app).should_quit == (old(app).should_quit || key == Key::Char('q') || key
            == Key::Char('Q')),
{
    match key {
        Key::Char(c) => {
            if c == 'q' || c == 'Q' {
                app.quit();
            } else if c == 'h' {
                app.move_selection_left();
            } else if c == 'l' {
                app.move_selection_right();
            } else if c == 'j' {
                app.move_selection_down();
            } else if c == 'k' {
                app.move_selection_up();
            } else if c == 'n' || c == 'N' {
                app.start_adding_task();
            } else if c == 'd' || c == 'D' {
                app.delete_selected_task();
            } else if c == 'm' {
                app.start_moving_task();
            } else if c == 'M' {
                app.move_task_to_prev_column();
            }
        },
        Key::Left => app.move_selection_left(),
        Key::Right => app.move_selection_right(),
        Key::Down => app.move_selection_down(),
        Key::Up => app.move_selection_up(),
        Key::Enter => app.start_editing_task(),
        _ => {},
    }
}

/// An open add/edit form: typing into the focused field, cycling focus,
/// confirming, cancelling.
fn handle_input_mode(key: Key, app: &mut App)
    requires
        old(app).wf(),
        old(app).input_mode == InputMode::AddingTask || old(app).input_mode == InputMode::Editing,
    ensures
        final(app).wf(),
        form_step(*old(app), *final(app), key),
        final(app).should_quit == old(app).should_quit,
{
    match key {
        Key::Enter => {
            match app.input_mode {
                InputMode::AddingTask => app.finish_adding_task(),
                InputMode::Editing => app.finish_editing_task(),
                _ => {},
            }
        },
        Key::Esc => app.cancel_input(),
        Key::CtrlChar(c) => {
            if c == 'c' {
                app.cancel_input();
            }
        },
        Key::Char(c) => app.edit_append_char(c),
        Key::Backspace => app.edit_backspace(),
        Key::Tab => app.move_edit_field_next(),
        Key::Down => app.move_edit_field_next(),
        Key::Up => app.move_edit_field_prev(),
        _ => {},
    }
}

/// Choosing a destination column for the task being moved.
fn handle_moving_mode(key: Key, app: &mut App)
    requires
        old(app).wf(),
        old(app).input_mode == InputMode::MovingTask,
    ensures
        final(app).wf(),
        moving_step(*old(app), *final(app), key),
        final(app).should_quit == old(app).should_quit,
{
    match key {
        Key::Char(c) => {
            if c == 'm' {
                app.confirm_move_task();
            } else if c == 'h' {
                app.move_target_left();
            } else if c == 'l' {
                app.move_target_right();
            }
        },
        Key::Esc => app.cancel_input(),
        Key::Left => app.move_target_left(),
        Key::Right => app.move_target_right(),
        _ => {},
    }
}

} // verus!
