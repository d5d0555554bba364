//! What each key does in each view of the terminal UI.
//!
//! The caller reads key presses from the terminal and performs the file
//! work that a key leaves to it (see `KeyEffect`).
use vstd::prelude::*;
use vstd::view::View as _;

use crate::boot::backup::BackupData;
use crate::text::{pop_char, push_char};
use crate::tui::app::{
    applied_template, asked_to_delete, cache_refreshed, cancelled_confirm, confirmed,
    moved_selected, opened_backup_dialog, opened_create_form, opened_edit_form, opened_wizard,
    shows_status, submitted_backup_restore, FormMode, submitted_form, toggled_selected, App, BackupMode,
    FormField, View,
};

verus! {

/// The key of a key press.
#[derive(Clone, Copy, PartialEq, Eq, Structural, Debug)]
pub enum KeyCode {
    Char(char),
    Up,
    Down,
    Home,
    End,
    Enter,
    Esc,
    Tab,
    BackTab,
    Backspace,
    /// Any key the UI does not use.
    Other,
}

/// A key press: the key and whether Control was held.
#[derive(Clone, Copy, PartialEq, Eq, Structural, Debug)]
pub struct Key {
    pub code: KeyCode,
    pub ctrl: bool,
}

/// File work that a key leaves to the caller.
#[derive(Debug)]
pub enum KeyEffect {
    /// Nothing to do.
    Nothing,
    /// Serialize this backup, write it to the app's `backup_path` and report
    /// the outcome with `App::finish_backup`.
    WriteBackup(BackupData),
    /// Read and parse the backup file at this path and hand the outcome to
    /// `App::restore_loaded`.
    LoadBackup(String),
}

/// The key is the character `c`.
pub open spec fn is_char(key: Key, c: char) -> bool {
    key.code == KeyCode::Char(c)
}

/// The key moves up: the arrow or `k`.
pub open spec fn is_up(key: Key) -> bool {
    key.code == KeyCode::Up || is_char(key, 'k')
}

/// The key moves down: the arrow or `j`.
pub open spec fn is_down(key: Key) -> bool {
    key.code == KeyCode::Down || is_char(key, 'j')
}

/// The state differs from `before` at most in the view.
pub open spec fn shows_view(before: App, after: App, view: View) -> bool {
    after == App { view, ..before }
}

/// What a key does in the entry list.
///
/// In reorder mode the up and down keys move the selected entry in the boot
/// order, and `Esc` or `o` leave the mode. Otherwise: `q`/`Esc` quit; the
/// up/down keys, `Home` and `End` move the selection; `Enter` opens the
/// selected entry; `n`, `w`, `e`, `d`, space, `b` and `r` create, open the
/// wizard, edit, delete, toggle, back up and restore; `o` enters reorder
/// mode; `R` reloads the entries; `?` shows the help.
pub open spec fn entry_list_outcome(before: App, after: App, key: Key) -> bool {
    let n = before.entries@.len();
    if before.reorder_mode {
        if is_up(key) {
            moved_selected(before, after, true)
        } else if is_down(key) {
            moved_selected(before, after, false)
        } else if key.code == KeyCode::Esc || is_char(key, 'o') {
            &&& after == (App {
                reorder_mode: false,
                status_message: after.status_message,
                status_is_error: after.status_is_error,
                ..before
            })
            &&& shows_status(after, "Reorder mode off"@)
        } else {
            after == before
        }
    } else if is_char(key, 'q') || key.code == KeyCode::Esc {
        after == App { should_quit: true, ..before }
    } else if is_up(key) {
        after == App {
            selected: if before.selected > 0 {
                (before.selected - 1) as usize
            } else {
                before.selected
            },
            ..before
        }
    } else if is_down(key) {
        after == App {
            selected: if before.selected + 1 < n {
                (before.selected + 1) as usize
            } else {
                before.selected
            },
            ..before
        }
    } else if key.code == KeyCode::Home {
        after == App { selected: 0, ..before }
    } else if key.code == KeyCode::End {
        after == App { selected: if n > 0 { (n - 1) as usize } else { before.selected }, ..before }
    } else if key.code == KeyCode::Enter {
        if before.selected < n {
            shows_view(before, after, View::EntryDetail)
        } else {
            after == before
        }
    } else if is_char(key, 'n') {
        opened_create_form(before, after)
    } else if is_char(key, 'w') {
        opened_wizard(before, after)
    } else if is_char(key, 'e') {
        opened_edit_form(before, after)
    } else if is_char(key, 'd') {
        asked_to_delete(before, after)
    } else if is_char(key, ' ') {
        toggled_selected(before, after)
    } else if is_char(key, 'o') {
        &&& after == (App {
            reorder_mode: true,
            status_message: after.status_message,
            status_is_error: after.status_is_error,
            ..before
        })
        &&& shows_status(after, "Reorder mode: ↑↓ to move, Esc to finish"@)
    } else if is_char(key, 'b') {
        opened_backup_dialog(before, after, BackupMode::Backup)
    } else if is_char(key, 'r') {
        opened_backup_dialog(before, after, BackupMode::Restore)
    } else if is_char(key, 'R') {
        &&& cache_refreshed(after, before, before.vars())
        &&& shows_status(after, "Refreshed"@)
        &&& after.vars() == before.vars()
        &&& after.view == before.view
    } else if is_char(key, '?') {
        shows_view(before, after, View::Help)
    } else {
        after == before
    }
}

/// The text of a form field.
pub open spec fn field_text(app: App, field: FormField) -> Seq<char> {
    match field {
        FormField::Description => app.form_description@,
        FormField::Loader => app.form_loader@,
        FormField::Partition => app.form_partition@,
    }
}

/// `after` differs from `before` at most in the text of the focused form
/// field, which is now `text`.
pub open spec fn field_edited(before: App, after: App, text: Seq<char>) -> bool {
    &&& field_text(after, before.form_field) == text
    &&& match before.form_field {
        FormField::Description => after == App { form_description: after.form_description, ..before },
        FormField::Loader => after == App { form_loader: after.form_loader, ..before },
        FormField::Partition => after == App { form_partition: after.form_partition, ..before },
    }
}

/// What a key does in the entry form: `Esc` leaves it, `Tab` and
/// `BackTab` move between fields, `Enter` saves on the last field or with
/// Control (else moves to the next field), `Backspace` and characters edit
/// the focused field.
pub open spec fn form_outcome(before: App, after: App, key: Key) -> bool {
    let text = field_text(before, before.form_field);
    match key.code {
        KeyCode::Esc => shows_view(before, after, View::EntryList),
        KeyCode::Tab => after == App { form_field: before.form_field.following(), ..before },
        KeyCode::BackTab => after == App { form_field: before.form_field.preceding(), ..before },
        KeyCode::Enter => if key.ctrl || before.form_field == FormField::Partition {
            submitted_form(before, after)
        } else {
            after == App { form_field: before.form_field.following(), ..before }
        },
        KeyCode::Backspace => field_edited(
            before,
            after,
            if text.len() == 0 {
                text
            } else {
                text.drop_last()
            },
        ),
        KeyCode::Char(c) => field_edited(before, after, text.push(c)),
        _ => after == before,
    }
}

/// What a key does in the backup/restore dialog: `Esc` leaves it, `Enter`
/// submits it (a backup to write is handed back), `Backspace` and
/// characters edit the file name.
pub open spec fn backup_dialog_outcome(before: App, after: App, key: Key, effect: KeyEffect) -> bool {
    match key.code {
        KeyCode::Esc => shows_view(before, after, View::EntryList) && effect is Nothing,
        KeyCode::Enter => match effect {
            KeyEffect::Nothing => submitted_backup_restore(before, after, None),
            KeyEffect::WriteBackup(data) => submitted_backup_restore(before, after, Some(data)),
            KeyEffect::LoadBackup(_) => false,
        },
        KeyCode::Backspace => effect is Nothing && after.backup_path@ == if before.backup_path@.len()
            == 0 {
            before.backup_path@
        } else {
            before.backup_path@.drop_last()
        } && after == App { backup_path: after.backup_path, ..before },
        KeyCode::Char(c) => effect is Nothing && after.backup_path@ == before.backup_path@.push(c)
            && after == App { backup_path: after.backup_path, ..before },
        _ => after == before && effect is Nothing,
    }
}

/// What a key does in the confirmation dialog: `y` or `Enter` carries the
/// action out (a restore's path is handed back), `n` or `Esc` dismisses it.
pub open spec fn confirm_outcome(before: App, after: App, key: Key, effect: KeyEffect) -> bool {
    if is_char(key, 'y') || key.code == KeyCode::Enter {
        match effect {
            KeyEffect::Nothing => confirmed(before, after, None),
            KeyEffect::LoadBackup(p) => confirmed(before, after, Some(p)),
            KeyEffect::WriteBackup(_) => false,
        }
    } else if is_char(key, 'n') || key.code == KeyCode::Esc {
        cancelled_confirm(before, after) && effect is Nothing
    } else {
        after == before && effect is Nothing
    }
}

/// What a key does in the wizard: `Esc` or `q` leave it, the up/down keys
/// move between templates, `Enter` fills a new-entry form from the selected
/// template.
pub open spec fn wizard_outcome(before: App, after: App, key: Key) -> bool {
    if key.code == KeyCode::Esc || is_char(key, 'q') {
        shows_view(before, after, View::EntryList)
    } else if is_up(key) {
        after == App {
            wizard_selected: if before.wizard_selected > 0 {
                (before.wizard_selected - 1) as usize
            } else {
                before.wizard_selected
            },
            ..before
        }
    } else if is_down(key) {
        after == App {
            wizard_selected: if before.wizard_selected + 1 < before.wizard_templates@.len() {
                (before.wizard_selected + 1) as usize
            } else {
                before.wizard_selected
            },
            ..before
        }
    } else if key.code == KeyCode::Enter {
        applied_template(before, after, before.wizard_selected)
    } else {
        after == before
    }
}

/// What a key does: Control-C quits from any view; otherwise the key is
/// handled by the current view.
pub open spec fn key_outcome(before: App, after: App, key: Key, effect: KeyEffect) -> bool {
    if key.ctrl && is_char(key, 'c') {
        after == App { should_quit: true, ..before } && effect is Nothing
    } else {
        match before.view {
            View::EntryList => entry_list_outcome(before, after, key) && effect is Nothing,
            View::EntryDetail => effect is Nothing && if key.code == KeyCode::Esc || key.code
                == KeyCode::Enter || is_char(key, 'q') {
                shows_view(before, after, View::EntryList)
            } else {
                after == before
            },
            View::EntryForm => form_outcome(before, after, key) && effect is Nothing,
            View::BackupRestore => backup_dialog_outcome(before, after, key, effect),
            View::Help => effect is Nothing && if key.code == KeyCode::Esc || is_char(key, 'q')
                || is_char(key, '?') {
                shows_view(before, after, View::EntryList)
            } else {
                after == before
            },
            View::Confirm => confirm_outcome(before, after, key, effect),
            View::Wizard => wizard_outcome(before, after, key) && effect is Nothing,
        }
    }
}

/// Handles one key press.
pub fn handle_key(app: &mut App, key: Key) -> (effect: KeyEffect)
    ensures
        key_outcome(*old(app), *final(app), key, effect),
{
    if key.ctrl && key.code == KeyCode::Char('c') {
        app.should_quit = true;
        return KeyEffect::Nothing;
    }
    match app.view {
        View::EntryList => {
            handle_entry_list_key(app, key);
            KeyEffect::Nothing
        },
        View::EntryDetail => {
            match key.code {
                KeyCode::Esc | KeyCode::Enter | KeyCode::Char('q') => app.view = View::EntryList,
                _ => {},
            }
            KeyEffect::Nothing
        },
        View::EntryForm => {
            handle_form_key(app, key);
            KeyEffect::Nothing
        },
        View::BackupRestore => handle_backup_key(app, key),
        View::Help => {
            match key.code {
                KeyCode::Esc | KeyCode::Char('q') | KeyCode::Char('?') => app.view = View::EntryList,
                _ => {},
            }
            KeyEffect::Nothing
        },
        View::Confirm => handle_confirm_key(app, key),
        View::Wizard => {
            handle_wizard_key(app, key);
            KeyEffect::Nothing
        },
    }
}

fn handle_entry_list_key(app: &mut App, key: Key)
    ensures
        entry_list_outcome(*old(app), *final(app), key),
{
    if app.reorder_mode {
        match key.code {
            KeyCode::Up | KeyCode::Char('k') => app.move_selected_up(),
            KeyCode::Down | KeyCode::Char('j') => app.move_selected_down(),
            KeyCode::Esc | KeyCode::Char('o') => {
                app.reorder_mode = false;
                app.set_status(String::from_str("Reorder mode off"));
            },
            _ => {},
        }
        return ;
    }
    match key.code {
        KeyCode::Char('q') | KeyCode::Esc => app.should_quit = true,
        KeyCode::Up | KeyCode::Char('k') => {
            if app.selected > 0 {
                app.selected = app.selected - 1;
            }
        },
        KeyCode::Down | KeyCode::Char('j') => {
            if app.selected < app.entries.len() && app.entries.len() - app.selected > 1 {
                app.selected = app.selected + 1;
            }
        },
        KeyCode::Home => app.selected = 0,
        KeyCode::End => {
            if app.entries.len() > 0 {
                app.selected = app.entries.len() - 1;
            }
        },
        KeyCode::Enter => {
            if app.selected_entry().is_some() {
                app.view = View::EntryDetail;
            }
        },
        KeyCode::Char('n') => app.open_create_form(),
        KeyCode::Char('w') => app.open_wizard(),
        KeyCode::Char('e') => app.open_edit_form(),
        KeyCode::Char('d') => app.delete_selected(),
        KeyCode::Char(' ') => app.toggle_selected_active(),
        KeyCode::Char('o') => {
            app.reorder_mode = true;
            app.set_status(String::from_str("Reorder mode: ↑↓ to move, Esc to finish"));
        },
        KeyCode::Char('b') => app.open_backup(),
        KeyCode::Char('r') => app.open_restore(),
        KeyCode::Char('R') => {
            app.refresh_entries();
            app.set_status(String::from_str("Refreshed"));
        },
        KeyCode::Char('?') => app.view = View::Help,
        _ => {},
    }
}

fn handle_form_key(app: &mut App, key: Key)
    ensures
        form_outcome(*old(app), *final(app), key),
{
    match key.code {
        KeyCode::Esc => app.view = View::EntryList,
        KeyCode::Tab => app.form_field = app.form_field.next(),
        KeyCode::BackTab => app.form_field = app.form_field.prev(),
        KeyCode::Enter => {
            if key.ctrl || app.form_field == FormField::Partition {
                app.submit_form();
            } else {
                app.form_field = app.form_field.next();
            }
        },
        KeyCode::Backspace => {
            match app.form_field {
                FormField::Description => {
                    pop_char(&mut app.form_description);
                },
                FormField::Loader => {
                    pop_char(&mut app.form_loader);
                },
                FormField::Partition => {
                    pop_char(&mut app.form_partition);
                },
            }
        },
        KeyCode::Char(c) => {
            match app.form_field {
                FormField::Description => push_char(&mut app.form_description, c),
                FormField::Loader => push_char(&mut app.form_loader, c),
                FormField::Partition => push_char(&mut app.form_partition, c),
            }
        },
        _ => {},
    }
}

fn handle_backup_key(app: &mut App, key: Key) -> (effect: KeyEffect)
    ensures
        backup_dialog_outcome(*old(app), *final(app), key, effect),
{
    match key.code {
        KeyCode::Esc => {
            app.view = View::EntryList;
            KeyEffect::Nothing
        },
        KeyCode::Enter => match app.submit_backup_restore() {
            Some(data) => KeyEffect::WriteBackup(data),
            None => KeyEffect::Nothing,
        },
        KeyCode::Backspace => {
            pop_char(&mut app.backup_path);
            KeyEffect::Nothing
        },
        KeyCode::Char(c) => {
            push_char(&mut app.backup_path, c);
            KeyEffect::Nothing
        },
        _ => KeyEffect::Nothing,
    }
}

fn handle_confirm_key(app: &mut App, key: Key) -> (effect: KeyEffect)
    ensures
        confirm_outcome(*old(app), *final(app), key, effect),
{
    match key.code {
        KeyCode::Char('y') | KeyCode::Enter => match app.execute_confirm() {
            Some(path) => KeyEffect::LoadBackup(path),
            None => KeyEffect::Nothing,
        },
        KeyCode::Char('n') | KeyCode::Esc => {
            app.cancel_confirm();
            KeyEffect::Nothing
        },
        _ => KeyEffect::Nothing,
    }
}

fn handle_wizard_key(app: &mut App, key: Key)
    ensures
        wizard_outcome(*old(app), *final(app), key),
{
    match key.code {
        KeyCode::Esc | KeyCode::Char('q') => app.view = View::EntryList,
        KeyCode::Up | KeyCode::Char('k') => {
            if app.wizard_selected > 0 {
                app.wizard_selected = app.wizard_selected - 1;
            }
        },
        KeyCode::Down | KeyCode::Char('j') => {
            if app.wizard_selected < app.wizard_templates.len() && app.wizard_templates.len()
                - app.wizard_selected > 1 {
                app.wizard_selected = app.wizard_selected + 1;
            }
        },
        KeyCode::Enter => {
            let idx = app.wizard_selected;
            app.apply_wizard_template(idx);
        },
        _ => {},
    }
}

/// Opening the help (`?`) or the selected entry's details (`Enter`) from
/// the entry list and closing it again with `Esc` gives back the state the
/// list was in.
pub proof fn law_overlay_round_trip(
    before: App,
    mid: App,
    after: App,
    open: Key,
    close: Key,
    e1: KeyEffect,
    e2: KeyEffect,
)
    requires
        before.view == View::EntryList,
        !before.reorder_mode,
        !open.ctrl,
        is_char(open, '?') || (open.code == KeyCode::Enter && before.selected
            < before.entries@.len()),
        close.code == KeyCode::Esc,
        key_outcome(before, mid, open, e1),
        key_outcome(mid, after, close, e2),
    ensures
        mid.view == (if is_char(open, '?') {
            View::Help
        } else {
            View::EntryDetail
        }),
        after == before,
{
}

/// In the entry list, the keys that move the selection (up, down, `Home`,
/// `End`) keep it on an entry of a non-empty list and change nothing else.
pub proof fn law_navigation_stays_in_list(before: App, after: App, key: Key, e: KeyEffect)
    requires
        before.view == View::EntryList,
        !before.reorder_mode,
        !key.ctrl,
        is_up(key) || is_down(key) || key.code == KeyCode::Home || key.code == KeyCode::End,
        before.selected < before.entries@.len(),
        key_outcome(before, after, key, e),
    ensures
        after.selected < after.entries@.len(),
        after == (App { selected: after.selected, ..before }),
{
}

/// The selection is on an entry, unless the list is empty.
pub open spec fn selection_in_list(app: App) -> bool {
    app.entries@.len() == 0 || app.selected < app.entries@.len()
}

/// Whatever key is pressed in whatever view, a selection on an entry of the
/// list stays on an entry of the (possibly reloaded) list.
pub proof fn law_keys_keep_selection_in_list(before: App, after: App, key: Key, e: KeyEffect)
    requires
        selection_in_list(before),
        key_outcome(before, after, key, e),
    ensures
        selection_in_list(after),
{
    if !(key.ctrl && is_char(key, 'c')) && before.view == View::EntryForm {
        if key.code == KeyCode::Enter && (key.ctrl || before.form_field == FormField::Partition) {
            if before.form_mode == FormMode::Create {
                assert(selection_in_list(after));
            }
        }
    }
}

} // verus!
