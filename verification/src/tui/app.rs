//! The state of the interactive terminal UI and its actions.
use vstd::prelude::*;
use vstd::view::View as _;

use crate::boot::backup::{
    restore_stopped, restores_exactly,backup_problem, export, is_export_of, restore, restored, validate, BackupData};
use crate::boot::entry::{malformed_content_text, parse_failure_text, BootEntryInfo};
use crate::boot::load_option::{
    decode_load_option, decoded_load_option, encoded_load_option, is_active, load_option_encodable,
    load_option_framed, parse_guid, parsed_guid, DevicePathList, DriveSignatureType, HardDrive,
    LoadOption, LoadOptionView, new_entry_view, new_entry_option_of,
};
use crate::boot::manager::{
    after_create, after_delete, create_stopped, deletes_exactly, boot_order_of, boot_var_name, id_is_free, lists_entries,
    order_or_empty, toggled, u16_le_bytes, u16_var, unencodable_text, BootManager, Vars,
};
use crate::error::{error_text, AppError};
use crate::text::{concat, decimal, format_decimal, format_hex4, hex4, push_str};

verus! {

/// Which view is currently active.
#[derive(Debug, Clone, Copy, PartialEq, Eq, Structural)]
pub enum View {
    EntryList,
    EntryDetail,
    EntryForm,
    BackupRestore,
    Help,
    Confirm,
    Wizard,
}

/// Sub-mode for the entry form.
#[derive(Debug, Clone, Copy, PartialEq, Eq, Structural)]
pub enum FormMode {
    Create,
    Edit,
}

/// Which field is focused in the entry form.
#[derive(Debug, Clone, Copy, PartialEq, Eq, Structural)]
pub enum FormField {
    Description,
    Loader,
    Partition,
}

impl FormField {
    /// The field after this one, wrapping from the last to the first.
    pub open spec fn following(self) -> Self {
        match self {
            FormField::Description => FormField::Loader,
            FormField::Loader => FormField::Partition,
            FormField::Partition => FormField::Description,
        }
    }

    /// The field before this one, wrapping from the first to the last.
    pub open spec fn preceding(self) -> Self {
        match self {
            FormField::Description => FormField::Partition,
            FormField::Loader => FormField::Description,
            FormField::Partition => FormField::Loader,
        }
    }

    /// The next field, wrapping from the last to the first.
    pub fn next(self) -> (r: Self)
        ensures
            r == self.following(),
    {
        match self {
            FormField::Description => FormField::Loader,
            FormField::Loader => FormField::Partition,
            FormField::Partition => FormField::Description,
        }
    }

    /// The previous field, wrapping from the first to the last.
    pub fn prev(self) -> (r: Self)
        ensures
            r == self.preceding(),
    {
        match self {
            FormField::Description => FormField::Partition,
            FormField::Loader => FormField::Description,
            FormField::Partition => FormField::Loader,
        }
    }
}

/// Moving to the previous field undoes moving to the next one and the other
/// way round, and three moves forward come back to the start.
pub proof fn law_form_field_cycle(f: FormField)
    ensures
        f.following().preceding() == f,
        f.preceding().following() == f,
        f.following().following().following() == f,
{
}

/// Sub-mode for backup/restore.
#[derive(Debug, Clone, Copy, PartialEq, Eq, Structural)]
pub enum BackupMode {
    Backup,
    Restore,
}

/// What a confirmation dialog confirms.
#[derive(Debug)]
pub enum ConfirmAction {
    DeleteEntry(u16),
    RestoreBackup(String),
}

/// Confirmation dialog context.
#[derive(Debug)]
pub struct ConfirmState {
    pub message: String,
    pub action: ConfirmAction,
}

/// A boot entry template offered by the wizard.
#[derive(Debug)]
pub struct WizardTemplate {
    pub label: String,
    pub description: String,
    pub loader: String,
}

/// The labels, descriptions and loader paths of the built-in templates.
pub open spec fn default_templates() -> Seq<(Seq<char>, Seq<char>, Seq<char>)> {
    seq![
        ("Windows Boot Manager"@, "Windows Boot Manager"@, "\\EFI\\Microsoft\\Boot\\bootmgfw.efi"@),
        ("Ubuntu (shim)"@, "Ubuntu"@, "\\EFI\\ubuntu\\shimx64.efi"@),
        ("Fedora (shim)"@, "Fedora"@, "\\EFI\\fedora\\shimx64.efi"@),
        ("Arch Linux"@, "Arch Linux"@, "\\EFI\\arch\\grubx64.efi"@),
        ("Debian (shim)"@, "Debian"@, "\\EFI\\debian\\shimx64.efi"@),
        ("openSUSE (shim)"@, "openSUSE"@, "\\EFI\\opensuse\\shimx64.efi"@),
        ("Generic GRUB"@, "GRUB"@, "\\EFI\\BOOT\\grubx64.efi"@),
    ]
}

fn template(label: &str, description: &str, loader: &str) -> (t: WizardTemplate)
    ensures
        t.label@ == label@,
        t.description@ == description@,
        t.loader@ == loader@,
{
    WizardTemplate {
        label: String::from_str(label),
        description: String::from_str(description),
        loader: String::from_str(loader),
    }
}

impl WizardTemplate {
    /// The built-in templates: Windows, Ubuntu, Fedora, Arch, Debian,
    /// openSUSE and generic GRUB.
    pub fn defaults() -> (r: Vec<WizardTemplate>)
        ensures
            r@.len() == default_templates().len(),
            forall|i: int|
                0 <= i < r@.len() ==> (#[trigger] r@[i]).label@ == default_templates()[i].0
                    && r@[i].description@ == default_templates()[i].1 && r@[i].loader@
                    == default_templates()[i].2,
    {
        let mut r: Vec<WizardTemplate> = Vec::new();
        r.push(
            template(
                "Windows Boot Manager",
                "Windows Boot Manager",
                "\\EFI\\Microsoft\\Boot\\bootmgfw.efi",
            ),
        );
        r.push(template("Ubuntu (shim)", "Ubuntu", "\\EFI\\ubuntu\\shimx64.efi"));
        r.push(template("Fedora (shim)", "Fedora", "\\EFI\\fedora\\shimx64.efi"));
        r.push(template("Arch Linux", "Arch Linux", "\\EFI\\arch\\grubx64.efi"));
        r.push(template("Debian (shim)", "Debian", "\\EFI\\debian\\shimx64.efi"));
        r.push(template("openSUSE (shim)", "openSUSE", "\\EFI\\opensuse\\shimx64.efi"));
        r.push(template("Generic GRUB", "GRUB", "\\EFI\\BOOT\\grubx64.efi"));
        r
    }

    /// The name shown in the wizard's list.
    pub fn label(&self) -> (r: &str)
        ensures
            r@ == self.label@,
    {
        self.label.as_str()
    }

    /// The description the entry gets.
    pub fn description(&self) -> (r: &str)
        ensures
            r@ == self.description@,
    {
        self.description.as_str()
    }

    /// The loader path the entry gets.
    pub fn loader(&self) -> (r: &str)
        ensures
            r@ == self.loader@,
    {
        self.loader.as_str()
    }
}

/// Why a backup file could not be written.
#[derive(Debug)]
pub enum BackupWriteError {
    /// The backup could not be serialized.
    Serialize(String),
    /// The file could not be written.
    Write(String),
}

/// Why a backup file could not be loaded.
#[derive(Debug)]
pub enum BackupLoadError {
    /// The file could not be read.
    Read(String),
    /// The file is not a backup in JSON form.
    Parse(String),
}

/// `"Boot"` followed by the four hex digits of the ID.
pub open spec fn boot_label(id: u16) -> Seq<char> {
    "Boot"@ + hex4(id)
}

fn boot_label_of(id: u16) -> (s: String)
    ensures
        s@ == boot_label(id),
{
    let mut s = String::from_str("Boot");
    let h = format_hex4(id);
    push_str(&mut s, h.as_str());
    s
}

/// `a + b + c` as a new string.
fn join3(a: &str, b: &str, c: &str) -> (s: String)
    ensures
        s@ == a@ + b@ + c@,
{
    let mut s = String::from_str(a);
    push_str(&mut s, b);
    push_str(&mut s, c);
    s
}

/// The message of an error, after a prefix.
fn error_message(prefix: &str, e: &AppError) -> (s: String)
    ensures
        s@ == prefix@ + error_text(*e),
{
    let m = e.message();
    concat(prefix, m.as_str())
}

/// Copies a list of IDs.
fn copy_ids(v: &Vec<u16>) -> (r: Vec<u16>)
    ensures
        r@ == v@,
{
    let mut r: Vec<u16> = Vec::new();
    let mut i: usize = 0;
    while i < v.len()
        invariant
            i <= v.len(),
            r@ == v@.take(i as int),
        decreases v.len() - i,
    {
        r.push(v[i]);
        i = i + 1;
        assert(r@ =~= v@.take(i as int));
    }
    assert(r@ =~= v@);
    r
}

/// Main application state.
pub struct App {
    pub mgr: BootManager,
    pub entries: Vec<BootEntryInfo>,
    pub boot_order: Vec<u16>,
    pub boot_current: Option<u16>,
    pub boot_next: Option<u16>,
    // Navigation
    pub view: View,
    pub selected: usize,
    pub should_quit: bool,
    // Status bar
    pub status_message: Option<String>,
    pub status_is_error: bool,
    // Entry form state
    pub form_mode: FormMode,
    pub form_field: FormField,
    pub form_description: String,
    pub form_loader: String,
    pub form_partition: String,
    pub form_edit_id: Option<u16>,
    // Backup/restore state
    pub backup_mode: BackupMode,
    pub backup_path: String,
    // Reorder mode
    pub reorder_mode: bool,
    // Confirm dialog
    pub confirm: Option<ConfirmState>,
    // Wizard state
    pub wizard_selected: usize,
    pub wizard_templates: Vec<WizardTemplate>,
}

/// The status bar shows `text` as a normal message.
pub open spec fn shows_status(app: App, text: Seq<char>) -> bool {
    app.status_message matches Some(m) && m@ == text && !app.status_is_error
}

/// The status bar shows `text` as an error.
pub open spec fn shows_error(app: App, text: Seq<char>) -> bool {
    app.status_message matches Some(m) && m@ == text && app.status_is_error
}

/// The status bar shows an error whose text starts with `prefix` and goes
/// on with the text of some application error.
pub open spec fn shows_error_after(app: App, prefix: Seq<char>) -> bool {
    app.status_message matches Some(m) && app.status_is_error && exists|e: AppError|
        m@ == prefix + #[trigger] error_text(e)
}

/// `app`'s cached order, `BootCurrent`, `BootNext` and entry list are read
/// from `vars` (an unreadable order counts as empty; when the entry list
/// cannot be read the old list is kept), and the selection stays inside a
/// non-empty list.
pub open spec fn cache_refreshed(app: App, before: App, vars: Vars) -> bool {
    &&& app.boot_order@ == order_or_empty(vars)
    &&& app.boot_current == u16_var(vars, "BootCurrent"@)
    &&& app.boot_next == u16_var(vars, "BootNext"@)
    &&& if boot_order_of(vars) is Some {
        &&& lists_entries(app.entries@, vars)
        &&& app.selected == if before.selected >= app.entries@.len() && app.entries@.len() > 0 {
            (app.entries@.len() - 1) as usize
        } else {
            before.selected
        }
    } else {
        &&& app.entries@ == before.entries@
        &&& app.selected == before.selected
    }
}

/// The cache of `app` is refreshed from `vars`; the status bar is kept, or
/// shows why the entry list could not be read.
pub open spec fn refreshed_from(app: App, before: App, vars: Vars) -> bool {
    &&& cache_refreshed(app, before, vars)
    &&& if boot_order_of(vars) is Some {
        &&& app.status_message == before.status_message
        &&& app.status_is_error == before.status_is_error
    } else {
        shows_error_after(app, "Failed to load entries: "@)
    }
}

/// The parts of the state that entry actions leave alone.
pub open spec fn same_ui(a: App, b: App) -> bool {
    &&& a.view == b.view
    &&& a.should_quit == b.should_quit
    &&& a.form_mode == b.form_mode
    &&& a.form_field == b.form_field
    &&& a.form_description@ == b.form_description@
    &&& a.form_loader@ == b.form_loader@
    &&& a.form_partition@ == b.form_partition@
    &&& a.form_edit_id == b.form_edit_id
    &&& a.backup_mode == b.backup_mode
    &&& a.backup_path@ == b.backup_path@
    &&& a.reorder_mode == b.reorder_mode
    &&& a.wizard_selected == b.wizard_selected
    &&& a.wizard_templates@.len() == b.wizard_templates@.len()
}

/// `after` differs from `before` at most in the status bar and in the
/// manager (whose variables the caller states).
pub open spec fn only_status_changed(before: App, after: App) -> bool {
    after == (App {
        mgr: after.mgr,
        status_message: after.status_message,
        status_is_error: after.status_is_error,
        ..before
    })
}

/// An empty new-entry form was opened; nothing else changed.
pub open spec fn opened_create_form(before: App, after: App) -> bool {
    &&& after == (App {
        form_mode: FormMode::Create,
        form_field: FormField::Description,
        form_description: after.form_description,
        form_loader: after.form_loader,
        form_partition: after.form_partition,
        form_edit_id: None,
        view: View::EntryForm,
        ..before
    })
    &&& after.form_description@.len() == 0
    &&& after.form_loader@.len() == 0
    &&& after.form_partition@.len() == 0
}

/// The form was opened on the selected entry's description, loader path and
/// partition GUID (empty when the entry has none), changing nothing else;
/// nothing happened when no entry is selected.
pub open spec fn opened_edit_form(before: App, after: App) -> bool {
    if before.selected < before.entries@.len() {
        let e = before.entries@[before.selected as int];
        &&& after == (App {
            form_mode: FormMode::Edit,
            form_field: FormField::Description,
            form_description: after.form_description,
            form_loader: after.form_loader,
            form_partition: after.form_partition,
            form_edit_id: Some(e.id),
            view: View::EntryForm,
            ..before
        })
        &&& after.form_description@ == e.description@
        &&& after.form_loader@ == match e.file_path {
            Some(p) => p@,
            None => Seq::<char>::empty(),
        }
        &&& after.form_partition@ == match e.partition_guid {
            Some(g) => g@,
            None => Seq::<char>::empty(),
        }
    } else {
        after == before
    }
}

/// Deleting the selected entry was put to confirmation ("Delete Boot####
/// (description)?"), changing nothing else; nothing happened when no entry
/// is selected.
pub open spec fn asked_to_delete(before: App, after: App) -> bool {
    if before.selected < before.entries@.len() {
        let e = before.entries@[before.selected as int];
        &&& after == (App { view: View::Confirm, confirm: after.confirm, ..before })
        &&& after.confirm matches Some(c) && c.message@ == "Delete "@ + boot_label(e.id) + " ("@
            + e.description@ + ")?"@ && c.action == ConfirmAction::DeleteEntry(e.id)
    } else {
        after == before
    }
}

/// The wizard was opened on its first template; nothing else changed.
pub open spec fn opened_wizard(before: App, after: App) -> bool {
    after == (App { wizard_selected: 0, view: View::Wizard, ..before })
}

/// A new-entry form was filled from the template at `idx`, changing
/// nothing else; nothing happened when there is no such template.
pub open spec fn applied_template(before: App, after: App, idx: usize) -> bool {
    if idx < before.wizard_templates@.len() {
        let t = before.wizard_templates@[idx as int];
        &&& after == (App {
            form_mode: FormMode::Create,
            form_field: FormField::Description,
            form_description: after.form_description,
            form_loader: after.form_loader,
            form_partition: after.form_partition,
            form_edit_id: None,
            view: View::EntryForm,
            ..before
        })
        &&& after.form_description@ == t.description@
        &&& after.form_loader@ == t.loader@
        &&& after.form_partition@.len() == 0
    } else {
        after == before
    }
}

/// The backup or restore dialog was opened with the default file name;
/// nothing else changed.
pub open spec fn opened_backup_dialog(before: App, after: App, mode: BackupMode) -> bool {
    &&& after == (App {
        backup_mode: mode,
        backup_path: after.backup_path,
        view: View::BackupRestore,
        ..before
    })
    &&& after.backup_path@ == "backup.json"@
}

/// The confirmation dialog was dismissed; nothing else changed.
pub open spec fn cancelled_confirm(before: App, after: App) -> bool {
    after == (App { confirm: None, view: View::EntryList, ..before })
}

/// The confirmed action was carried out (a delete), or handed back (the
/// path of a restore), and the entry list is shown again.
pub open spec fn confirmed(before: App, after: App, restore_path: Option<String>) -> bool {
    &&& after.view == View::EntryList
    &&& after.confirm is None
    &&& match before.confirm {
        None => restore_path is None && after == (App { view: View::EntryList, ..before }),
        Some(c) => match c.action {
            ConfirmAction::RestoreBackup(p) => restore_path matches Some(q) && q@ == p@ && after
                == (App { confirm: None, view: View::EntryList, ..before }),
            ConfirmAction::DeleteEntry(id) => restore_path is None && delete_outcome(
                App { confirm: None, view: View::EntryList, ..before },
                after,
                id,
            ),
        },
    }
}

/// The selected entry can move one place up (`up`) or down in the boot
/// order.
pub open spec fn can_move(app: App, up: bool) -> bool {
    if up {
        app.selected > 0 && app.entries@.len() > 1 && app.selected < app.boot_order@.len()
    } else {
        app.selected + 1 < app.entries@.len() && app.selected + 1 < app.boot_order@.len()
    }
}

/// The sequence with the items at `i` and `j` swapped.
pub open spec fn swap_items(s: Seq<u16>, i: int, j: int) -> Seq<u16> {
    s.update(i, s[j]).update(j, s[i])
}

/// The boot order with the selected position and its neighbour above
/// (`up`) or below swapped.
pub open spec fn swapped_order(app: App, up: bool) -> Seq<u16> {
    let i = app.selected as int;
    swap_items(app.boot_order@, i, if up { i - 1 } else { i + 1 })
}

/// Moving an entry up and then moving it (now one place higher) down again
/// gives back the boot order it started from.
pub proof fn law_move_down_undoes_move_up(order: Seq<u16>, i: int)
    requires
        0 < i < order.len(),
    ensures
        swap_items(swap_items(order, i, i - 1), i - 1, i) == order,
{
    assert(swap_items(swap_items(order, i, i - 1), i - 1, i) =~= order);
}

/// After the cache is refreshed from variables whose boot order can be
/// read, the selection lies inside the entry list unless the list is empty.
pub proof fn law_refresh_keeps_selection_in_list(after: App, before: App, vars: Vars)
    requires
        cache_refreshed(after, before, vars),
        boot_order_of(vars) is Some,
        after.entries@.len() > 0,
    ensures
        after.selected < after.entries@.len(),
{
}

/// The selected entry was swapped with its neighbour in `BootOrder` and the
/// selection moved with it (or the write failed); nothing happened when it
/// cannot move.
pub open spec fn moved_selected(before: App, after: App, up: bool) -> bool {
    &&& !can_move(before, up) ==> after == before
    &&& can_move(before, up) ==> {
        let vars = before.vars().insert("BootOrder"@, u16_le_bytes(swapped_order(before, up)));
        let moved = if up {
            (before.selected - 1) as usize
        } else {
            (before.selected + 1) as usize
        };
        ||| (shows_status(after, "Boot order updated"@) && cache_refreshed(
            after,
            App { selected: moved, ..before },
            vars,
        ) && after.vars() == vars)
        ||| (shows_error_after(after, "Reorder failed: "@) && only_status_changed(before, after)
            && !before.mgr.file_backed())
    }
    &&& same_ui(after, before)
}

/// The active flag of the selected entry was flipped (or why not was
/// shown); nothing happened when no entry is selected.
pub open spec fn toggled_selected(before: App, after: App) -> bool {
    &&& before.selected >= before.entries@.len() ==> after == before
    &&& before.selected < before.entries@.len() ==> toggle_outcome(
        before,
        after,
        before.entries@[before.selected as int].id,
    )
    &&& same_ui(after, before)
}

/// The form was saved (an entry created or edited) and the entry list is
/// shown again.
pub open spec fn submitted_form(before: App, after: App) -> bool {
    &&& after.view == View::EntryList
    &&& before.form_mode == FormMode::Create ==> create_outcome(before, after)
    &&& before.form_mode == FormMode::Edit ==> edit_outcome(before, after)
}

/// The backup/restore dialog was submitted: a restore was put to
/// confirmation, or the entries were exported for writing (or the export
/// failed) and the entry list is shown again.
pub open spec fn submitted_backup_restore(before: App, after: App, to_write: Option<BackupData>) -> bool {
    &&& after.vars() == before.vars()
    &&& before.backup_mode == BackupMode::Restore ==> {
        &&& to_write is None
        &&& after == (App { confirm: after.confirm, view: View::Confirm, ..before })
        &&& after.confirm matches Some(c) && c.message@ == "Restore from '"@ + before.backup_path@
            + "'? This will overwrite existing entries."@ && (c.action is RestoreBackup
            && c.action->RestoreBackup_0@ == before.backup_path@)
    }
    &&& before.backup_mode == BackupMode::Backup ==> {
        &&& after.view == View::EntryList
        &&& match to_write {
            Some(data) => is_export_of(data, before.vars()) && after == (App {
                view: View::EntryList,
                ..before
            }),
            None => shows_error_after(after, "Export failed: "@) && only_status_changed(
                App { view: View::EntryList, ..before },
                after,
            ),
        }
    }
}

impl App {
    /// The variables of the boot manager's store.
    pub open spec fn vars(&self) -> Vars {
        self.mgr.vars()
    }

    /// A fresh application state over the boot manager: the entry list
    /// view with nothing loaded yet.
    pub fn new(mgr: BootManager) -> (app: Self)
        ensures
            app.vars() == mgr.vars(),
            app.entries@.len() == 0,
            app.boot_order@.len() == 0,
            app.boot_current is None,
            app.boot_next is None,
            app.view == View::EntryList,
            app.selected == 0,
            !app.should_quit,
            app.status_message is None,
            !app.status_is_error,
            app.form_mode == FormMode::Create,
            app.form_field == FormField::Description,
            app.form_description@.len() == 0,
            app.form_loader@.len() == 0,
            app.form_partition@.len() == 0,
            app.form_edit_id is None,
            app.backup_mode == BackupMode::Backup,
            app.backup_path@.len() == 0,
            !app.reorder_mode,
            app.confirm is None,
            app.wizard_selected == 0,
            app.wizard_templates@.len() == default_templates().len(),
            forall|i: int|
                0 <= i < app.wizard_templates@.len() ==> (#[trigger] app.wizard_templates@[i]).label@
                    == default_templates()[i].0 && app.wizard_templates@[i].description@
                    == default_templates()[i].1 && app.wizard_templates@[i].loader@
                    == default_templates()[i].2,
    {
        App {
            mgr,
            entries: Vec::new(),
            boot_order: Vec::new(),
            boot_current: None,
            boot_next: None,
            view: View::EntryList,
            selected: 0,
            should_quit: false,
            status_message: None,
            status_is_error: false,
            form_mode: FormMode::Create,
            form_field: FormField::Description,
            form_description: String::new(),
            form_loader: String::new(),
            form_partition: String::new(),
            form_edit_id: None,
            backup_mode: BackupMode::Backup,
            backup_path: String::new(),
            reorder_mode: false,
            confirm: None,
            wizard_selected: 0,
            wizard_templates: WizardTemplate::defaults(),
        }
    }

    /// Refreshes the cached order, `BootCurrent`, `BootNext` and entries
    /// from the boot manager.
    pub fn refresh_entries(&mut self)
        ensures
            refreshed_from(*final(self), *old(self), old(self).vars()),
            final(self).vars() == old(self).vars(),
            same_ui(*final(self), *old(self)),
            final(self).confirm == old(self).confirm,
    {
        self.boot_order = match self.mgr.get_boot_order() {
            Ok(o) => o,
            Err(_) => Vec::new(),
        };
        self.boot_current = match self.mgr.get_boot_current() {
            Ok(c) => c,
            Err(_) => None,
        };
        self.boot_next = match self.mgr.get_boot_next() {
            Ok(n) => n,
            Err(_) => None,
        };
        match self.mgr.list_entries() {
            Ok(entries) => {
                self.entries = entries;
                if self.selected >= self.entries.len() && self.entries.len() > 0 {
                    self.selected = self.entries.len() - 1;
                }
            },
            Err(e) => {
                let m = error_message("Failed to load entries: ", &e);
                self.set_error(m);
            },
        }
    }

    /// Shows a normal message in the status bar.
    pub fn set_status(&mut self, msg: String)
        ensures
            final(self).status_message == Some(msg),
            !final(self).status_is_error,
            final(self).vars() == old(self).vars(),
            final(self).entries == old(self).entries,
            final(self).selected == old(self).selected,
            final(self).boot_order == old(self).boot_order,
            final(self).boot_current == old(self).boot_current,
            final(self).boot_next == old(self).boot_next,
            same_ui(*final(self), *old(self)),
            final(self).confirm == old(self).confirm,
            *final(self) == (App { status_message: Some(msg), status_is_error: false, ..*old(self) }),
    {
        self.status_message = Some(msg);
        self.status_is_error = false;
    }

    /// Shows an error message in the status bar.
    pub fn set_error(&mut self, msg: String)
        ensures
            final(self).status_message == Some(msg),
            final(self).status_is_error,
            final(self).vars() == old(self).vars(),
            final(self).entries == old(self).entries,
            final(self).selected == old(self).selected,
            final(self).boot_order == old(self).boot_order,
            final(self).boot_current == old(self).boot_current,
            final(self).boot_next == old(self).boot_next,
            same_ui(*final(self), *old(self)),
            final(self).confirm == old(self).confirm,
            *final(self) == (App { status_message: Some(msg), status_is_error: true, ..*old(self) }),
    {
        self.status_message = Some(msg);
        self.status_is_error = true;
    }

    /// Clears the status bar message.
    pub fn clear_status(&mut self)
        ensures
            final(self).status_message is None,
            final(self).status_is_error == old(self).status_is_error,
            final(self).vars() == old(self).vars(),
            final(self).entries == old(self).entries,
            final(self).selected == old(self).selected,
            same_ui(*final(self), *old(self)),
    {
        self.status_message = None;
    }

    /// The entry under the cursor, if the list has one there.
    pub fn selected_entry(&self) -> (r: Option<&BootEntryInfo>)
        ensures
            self.selected < self.entries@.len() ==> r == Some(&self.entries@[self.selected as int]),
            self.selected >= self.entries@.len() ==> r is None,
    {
        if self.selected < self.entries.len() {
            Some(&self.entries[self.selected])
        } else {
            None
        }
    }

    /// Asks to confirm deleting the selected entry.
    pub fn delete_selected(&mut self)
        ensures
            asked_to_delete(*old(self), *final(self)),
    {
        if self.selected < self.entries.len() {
            let id = self.entries[self.selected].id;
            let mut m = String::from_str("Delete ");
            push_str(&mut m, boot_label_of(id).as_str());
            push_str(&mut m, " (");
            push_str(&mut m, self.entries[self.selected].description.as_str());
            push_str(&mut m, ")?");
            self.confirm = Some(ConfirmState { message: m, action: ConfirmAction::DeleteEntry(id) });
            self.view = View::Confirm;
        }
    }

    fn delete_confirmed(&mut self, id: u16)
        ensures
            final(self).view == old(self).view,
            final(self).confirm == old(self).confirm,
            delete_outcome(*old(self), *final(self), id),
    {
        match self.mgr.delete_entry(id) {
            Ok(()) => {
                let mut m = String::from_str("Deleted ");
                let l = boot_label_of(id);
                push_str(&mut m, l.as_str());
                self.set_status(m);
                self.refresh_entries();
            },
            Err(e) => {
                let m = error_message("Delete failed: ", &e);
                self.set_error(m);
            },
        }
    }

    /// Carries out the confirmed action and returns to the entry list.
    ///
    /// A confirmed delete is done here; a confirmed restore needs its file
    /// read first, so its path is returned for the caller to load and hand
    /// to `restore_loaded`.
    pub fn execute_confirm(&mut self) -> (restore_path: Option<String>)
        ensures
            confirmed(*old(self), *final(self), restore_path),
    {
        let c = self.confirm.take();
        let r = match c {
            Some(ConfirmState { action: ConfirmAction::DeleteEntry(id), .. }) => {
                self.delete_confirmed(id);
                None
            },
            Some(ConfirmState { action: ConfirmAction::RestoreBackup(path), .. }) => Some(path),
            None => None,
        };
        self.view = View::EntryList;
        r
    }

    /// Dismisses the confirmation dialog.
    pub fn cancel_confirm(&mut self)
        ensures
            cancelled_confirm(*old(self), *final(self)),
    {
        self.confirm = None;
        self.view = View::EntryList;
    }

    /// Flips the active flag of the selected entry.
    pub fn toggle_selected_active(&mut self)
        ensures
            toggled_selected(*old(self), *final(self)),
    {
        if self.selected < self.entries.len() {
            let id = self.entries[self.selected].id;
            match self.mgr.toggle_active(id) {
                Ok(active) => {
                    let l = boot_label_of(id);
                    let m = if active {
                        concat(l.as_str(), " enabled")
                    } else {
                        concat(l.as_str(), " disabled")
                    };
                    self.set_status(m);
                    self.refresh_entries();
                },
                Err(e) => {
                    let m = error_message("Toggle failed: ", &e);
                    self.set_error(m);
                },
            }
        }
    }

    /// Swaps the selected entry with the one above it in `BootOrder` and
    /// moves the selection with it.
    pub fn move_selected_up(&mut self)
        ensures
            moved_selected(*old(self), *final(self), true),
    {
        if self.selected > 0 && self.entries.len() > 1 {
            let mut order = copy_ids(&self.boot_order);
            if self.selected < order.len() {
                let i = self.selected;
                let a = order[i];
                let b = order[i - 1];
                order.set(i, b);
                order.set(i - 1, a);
                match self.mgr.set_boot_order(order) {
                    Ok(()) => {
                        self.selected = self.selected - 1;
                        self.refresh_entries();
                        self.set_status(String::from_str("Boot order updated"));
                    },
                    Err(e) => {
                        let m = error_message("Reorder failed: ", &e);
                        self.set_error(m);
                    },
                }
            }
        }
    }

    /// Swaps the selected entry with the one below it in `BootOrder` and
    /// moves the selection with it.
    pub fn move_selected_down(&mut self)
        ensures
            moved_selected(*old(self), *final(self), false),
    {
        if self.selected < self.entries.len() && self.entries.len() - self.selected > 1 {
            let mut order = copy_ids(&self.boot_order);
            if self.selected < order.len() && order.len() - self.selected > 1 {
                let i = self.selected;
                let a = order[i];
                let b = order[i + 1];
                order.set(i, b);
                order.set(i + 1, a);
                match self.mgr.set_boot_order(order) {
                    Ok(()) => {
                        self.selected = self.selected + 1;
                        self.refresh_entries();
                        self.set_status(String::from_str("Boot order updated"));
                    },
                    Err(e) => {
                        let m = error_message("Reorder failed: ", &e);
                        self.set_error(m);
                    },
                }
            }
        }
    }

    /// Opens an empty form for a new entry.
    pub fn open_create_form(&mut self)
        ensures
            opened_create_form(*old(self), *final(self)),
    {
        self.form_mode = FormMode::Create;
        self.form_field = FormField::Description;
        self.form_description = String::new();
        self.form_loader = String::new();
        self.form_partition = String::new();
        self.form_edit_id = None;
        self.view = View::EntryForm;
    }

    /// Opens the form on the selected entry's description, loader path and
    /// partition GUID (empty when the entry has none).
    pub fn open_edit_form(&mut self)
        ensures
            opened_edit_form(*old(self), *final(self)),
    {
        if self.selected < self.entries.len() {
            let e = &self.entries[self.selected];
            let id = e.id;
            let desc = e.description.clone();
            let path = match &e.file_path {
                Some(p) => p.clone(),
                None => String::new(),
            };
            let guid = match &e.partition_guid {
                Some(g) => g.clone(),
                None => String::new(),
            };
            self.form_mode = FormMode::Edit;
            self.form_field = FormField::Description;
            self.form_description = desc;
            self.form_loader = path;
            self.form_partition = guid;
            self.form_edit_id = Some(id);
            self.view = View::EntryForm;
        }
    }

    /// Saves the form (creating or editing an entry) and returns to the
    /// entry list.
    pub fn submit_form(&mut self)
        ensures
            submitted_form(*old(self), *final(self)),
    {
        match self.form_mode {
            FormMode::Create => self.do_create(),
            FormMode::Edit => self.do_edit(),
        }
        self.view = View::EntryList;
    }

    fn do_create(&mut self)
        ensures
            create_outcome(*old(self), *final(self)),
    {
        if self.form_description.as_str().is_empty() || self.form_loader.as_str().is_empty() {
            self.set_error(String::from_str("Description and loader path are required"));
            return ;
        }
        let sig: u128 = if self.form_partition.as_str().is_empty() {
            0
        } else {
            match parse_guid(self.form_partition.as_str()) {
                Ok(g) => g,
                Err(e) => {
                    let m = concat("Invalid partition GUID: ", e.as_str());
                    self.set_error(m);
                    return ;
                },
            }
        };
        let id = match self.mgr.next_free_id() {
            Ok(id) => id,
            Err(e) => {
                let m = error_message("No free ID: ", &e);
                self.set_error(m);
                return ;
            },
        };
        let option = new_entry_option_of(self.form_description.as_str(), self.form_loader.as_str(), sig);
        let ghost o = option@;
        let ghost before = *self;
        match self.mgr.create_entry(id, option) {
            Ok(()) => {
                let l = boot_label_of(id);
                let mut m = join3("Created ", l.as_str(), ": ");
                push_str(&mut m, self.form_description.as_str());
                self.set_status(m);
                self.refresh_entries();
                assert(reported_then_refreshed(
                    *self,
                    before,
                    self.vars(),
                    "Created "@ + boot_label(id) + ": "@ + before.form_description@,
                ));
            },
            Err(e) => {
                let m = error_message("Create failed: ", &e);
                self.set_error(m);
            },
        }
        proof {
            assert(id_is_free(before.vars(), id));
        }
    }

    fn do_edit(&mut self)
        ensures
            edit_outcome(*old(self), *final(self)),
    {
        let id = match self.form_edit_id {
            Some(id) => id,
            None => {
                return ;
            },
        };
        let info = match self.mgr.get_entry(id) {
            Ok(info) => info,
            Err(e) => {
                let l = boot_label_of(id);
                let p = join3("Failed to read ", l.as_str(), ": ");
                let m = error_message(p.as_str(), &e);
                self.set_error(m);
                return ;
            },
        };
        let mut option = match decode_load_option(info.raw_bytes.as_slice()) {
            Ok(o) => o,
            Err(None) => {
                let m = String::from_str("Parse error: failed to parse variable content (invalid content)");
                self.set_error(m);
                return ;
            },
            Err(Some(t)) => {
                let m = concat("Parse error: ", t.as_str());
                self.set_error(m);
                return ;
            },
        };
        let mut changed = false;
        if option.description != self.form_description {
            option.description = self.form_description.clone();
            changed = true;
        }
        match &mut option.file_path_list {
            Some(fpl) => {
                if fpl.file_path != self.form_loader {
                    fpl.file_path = self.form_loader.clone();
                    changed = true;
                }
            },
            None => {},
        }
        if !changed {
            self.set_status(String::from_str("No changes"));
            return ;
        }
        match self.mgr.update_entry(id, option) {
            Ok(()) => {
                let mut m = String::from_str("Updated ");
                let l = boot_label_of(id);
                push_str(&mut m, l.as_str());
                self.set_status(m);
                self.refresh_entries();
            },
            Err(e) => {
                let m = error_message("Update failed: ", &e);
                self.set_error(m);
            },
        }
    }

    /// Opens the wizard with its first template selected.
    pub fn open_wizard(&mut self)
        ensures
            opened_wizard(*old(self), *final(self)),
    {
        self.wizard_selected = 0;
        self.view = View::Wizard;
    }

    /// Fills a new-entry form from the template at `idx`, if there is one.
    pub fn apply_wizard_template(&mut self, idx: usize)
        ensures
            applied_template(*old(self), *final(self), idx),
    {
        if idx < self.wizard_templates.len() {
            let d = String::from_str(self.wizard_templates[idx].description.as_str());
            let l = String::from_str(self.wizard_templates[idx].loader.as_str());
            self.form_mode = FormMode::Create;
            self.form_field = FormField::Description;
            self.form_description = d;
            self.form_loader = l;
            self.form_partition = String::new();
            self.form_edit_id = None;
            self.view = View::EntryForm;
        }
    }

    /// Opens the backup dialog with the default file name.
    pub fn open_backup(&mut self)
        ensures
            opened_backup_dialog(*old(self), *final(self), BackupMode::Backup),
    {
        self.backup_mode = BackupMode::Backup;
        self.backup_path = String::from_str("backup.json");
        self.view = View::BackupRestore;
    }

    /// Opens the restore dialog with the default file name.
    pub fn open_restore(&mut self)
        ensures
            opened_backup_dialog(*old(self), *final(self), BackupMode::Restore),
    {
        self.backup_mode = BackupMode::Restore;
        self.backup_path = String::from_str("backup.json");
        self.view = View::BackupRestore;
    }

    /// Submits the backup/restore dialog.
    ///
    /// In restore mode it asks for confirmation. In backup mode it exports
    /// the entries and returns to the entry list; the export is returned for
    /// the caller to serialize and write to `backup_path`, and to report
    /// with `finish_backup`. A failed export is shown as an error.
    pub fn submit_backup_restore(&mut self) -> (to_write: Option<BackupData>)
        ensures
            submitted_backup_restore(*old(self), *final(self), to_write),
    {
        match self.backup_mode {
            BackupMode::Backup => {
                let r = match export(&self.mgr) {
                    Ok(data) => Some(data),
                    Err(e) => {
                        let m = error_message("Export failed: ", &e);
                        self.set_error(m);
                        None
                    },
                };
                self.view = View::EntryList;
                r
            },
            BackupMode::Restore => {
                let path = self.backup_path.clone();
                let m = join3(
                    "Restore from '",
                    path.as_str(),
                    "'? This will overwrite existing entries.",
                );
                self.confirm = Some(ConfirmState { message: m, action: ConfirmAction::RestoreBackup(path) });
                self.view = View::Confirm;
                None
            },
        }
    }

    /// Reports how writing a backup of `count` entries to `backup_path`
    /// went.
    pub fn finish_backup(&mut self, count: usize, outcome: Result<(), BackupWriteError>)
        ensures
            final(self).vars() == old(self).vars(),
            final(self).entries == old(self).entries,
            final(self).selected == old(self).selected,
            same_ui(*final(self), *old(self)),
            final(self).confirm == old(self).confirm,
            outcome is Ok ==> shows_status(
                *final(self),
                "Backup saved to '"@ + old(self).backup_path@ + "' ("@ + decimal(count as nat)
                    + " entries)"@,
            ),
            outcome matches Err(BackupWriteError::Write(e)) ==> shows_error(
                *final(self),
                "Write failed: "@ + e@,
            ),
            outcome matches Err(BackupWriteError::Serialize(e)) ==> shows_error(
                *final(self),
                "Serialize failed: "@ + e@,
            ),
    {
        match outcome {
            Ok(()) => {
                let mut m = join3("Backup saved to '", self.backup_path.as_str(), "' (");
                let n = format_decimal(count as u128);
                push_str(&mut m, n.as_str());
                push_str(&mut m, " entries)");
                self.set_status(m);
            },
            Err(BackupWriteError::Write(e)) => {
                let m = concat("Write failed: ", e.as_str());
                self.set_error(m);
            },
            Err(BackupWriteError::Serialize(e)) => {
                let m = concat("Serialize failed: ", e.as_str());
                self.set_error(m);
            },
        }
    }

    /// Restores the backup loaded from `path` (after a confirmed restore),
    /// or reports why it could not be loaded, validated or applied.
    pub fn restore_loaded(&mut self, path: &str, loaded: Result<BackupData, BackupLoadError>)
        ensures
            restore_outcome(*old(self), *final(self), path@, loaded),
    {
        let data = match loaded {
            Ok(d) => d,
            Err(BackupLoadError::Read(e)) => {
                let m = concat("Read failed: ", e.as_str());
                self.set_error(m);
                return ;
            },
            Err(BackupLoadError::Parse(e)) => {
                let m = concat("Parse failed: ", e.as_str());
                self.set_error(m);
                return ;
            },
        };
        match validate(&data) {
            Ok(()) => {},
            Err(e) => {
                let m = error_message("Validation failed: ", &e);
                self.set_error(m);
                return ;
            },
        }
        match restore(&mut self.mgr, &data) {
            Ok(()) => {
                let mut m = String::from_str("Restored ");
                let n = format_decimal(data.entries.len() as u128);
                push_str(&mut m, n.as_str());
                push_str(&mut m, " entries from '");
                push_str(&mut m, path);
                push_str(&mut m, "'");
                self.set_status(m);
                self.refresh_entries();
            },
            Err(e) => {
                let m = error_message("Restore failed: ", &e);
                self.set_error(m);
            },
        }
    }
}

/// What restoring a loaded backup did: reported a file that could not be
/// read or parsed, or a backup that does not validate, without writing;
/// else restored it, or reported that writing failed.
pub open spec fn restore_outcome(
    before: App,
    after: App,
    path: Seq<char>,
    loaded: Result<BackupData, BackupLoadError>,
) -> bool {
    match loaded {
        Err(BackupLoadError::Read(e)) => shows_error(after, "Read failed: "@ + e@) && after.vars()
            == before.vars() && only_status_changed(before, after),
        Err(BackupLoadError::Parse(e)) => shows_error(after, "Parse failed: "@ + e@)
            && after.vars() == before.vars() && only_status_changed(before, after),
        Ok(data) => match backup_problem(data) {
            Some(m) => shows_error(
                after,
                "Validation failed: "@ + ("Backup/restore error: "@ + m),
            ) && after.vars() == before.vars() && only_status_changed(before, after),
            None => {
                ||| ((restores_exactly(before.mgr.file_backed(), data) ==> after.vars() == restored(
                    before.vars(),
                    data,
                )) && reported_then_refreshed(
                    after,
                    before,
                    after.vars(),
                    "Restored "@ + decimal(data.entries@.len()) + " entries from '"@ + path + "'"@,
                ))
                ||| (shows_error_after(after, "Restore failed: "@) && only_status_changed(
                    before,
                    after,
                ) && !before.mgr.file_backed() && (restores_exactly(before.mgr.file_backed(), data)
                    ==> restore_stopped(before.vars(), after.vars(), data)))
            },
        },
    }
}

/// The status bar showed `text`, then the cache was refreshed from `vars`:
/// the text stays unless the entry list could not be read.
pub open spec fn reported_then_refreshed(after: App, before: App, vars: Vars, text: Seq<char>) -> bool {
    &&& cache_refreshed(after, before, vars)
    &&& if boot_order_of(vars) is Some {
        shows_status(after, text)
    } else {
        shows_error_after(after, "Failed to load entries: "@)
    }
}

/// What deleting entry `id` did: deleted it and took it out of the boot
/// order, or reported why it failed.
pub open spec fn delete_outcome(before: App, after: App, id: u16) -> bool {
    ||| ((deletes_exactly(before.mgr.file_backed(), before.vars(), id) ==> after.vars()
        == after_delete(before.vars(), id)) && after.vars().remove("BootOrder"@) == before.vars().remove(
        boot_var_name(id),
    ).remove("BootOrder"@) && reported_then_refreshed(
        after,
        before,
        after.vars(),
        "Deleted "@ + boot_label(id),
    ))
    ||| (shows_error_after(after, "Delete failed: "@) && only_status_changed(before, after) && !(
    before.mgr.file_backed() && before.vars().contains_key(boot_var_name(id))))
}

/// What the bytes of entry `id` decode to, or the text of the error that
/// reading and decoding them gives.
pub open spec fn read_entry(vars: Vars, id: u16) -> Result<LoadOptionView, Seq<char>> {
    let name = boot_var_name(id);
    if !vars.contains_key(name) {
        Err(error_text(AppError::EntryNotFound { id }))
    } else if !load_option_framed(vars[name]) {
        Err("Parse error: "@ + parse_failure_text(id, malformed_content_text()))
    } else {
        match decoded_load_option(vars[name]) {
            Ok(v) => Ok(v),
            Err(t) => Err("Parse error: "@ + parse_failure_text(id, t)),
        }
    }
}

/// What toggling entry `id` did: refused a missing, undecodable or
/// unencodable entry without writing, flipped its active flag, or reported
/// that writing failed.
pub open spec fn toggle_outcome(before: App, after: App, id: u16) -> bool {
    match read_entry(before.vars(), id) {
        Err(e) => shows_error(after, "Toggle failed: "@ + e) && after.vars()
            == before.vars() && only_status_changed(before, after),
        Ok(v) => if !load_option_encodable(toggled(v)) {
            shows_error(after, "Toggle failed: "@ + ("Parse error: "@ + unencodable_text(id)))
                && after.vars() == before.vars() && only_status_changed(before, after)
        } else {
            ||| (after.vars() == before.vars().insert(
                boot_var_name(id),
                encoded_load_option(toggled(v)),
            ) && reported_then_refreshed(
                after,
                before,
                after.vars(),
                boot_label(id) + if is_active(v.attributes) {
                    " disabled"@
                } else {
                    " enabled"@
                },
            ))
            ||| (shows_error_after(after, "Toggle failed: "@) && only_status_changed(before, after)
                && after.vars().remove(boot_var_name(id)) == before.vars().remove(boot_var_name(id))
                && !before.mgr.file_backed())
        },
    }
}

/// What saving a new-entry form did: refused empty fields or a bad GUID,
/// found no free ID, or created the entry under the lowest free ID (or
/// failed to).
pub open spec fn create_outcome(before: App, after: App) -> bool {
    let vars = before.vars();
    let desc = before.form_description@;
    if desc.len() == 0 || before.form_loader@.len() == 0 {
        shows_error(after, "Description and loader path are required"@) && after.vars() == vars
            && only_status_changed(App { view: after.view, ..before }, after)
    } else if before.form_partition@.len() > 0 && parsed_guid(before.form_partition@) is Err {
        shows_error(
            after,
            "Invalid partition GUID: "@ + parsed_guid(before.form_partition@)->Err_0,
        ) && after.vars() == vars && only_status_changed(App { view: after.view, ..before }, after)
    } else if forall|j: u16| !id_is_free(vars, j) {
        shows_error(after, "No free ID: "@ + ("EFI variable error: "@ + "No free boot entry IDs available"@))
            && after.vars() == vars && only_status_changed(App { view: after.view, ..before }, after)
    } else {
        let sig: u128 = if before.form_partition@.len() == 0 {
            0
        } else {
            parsed_guid(before.form_partition@)->Ok_0
        };
        let o = new_entry_view(desc, before.form_loader@, sig);
        exists|id: u16|
            #![trigger id_is_free(vars, id)]
            id_is_free(vars, id) && (forall|j: u16| j < id ==> !id_is_free(vars, j)) && if !load_option_encodable(o) {
                shows_error(after, "Create failed: "@ + ("Parse error: "@ + unencodable_text(id)))
                    && after.vars() == vars && only_status_changed(
                    App { view: after.view, ..before },
                    after,
                )
            } else {
                ||| (after.vars() == after_create(vars, id, encoded_load_option(o))
                    && reported_then_refreshed(
                    after,
                    before,
                    after.vars(),
                    "Created "@ + boot_label(id) + ": "@ + desc,
                ))
                ||| (shows_error_after(after, "Create failed: "@) && only_status_changed(
                    App { view: after.view, ..before },
                    after,
                ) && create_stopped(vars, after.vars(), id, encoded_load_option(o))
                    && !before.mgr.file_backed())
            }
    }
}

/// The option with the form's description, and the form's loader path
/// where it has a file path.
pub open spec fn edited(v: LoadOptionView, description: Seq<char>, loader: Seq<char>) -> LoadOptionView {
    LoadOptionView {
        attributes: v.attributes,
        description,
        file_path_list: match v.file_path_list {
            Some((_, hd)) => Some((loader, hd)),
            None => None,
        },
        optional_data: v.optional_data,
    }
}

/// What saving an edit form did: nothing without an entry to edit; else it
/// reported a read or parse failure, "No changes", or updated the entry
/// (or failed to).
pub open spec fn edit_outcome(before: App, after: App) -> bool {
    match before.form_edit_id {
        None => after == (App { view: after.view, ..before }),
        Some(id) => match read_entry(before.vars(), id) {
            Err(e) => shows_error(after, "Failed to read "@ + boot_label(id) + ": "@ + e)
                && after.vars() == before.vars() && only_status_changed(
                App { view: after.view, ..before },
                after,
            ),
            Ok(v) => {
                let n = edited(v, before.form_description@, before.form_loader@);
                if n == v {
                    shows_status(after, "No changes"@) && after.vars() == before.vars()
                        && only_status_changed(App { view: after.view, ..before }, after)
                } else if !load_option_encodable(n) {
                    shows_error(after, "Update failed: "@ + ("Parse error: "@ + unencodable_text(id)))
                        && after.vars() == before.vars() && only_status_changed(
                        App { view: after.view, ..before },
                        after,
                    )
                } else {
                    ||| (after.vars() == before.vars().insert(
                        boot_var_name(id),
                        encoded_load_option(n),
                    ) && reported_then_refreshed(
                        after,
                        before,
                        after.vars(),
                        "Updated "@ + boot_label(id),
                    ))
                    ||| (shows_error_after(after, "Update failed: "@) && only_status_changed(
                        App { view: after.view, ..before },
                        after,
                    ) && after.vars().remove(boot_var_name(id)) == before.vars().remove(
                        boot_var_name(id),
                    ) && !before.mgr.file_backed())
                }
            },
        },
    }
}

/// Saving the edit form of an entry with a file path, on the file store,
/// stores the form's loader path (on the same partition) and description
/// when the loader path differs from the stored one: a differing loader
/// counts as a change and is written, never reported as "No changes".
pub proof fn law_edit_form_stores_loader(
    before: App,
    after: App,
    id: u16,
    v: LoadOptionView,
    p: Seq<char>,
    hd: HardDrive,
)
    requires
        edit_outcome(before, after),
        before.form_edit_id == Some(id),
        read_entry(before.vars(), id) == Ok::<LoadOptionView, Seq<char>>(v),
        v.file_path_list == Some((p, hd)),
        p != before.form_loader@,
        before.mgr.file_backed(),
        load_option_encodable(edited(v, before.form_description@, before.form_loader@)),
    ensures
        exists|w: LoadOptionView|
            after.vars() == before.vars().insert(boot_var_name(id), #[trigger] encoded_load_option(w))
                && w.file_path_list == Some((before.form_loader@, hd)) && w.description
                == before.form_description@ && w.attributes == v.attributes,
{
    let w = edited(v, before.form_description@, before.form_loader@);
    assert(w != v) by {
        assert(w.file_path_list != v.file_path_list);
    }
    assert(after.vars() == before.vars().insert(boot_var_name(id), encoded_load_option(w)));
}

} // verus!
