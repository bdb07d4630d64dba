//! The settings page: the company name, database backups and restoring
//! from a backup.
use vstd::prelude::*;
use crate::config::Config;
use crate::pages::{unable, unable_message};
use crate::text::{
    append_str, chars_of, int_text, is_text_less, join2, lemma_text_less_irreflexive,
    lemma_text_less_total, lemma_text_less_transitive, owned, push_int, same_text, string_of,
    text_less, trim, trim_string, trimmed,
};

verus! {

/// A backup file: where it is, and the file name it is listed by.
#[derive(Debug, Clone)]
pub struct BackupFile {
    pub path: String,
    pub name: String,
}

/// The settings page.
pub struct SettingsPage {
    pub company_name: String,
    pub loaded: bool,
    pub error_message: Option<String>,
    pub backup_message: Option<String>,
    pub backup_files: Vec<BackupFile>,
    pub selected_backup_index: Option<usize>,
    pub restore_confirmation_open: bool,
}

impl Default for SettingsPage {
    fn default() -> (p: Self)
        ensures
            p.company_name@.len() == 0,
            !p.loaded,
            p.error_message is None,
            p.backup_message is None,
            p.backup_files@.len() == 0,
            p.selected_backup_index is None,
            !p.restore_confirmation_open,
    {
        SettingsPage {
            company_name: String::new(),
            loaded: false,
            error_message: None,
            backup_message: None,
            backup_files: Vec::new(),
            selected_backup_index: None,
            restore_confirmation_open: false,
        }
    }
}

/// Whether a file extension marks a database file: `db` in any letter case.
pub open spec fn database_extension(ext: Seq<char>) -> bool {
    &&& ext.len() == 2
    &&& (ext[0] == 'd' || ext[0] == 'D')
    &&& (ext[1] == 'b' || ext[1] == 'B')
}

pub fn is_database_extension(ext: &str) -> (b: bool)
    ensures
        b == database_extension(ext@),
{
    let v = chars_of(ext);
    v.len() == 2 && (v[0] == 'd' || v[0] == 'D') && (v[1] == 'b' || v[1] == 'B')
}

/// Backups are listed newest first: by file name from last to first, files
/// with the same name keeping the order they were found in.
pub open spec fn backup_before(files: Seq<BackupFile>, i: int, j: int) -> bool {
    let a = files[i].name@;
    let b = files[j].name@;
    text_less(b, a) || (a == b && i < j)
}

proof fn lemma_backup_order(files: Seq<BackupFile>, i: int, j: int, k: int)
    requires
        0 <= i < files.len(),
        0 <= j < files.len(),
        0 <= k < files.len(),
    ensures
        i != j ==> backup_before(files, i, j) || backup_before(files, j, i),
        !(backup_before(files, i, j) && backup_before(files, j, i)),
        backup_before(files, i, j) && backup_before(files, j, k) ==> backup_before(files, i, k),
{
    let (a, b, c) = (files[i].name@, files[j].name@, files[k].name@);
    lemma_text_less_total(a, b);
    lemma_text_less_total(b, c);
    lemma_text_less_total(a, c);
    lemma_text_less_irreflexive(a);
    if text_less(c, b) && text_less(b, a) {
        lemma_text_less_transitive(c, b, a);
    }
}

/// The positions of `files` in the order the backup list shows them.
pub fn backup_order(files: &Vec<BackupFile>) -> (r: Vec<usize>)
    ensures
        r@.len() == files@.len(),
        forall|a: int| 0 <= a < r@.len() ==> #[trigger] r@[a] < files@.len(),
        forall|x: usize| x < files@.len() ==> #[trigger] r@.contains(x),
        forall|a: int, b: int|
            0 <= a < b < r@.len() ==> backup_before(files@, #[trigger] r@[a] as int, #[trigger] r@[b] as int),
{
    let n = files.len();
    let mut order: Vec<usize> = Vec::new();
    let mut i: usize = 0;
    while i < n
        invariant
            n == files@.len(),
            i <= n,
            order@.len() == i,
            forall|a: int| 0 <= a < order@.len() ==> #[trigger] order@[a] < i,
            forall|x: usize| x < i ==> #[trigger] order@.contains(x),
            forall|a: int, b: int|
                0 <= a < b < order@.len() ==> backup_before(files@, #[trigger] order@[a] as int, #[trigger] order@[b] as int),
        decreases n - i,
    {
        let mut p: usize = 0;
        while p < order.len() && !(is_text_less(files[order[p]].name.as_str(), files[i].name.as_str()))
            invariant
                n == files@.len(),
                i < n,
                p <= order@.len(),
                forall|a: int| 0 <= a < order@.len() ==> #[trigger] order@[a] < i,
                forall|a: int| 0 <= a < p ==> !backup_before(files@, i as int, #[trigger] order@[a] as int),
            decreases order.len() - p,
        {
            p += 1;
        }
        let ghost before = order@;
        proof {
            if p < before.len() {
                assert(backup_before(files@, i as int, before[p as int] as int));
            }
            assert forall|a: int| 0 <= a < p implies backup_before(files@, #[trigger] before[a] as int, i as int) by {
                lemma_backup_order(files@, before[a] as int, i as int, i as int);
            }
            assert forall|b: int| p <= b < before.len() implies backup_before(files@, i as int, #[trigger] before[b] as int) by {
                if b > p {
                    lemma_backup_order(files@, i as int, before[p as int] as int, before[b] as int);
                }
            }
        }
        order.insert(p, i);
        proof {
            assert(order@ == before.insert(p as int, i));
            assert forall|a: int, b: int| 0 <= a < b < order@.len() implies backup_before(files@, #[trigger] order@[a] as int, #[trigger] order@[b] as int) by {
                if a < p && b < p {
                    assert(order@[a] == before[a] && order@[b] == before[b]);
                } else if a < p && b == p {
                } else if a < p {
                    assert(order@[a] == before[a] && order@[b] == before[b - 1]);
                    lemma_backup_order(files@, before[a] as int, i as int, before[b - 1] as int);
                } else if a == p {
                    assert(order@[b] == before[b - 1]);
                } else {
                    assert(order@[a] == before[a - 1] && order@[b] == before[b - 1]);
                }
            }
            assert forall|x: usize| x < i + 1 implies #[trigger] order@.contains(x) by {
                if x == i {
                    assert(order@[p as int] == i);
                } else {
                    assert(before.contains(x));
                    let q = choose|q: int| 0 <= q < before.len() && before[q] == x;
                    if q < p {
                        assert(order@[q] == x);
                    } else {
                        assert(order@[q + 1] == x);
                    }
                }
            }
        }
        i += 1;
    }
    order
}

/// The position of the first file with the path `path`.
fn find_backup(files: &Vec<BackupFile>, path: &str) -> (r: Option<usize>)
    ensures
        match r {
            Some(i) => i < files@.len() && files@[i as int].path@ == path@ && forall|j: int|
                0 <= j < i ==> #[trigger] files@[j].path@ != path@,
            None => forall|j: int| 0 <= j < files@.len() ==> #[trigger] files@[j].path@ != path@,
        },
{
    let mut i: usize = 0;
    while i < files.len()
        invariant
            i <= files@.len(),
            forall|j: int| 0 <= j < i ==> #[trigger] files@[j].path@ != path@,
        decreases files.len() - i,
    {
        if same_text(files[i].path.as_str(), path) {
            return Some(i);
        }
        i += 1;
    }
    None
}

/// `files` are the `found` files taken in the order `order`, which lists
/// every found file once, newest first.
pub open spec fn arranged_by(order: Seq<usize>, found: Seq<BackupFile>, files: Seq<BackupFile>) -> bool {
    &&& order.len() == found.len()
    &&& files.len() == found.len()
    &&& forall|x: usize| x < found.len() ==> #[trigger] order.contains(x)
    &&& forall|a: int, b: int|
        0 <= a < b < order.len() ==> backup_before(found, #[trigger] order[a] as int, #[trigger] order[b] as int)
    &&& forall|a: int| 0 <= a < order.len() ==> #[trigger] order[a] < found.len()
    &&& forall|a: int| 0 <= a < order.len() ==> (#[trigger] files[a]).path@ == found[order[a] as int].path@
        && files[a].name@ == found[order[a] as int].name@
}

impl SettingsPage {
    pub fn set_error(&mut self, message: String) -> (status: String)
        ensures
            final(self).loaded == old(self).loaded,
            final(self).error_message == Some(message),
            final(self).company_name == old(self).company_name,
            final(self).backup_files == old(self).backup_files,
            final(self).selected_backup_index == old(self).selected_backup_index,
            final(self).restore_confirmation_open == old(self).restore_confirmation_open,
            final(self).backup_message == old(self).backup_message,
            status@ == message@,
    {
        let status = message.clone();
        self.error_message = Some(message);
        status
    }

    /// Fills the form from the current settings.
    pub fn load_form(&mut self, config: &Config)
        ensures
            final(self).backup_message == old(self).backup_message,
            final(self).restore_confirmation_open == old(self).restore_confirmation_open,
            final(self).company_name == config.company_name,
            final(self).loaded,
            final(self).error_message is None,
            final(self).backup_files == old(self).backup_files,
            final(self).selected_backup_index == old(self).selected_backup_index,
    {
        self.company_name = config.company_name.clone();
        self.loaded = true;
        self.error_message = None;
    }

    /// The company name to save: the typed one, trimmed, which must not be
    /// empty.
    pub fn company_name_to_save(&mut self) -> (r: Result<String, String>)
        ensures
            final(self).loaded == old(self).loaded,
            final(self).backup_message == old(self).backup_message,
            final(self).selected_backup_index == old(self).selected_backup_index,
            final(self).restore_confirmation_open == old(self).restore_confirmation_open,
            final(self).company_name == old(self).company_name,
            final(self).backup_files == old(self).backup_files,
            if trim(old(self).company_name@).len() == 0 {
                &&& r matches Err(s) && s@ == "Company name is required."@
                &&& final(self).error_message matches Some(m) && m@ == "Company name is required."@
            } else {
                &&& r matches Ok(name) && name@ == trim(old(self).company_name@)
                &&& final(self).error_message is None
            },
    {
        self.error_message = None;
        let name = trim_string(self.company_name.as_str());
        if name.as_str().is_empty() {
            return Err(self.set_error(owned("Company name is required.")));
        }
        Ok(name)
    }

    /// The settings were saved with the company name `name`.
    pub fn settings_saved(&mut self, name: &str) -> (status: String)
        ensures
            final(self).loaded == old(self).loaded,
            final(self).backup_message == old(self).backup_message,
            final(self).selected_backup_index == old(self).selected_backup_index,
            final(self).restore_confirmation_open == old(self).restore_confirmation_open,
            final(self).company_name@ == name@,
            final(self).error_message == old(self).error_message,
            final(self).backup_files == old(self).backup_files,
            status@ == "Settings saved for "@ + name@,
    {
        self.company_name = owned(name);
        join2("Settings saved for ", name)
    }

    /// Saving the settings failed.
    pub fn settings_not_saved(&mut self, error: &str) -> (status: String)
        ensures
            final(self).loaded == old(self).loaded,
            final(self).backup_message == old(self).backup_message,
            final(self).selected_backup_index == old(self).selected_backup_index,
            final(self).restore_confirmation_open == old(self).restore_confirmation_open,
            final(self).company_name == old(self).company_name,
            final(self).backup_files == old(self).backup_files,
            status@ == unable_message("save settings"@, error@),
            final(self).error_message matches Some(m) && m@ == status@,
    {
        self.set_error(unable("save settings", error))
    }

    /// A backup was created at `path`.
    pub fn backup_created(&mut self, path: &str) -> (status: String)
        ensures
            final(self).company_name == old(self).company_name,
            final(self).loaded == old(self).loaded,
            final(self).restore_confirmation_open == old(self).restore_confirmation_open,
            status@ == "Backup created and verified: "@ + path@,
            final(self).backup_message matches Some(m) && m@ == status@,
            final(self).error_message is None,
            final(self).backup_files == old(self).backup_files,
            final(self).selected_backup_index == old(self).selected_backup_index,
    {
        let message = join2("Backup created and verified: ", path);
        self.error_message = None;
        self.backup_message = Some(message.clone());
        message
    }

    /// Creating a backup failed.
    pub fn backup_failed(&mut self, error: &str) -> (status: String)
        ensures
            final(self).company_name == old(self).company_name,
            final(self).loaded == old(self).loaded,
            final(self).restore_confirmation_open == old(self).restore_confirmation_open,
            status@ == unable_message("create database backup"@, error@),
            final(self).error_message matches Some(m) && m@ == status@,
            final(self).backup_message is None,
            final(self).backup_files == old(self).backup_files,
            final(self).selected_backup_index == old(self).selected_backup_index,
    {
        self.backup_message = None;
        let message = unable("create database backup", error);
        self.error_message = Some(message.clone());
        message
    }

    /// The path of the chosen backup, if one is chosen.
    pub fn selected_backup_path(&self) -> (r: Option<String>)
        ensures
            match self.selected_backup_index {
                Some(i) => if i < self.backup_files@.len() {
                    r matches Some(p) && p@ == self.backup_files@[i as int].path@
                } else {
                    r is None
                },
                None => r is None,
            },
    {
        match self.selected_backup_index {
            Some(i) => if i < self.backup_files.len() {
                Some(self.backup_files[i].path.clone())
            } else {
                None
            },
            None => None,
        }
    }

    /// The text of the backup chooser.
    pub fn selected_backup_text(&self) -> (s: String)
        ensures
            s@ == match self.selected_backup_index {
                Some(i) => if i < self.backup_files@.len() {
                    self.backup_files@[i as int].name@
                } else {
                    "Select a backup"@
                },
                None => "Select a backup"@,
            },
    {
        match self.selected_backup_index {
            Some(i) => if i < self.backup_files.len() {
                self.backup_files[i].name.clone()
            } else {
                owned("Select a backup")
            },
            None => owned("Select a backup"),
        }
    }

    /// How many backups were found, as the page says it.
    pub fn backup_count_text(&self) -> (s: String)
        requires
            self.backup_files@.len() <= i64::MAX,
        ensures
            s@ == int_text(self.backup_files@.len() as int) + " backup(s) found"@,
    {
        let mut out: Vec<char> = Vec::new();
        push_int(&mut out, self.backup_files.len() as i64);
        append_str(&mut out, " backup(s) found");
        string_of(&out)
    }

    /// Replaces the backup list with the database files `found` in the
    /// backup folder, newest first, keeping the chosen backup chosen when
    /// it is still listed and otherwise choosing the first one.
    pub fn set_backup_files(&mut self, found: Vec<BackupFile>)
        ensures
            final(self).loaded == old(self).loaded,
            final(self).backup_message == old(self).backup_message,
            final(self).restore_confirmation_open == old(self).restore_confirmation_open,
            final(self).backup_files@.len() == found@.len(),
            exists|order: Seq<usize>| #[trigger] arranged_by(order, found@, final(self).backup_files@),
            ({
                let previous = match old(self).selected_backup_index {
                    Some(i) => if i < old(self).backup_files@.len() {
                        Some(old(self).backup_files@[i as int].path@)
                    } else {
                        None
                    },
                    None => None,
                };
                let files = final(self).backup_files@;
                match final(self).selected_backup_index {
                    Some(i) => {
                        &&& i < files.len()
                        &&& match previous {
                            Some(p) => (files[i as int].path@ == p && forall|j: int|
                                0 <= j < i ==> #[trigger] files[j].path@ != p) || (i == 0 && forall|
                                j: int,
                            | 0 <= j < files.len() ==> #[trigger] files[j].path@ != p),
                            None => i == 0,
                        }
                    },
                    None => files.len() == 0,
                }
            }),
            final(self).company_name == old(self).company_name,
            final(self).error_message == old(self).error_message,
    {
        let previous = self.selected_backup_path();
        let order = backup_order(&found);
        let mut files: Vec<BackupFile> = Vec::new();
        let mut a: usize = 0;
        while a < order.len()
            invariant
                order@.len() == found@.len(),
                forall|k: int| 0 <= k < order@.len() ==> #[trigger] order@[k] < found@.len(),
                a <= order@.len(),
                files@.len() == a,
                forall|k: int| 0 <= k < a ==> (#[trigger] files@[k]).path@ == found@[order@[k] as int].path@
                    && files@[k].name@ == found@[order@[k] as int].name@,
            decreases order.len() - a,
        {
            let f = &found[order[a]];
            files.push(BackupFile { path: f.path.clone(), name: f.name.clone() });
            a += 1;
        }
        assert(arranged_by(order@, found@, files@));
        self.backup_files = files;
        self.selected_backup_index = match previous {
            Some(p) => match find_backup(&self.backup_files, p.as_str()) {
                Some(i) => Some(i),
                None => if self.backup_files.len() == 0 {
                    None
                } else {
                    Some(0)
                },
            },
            None => if self.backup_files.len() == 0 {
                None
            } else {
                Some(0)
            },
        };
    }

    /// The user asked to restore the chosen backup.
    pub fn open_restore_confirmation(&mut self)
        ensures
            final(self).company_name == old(self).company_name,
            final(self).loaded == old(self).loaded,
            final(self).error_message == old(self).error_message,
            final(self).backup_message == old(self).backup_message,
            final(self).restore_confirmation_open,
            final(self).backup_files == old(self).backup_files,
            final(self).selected_backup_index == old(self).selected_backup_index,
    {
        self.restore_confirmation_open = true;
    }

    /// The confirmation closed because no backup is chosen.
    pub fn nothing_to_restore(&mut self) -> (status: String)
        ensures
            final(self).company_name == old(self).company_name,
            final(self).loaded == old(self).loaded,
            final(self).backup_message == old(self).backup_message,
            final(self).backup_files == old(self).backup_files,
            final(self).selected_backup_index == old(self).selected_backup_index,
            !final(self).restore_confirmation_open,
            status@ == "No database backup is selected."@,
            final(self).error_message matches Some(m) && m@ == status@,
    {
        self.restore_confirmation_open = false;
        self.set_error(owned("No database backup is selected."))
    }

    pub fn cancel_restore(&mut self) -> (status: String)
        ensures
            final(self).company_name == old(self).company_name,
            final(self).loaded == old(self).loaded,
            final(self).backup_message == old(self).backup_message,
            final(self).backup_files == old(self).backup_files,
            final(self).selected_backup_index == old(self).selected_backup_index,
            !final(self).restore_confirmation_open,
            final(self).error_message == old(self).error_message,
            status@ == "Database restore canceled"@,
    {
        self.restore_confirmation_open = false;
        owned("Database restore canceled")
    }

    /// After the database was asked to restore the chosen backup; on
    /// success the application closes.
    pub fn restore_finished(&mut self, result: Result<String, String>) -> (r: (String, bool))
        ensures
            final(self).company_name == old(self).company_name,
            final(self).loaded == old(self).loaded,
            final(self).backup_message == old(self).backup_message,
            final(self).backup_files == old(self).backup_files,
            final(self).selected_backup_index == old(self).selected_backup_index,
            !final(self).restore_confirmation_open,
            match result {
                Ok(safety) => {
                    &&& r.1
                    &&& r.0@ == "Database restored. Safety backup: "@ + safety@
                    &&& final(self).error_message == old(self).error_message
                },
                Err(e) => {
                    &&& !r.1
                    &&& r.0@ == unable_message("restore database"@, e@)
                    &&& final(self).error_message matches Some(m) && m@ == r.0@
                },
            },
    {
        self.restore_confirmation_open = false;
        match result {
            Ok(safety) => (join2("Database restored. Safety backup: ", safety.as_str()), true),
            Err(e) => (self.set_error(unable("restore database", e.as_str())), false),
        }
    }
}

} // verus!
