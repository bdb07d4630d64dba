//! The padlocks page: the padlock inventory and which unit each padlock
//! is on.
use vstd::prelude::*;
use crate::models::{NewPadlock, Padlock, Unit};
use crate::pages::{first_match, lemma_first_match_start, lemma_first_match_step, unable, unable_message};
use crate::pages::units::{find_unit, has_unit_id};
use crate::text::{append_str, chars_of, int_text, join2, owned, push_int, string_of, trim, trim_string};

verus! {

pub open spec fn has_padlock_id(id: i64) -> spec_fn(Padlock) -> bool {
    |p: Padlock| p.id == id
}

/// The position of the first padlock with the ID `id`.
pub fn find_padlock(padlocks: &Vec<Padlock>, id: i64) -> (r: Option<usize>)
    ensures
        match r {
            Some(i) => i < padlocks@.len() && first_match(padlocks@, has_padlock_id(id)) == Some(
                padlocks@[i as int],
            ),
            None => first_match(padlocks@, has_padlock_id(id)) is None,
        },
{
    proof {
        lemma_first_match_start(padlocks@, has_padlock_id(id));
    }
    let mut i: usize = 0;
    while i < padlocks.len()
        invariant
            i <= padlocks@.len(),
            first_match(padlocks@, has_padlock_id(id)) == first_match(
                padlocks@.skip(i as int),
                has_padlock_id(id),
            ),
        decreases padlocks.len() - i,
    {
        proof {
            lemma_first_match_step(padlocks@, i as int, has_padlock_id(id));
        }
        if padlocks[i].id == id {
            return Some(i);
        }
        i += 1;
    }
    None
}

/// What the padlock form holds while it is being filled in.
pub struct PadlockForm {
    pub serial_number: String,
    pub combination: String,
    pub selected_unit_id: Option<i64>,
    pub notes: String,
}

pub open spec fn padlock_form_is_clear(f: PadlockForm) -> bool {
    &&& f.serial_number@.len() == 0
    &&& f.combination@.len() == 0
    &&& f.selected_unit_id is None
    &&& f.notes@.len() == 0
}

impl Default for PadlockForm {
    fn default() -> (f: Self)
        ensures
            padlock_form_is_clear(f),
    {
        PadlockForm {
            serial_number: String::new(),
            combination: String::new(),
            selected_unit_id: None,
            notes: String::new(),
        }
    }
}

/// The padlock the form describes, or why it cannot be saved.
pub open spec fn padlock_from_form(f: PadlockForm) -> Result<(Seq<char>, Seq<char>, Option<i64>, Seq<char>), Seq<char>> {
    let serial = trim(f.serial_number@);
    let combination = trim(f.combination@);
    if serial.len() == 0 {
        Err("Padlock serial number is required."@)
    } else if combination.len() == 0 {
        Err("Padlock combination is required."@)
    } else {
        Ok((serial, combination, f.selected_unit_id, trim(f.notes@)))
    }
}

impl PadlockForm {
    pub fn from_padlock(padlock: &Padlock) -> (f: Self)
        ensures
            f.serial_number == padlock.serial_number,
            f.combination == padlock.combination,
            f.selected_unit_id == padlock.unit_id,
            f.notes == padlock.notes,
    {
        PadlockForm {
            serial_number: padlock.serial_number.clone(),
            combination: padlock.combination.clone(),
            selected_unit_id: padlock.unit_id,
            notes: padlock.notes.clone(),
        }
    }

    pub fn to_new_padlock(&self) -> (r: Result<NewPadlock, String>)
        ensures
            match padlock_from_form(*self) {
                Err(m) => r matches Err(e) && e@ == m,
                Ok((serial, combination, unit_id, notes)) => r matches Ok(p) && {
                    &&& p.serial_number@ == serial
                    &&& p.combination@ == combination
                    &&& p.unit_id == unit_id
                    &&& p.notes@ == notes
                },
            },
    {
        let serial_number = trim_string(self.serial_number.as_str());
        if serial_number.as_str().is_empty() {
            return Err(owned("Padlock serial number is required."));
        }
        let combination = trim_string(self.combination.as_str());
        if combination.as_str().is_empty() {
            return Err(owned("Padlock combination is required."));
        }
        Ok(NewPadlock {
            serial_number,
            combination,
            unit_id: self.selected_unit_id,
            notes: trim_string(self.notes.as_str()),
        })
    }
}

/// How a unit is offered for a padlock: its number, and its building when
/// it has one.
pub open spec fn unit_choice_label(u: Unit) -> Seq<char> {
    if u.building@.len() == 0 {
        "Unit "@ + u.unit_number@
    } else {
        "Unit "@ + u.unit_number@ + " — "@ + u.building@
    }
}

pub fn unit_choice_text(unit: &Unit) -> (s: String)
    ensures
        s@ == unit_choice_label(*unit),
{
    let mut out = chars_of("Unit ");
    append_str(&mut out, unit.unit_number.as_str());
    if !unit.building.as_str().is_empty() {
        append_str(&mut out, " — ");
        append_str(&mut out, unit.building.as_str());
    }
    string_of(&out)
}

/// Where a padlock is and whether it is free: on a unit and in use, or in
/// the inventory and available.
pub open spec fn padlock_place(p: Padlock) -> (Seq<char>, Seq<char>) {
    match p.unit_number {
        Some(n) => ("Unit "@ + n@, "In Use"@),
        None => ("Inventory"@, "Available"@),
    }
}

pub fn padlock_location(padlock: &Padlock) -> (r: (String, &'static str))
    ensures
        r.0@ == padlock_place(*padlock).0,
        r.1@ == padlock_place(*padlock).1,
{
    match &padlock.unit_number {
        Some(n) => (join2("Unit ", n.as_str()), "In Use"),
        None => (owned("Inventory"), "Available"),
    }
}

/// A padlock waiting for the user to confirm deleting it.
#[derive(Debug, Clone)]
pub struct PendingPadlock {
    pub id: i64,
    pub serial_number: String,
}

/// The padlocks page.
pub struct PadlocksPage {
    pub form: PadlockForm,
    pub padlocks: Vec<Padlock>,
    pub units: Vec<Unit>,
    pub loaded: bool,
    pub data_revision_seen: u64,
    pub editing_padlock_id: Option<i64>,
    pub pending_delete: Option<PendingPadlock>,
    pub error_message: Option<String>,
}

impl Default for PadlocksPage {
    fn default() -> (p: Self)
        ensures
            padlock_form_is_clear(p.form),
            p.padlocks@.len() == 0,
            p.units@.len() == 0,
            !p.loaded,
            p.data_revision_seen == 0,
            p.editing_padlock_id is None,
            p.pending_delete is None,
            p.error_message is None,
    {
        PadlocksPage {
            form: PadlockForm::default(),
            padlocks: Vec::new(),
            units: Vec::new(),
            loaded: false,
            data_revision_seen: 0,
            editing_padlock_id: None,
            pending_delete: None,
            error_message: None,
        }
    }
}

/// What an operation on a padlock led to.
pub struct PadlockOutcome {
    pub status: String,
    pub data_changed: bool,
}

pub open spec fn padlock_lists_kept(p: PadlocksPage, q: PadlocksPage) -> bool {
    &&& q.padlocks == p.padlocks
    &&& q.units == p.units
    &&& q.loaded == p.loaded
    &&& q.data_revision_seen == p.data_revision_seen
}

pub open spec fn padlock_form_reset(q: PadlocksPage) -> bool {
    &&& padlock_form_is_clear(q.form)
    &&& q.editing_padlock_id is None
}

fn padlock_failure(what: &str, serial: &str, error: &str) -> (s: String)
    ensures
        s@ == unable_message(what@ + serial@, error@),
{
    let w = join2(what, serial);
    unable(w.as_str(), error)
}

impl PadlocksPage {
    /// The lists are loaded again when the page was never loaded or the
    /// data changed since it last was.
    pub fn needs_refresh(&self, data_revision: u64) -> (b: bool)
        ensures
            b == (!self.loaded || self.data_revision_seen != data_revision),
    {
        !self.loaded || self.data_revision_seen != data_revision
    }

    pub fn set_error(&mut self, message: String) -> (status: String)
        ensures
            final(self).error_message == Some(message),
            final(self).form == old(self).form,
            final(self).editing_padlock_id == old(self).editing_padlock_id,
            final(self).pending_delete == old(self).pending_delete,
            padlock_lists_kept(*old(self), *final(self)),
            status@ == message@,
    {
        let status = message.clone();
        self.error_message = Some(message);
        status
    }

    fn reset_form(&mut self)
        ensures
            padlock_form_reset(*final(self)),
            padlock_lists_kept(*old(self), *final(self)),
            final(self).error_message == old(self).error_message,
            final(self).pending_delete == old(self).pending_delete,
    {
        self.editing_padlock_id = None;
        self.form = PadlockForm::default();
    }

    /// The text of the unit chooser.
    pub fn selected_unit_text(&self) -> (s: String)
        ensures
            s@ == match self.form.selected_unit_id {
                None => "Inventory / Not Assigned"@,
                Some(id) => match first_match(self.units@, has_unit_id(id)) {
                    Some(u) => unit_choice_label(u),
                    None => "Unknown Unit"@,
                },
            },
    {
        match self.form.selected_unit_id {
            None => owned("Inventory / Not Assigned"),
            Some(id) => match find_unit(&self.units, id) {
                Some(i) => unit_choice_text(&self.units[i]),
                None => owned("Unknown Unit"),
            },
        }
    }

    /// Starts editing the listed padlock with the ID `id`.
    pub fn begin_edit(&mut self, id: i64) -> (status: String)
        ensures
            padlock_lists_kept(*old(self), *final(self)),
            final(self).pending_delete == old(self).pending_delete,
            match first_match(old(self).padlocks@, has_padlock_id(id)) {
                None => {
                    &&& status@ == "Unable to find Padlock ID "@ + int_text(id as int) + "."@
                    &&& final(self).error_message matches Some(m) && m@ == status@
                    &&& final(self).form == old(self).form
                    &&& final(self).editing_padlock_id == old(self).editing_padlock_id
                },
                Some(p) => {
                    &&& final(self).form.serial_number == p.serial_number
                    &&& final(self).form.combination == p.combination
                    &&& final(self).form.selected_unit_id == p.unit_id
                    &&& final(self).form.notes == p.notes
                    &&& final(self).editing_padlock_id == Some(id)
                    &&& final(self).error_message is None
                    &&& status@ == "Editing Padlock "@ + p.serial_number@
                },
            },
    {
        match find_padlock(&self.padlocks, id) {
            None => {
                let mut out = chars_of("Unable to find Padlock ID ");
                push_int(&mut out, id);
                append_str(&mut out, ".");
                self.set_error(string_of(&out))
            },
            Some(i) => {
                let form = PadlockForm::from_padlock(&self.padlocks[i]);
                let status = join2("Editing Padlock ", self.padlocks[i].serial_number.as_str());
                self.form = form;
                self.editing_padlock_id = Some(id);
                self.error_message = None;
                status
            },
        }
    }

    pub fn cancel_edit(&mut self) -> (status: String)
        ensures
            padlock_form_reset(*final(self)),
            padlock_lists_kept(*old(self), *final(self)),
            final(self).pending_delete == old(self).pending_delete,
            final(self).error_message is None,
            status@ == "Padlock edit canceled"@,
    {
        self.reset_form();
        self.error_message = None;
        owned("Padlock edit canceled")
    }

    pub fn clear_form(&mut self) -> (status: String)
        ensures
            padlock_form_is_clear(final(self).form),
            final(self).editing_padlock_id == old(self).editing_padlock_id,
            final(self).pending_delete == old(self).pending_delete,
            padlock_lists_kept(*old(self), *final(self)),
            final(self).error_message is None,
            status@ == "Padlock form cleared"@,
    {
        self.form = PadlockForm::default();
        self.error_message = None;
        owned("Padlock form cleared")
    }

    /// The padlock being edited, or the message when none is.
    pub fn editing_target(&self) -> (r: Result<i64, String>)
        ensures
            match self.editing_padlock_id {
                Some(id) => r == Ok::<i64, String>(id),
                None => r matches Err(m) && m@ == "No padlock is selected for editing."@,
            },
    {
        match self.editing_padlock_id {
            Some(id) => Ok(id),
            None => Err(owned("No padlock is selected for editing.")),
        }
    }

    /// After the database was asked to add `padlock`.
    pub fn padlock_added(&mut self, padlock: &NewPadlock, result: Result<i64, String>) -> (out:
        PadlockOutcome)
        ensures
            padlock_lists_kept(*old(self), *final(self)),
            final(self).editing_padlock_id == old(self).editing_padlock_id,
            final(self).pending_delete == old(self).pending_delete,
            match result {
                Ok(id) => {
                    &&& padlock_form_is_clear(final(self).form)
                    &&& final(self).error_message == old(self).error_message
                    &&& out.data_changed
                    &&& out.status@ == "Added Padlock "@ + padlock.serial_number@ + " — database ID "@
                        + int_text(id as int)
                },
                Err(e) => {
                    &&& final(self).form == old(self).form
                    &&& !out.data_changed
                    &&& out.status@ == unable_message("add Padlock "@ + padlock.serial_number@, e@)
                    &&& final(self).error_message matches Some(m) && m@ == out.status@
                },
            },
    {
        match result {
            Ok(id) => {
                let mut out = chars_of("Added Padlock ");
                append_str(&mut out, padlock.serial_number.as_str());
                append_str(&mut out, " — database ID ");
                push_int(&mut out, id);
                self.form = PadlockForm::default();
                PadlockOutcome { status: string_of(&out), data_changed: true }
            },
            Err(e) => {
                let status = self.set_error(
                    padlock_failure("add Padlock ", padlock.serial_number.as_str(), e.as_str()),
                );
                PadlockOutcome { status, data_changed: false }
            },
        }
    }

    /// After the database was asked to save `padlock` as the padlock `id`.
    pub fn padlock_updated(&mut self, id: i64, padlock: &NewPadlock, result: Result<bool, String>) -> (out:
        PadlockOutcome)
        ensures
            padlock_lists_kept(*old(self), *final(self)),
            final(self).pending_delete == old(self).pending_delete,
            match result {
                Ok(true) => {
                    &&& padlock_form_reset(*final(self))
                    &&& final(self).error_message == old(self).error_message
                    &&& out.data_changed
                    &&& out.status@ == "Updated Padlock "@ + padlock.serial_number@
                },
                Ok(false) => {
                    &&& final(self).form == old(self).form
                    &&& final(self).editing_padlock_id == old(self).editing_padlock_id
                    &&& !out.data_changed
                    &&& out.status@ == "Padlock ID "@ + int_text(id as int) + " no longer exists."@
                    &&& final(self).error_message matches Some(m) && m@ == out.status@
                },
                Err(e) => {
                    &&& final(self).form == old(self).form
                    &&& final(self).editing_padlock_id == old(self).editing_padlock_id
                    &&& !out.data_changed
                    &&& out.status@ == unable_message("update Padlock "@ + padlock.serial_number@, e@)
                    &&& final(self).error_message matches Some(m) && m@ == out.status@
                },
            },
    {
        match result {
            Ok(true) => {
                self.reset_form();
                PadlockOutcome {
                    status: join2("Updated Padlock ", padlock.serial_number.as_str()),
                    data_changed: true,
                }
            },
            Ok(false) => {
                let mut out = chars_of("Padlock ID ");
                push_int(&mut out, id);
                append_str(&mut out, " no longer exists.");
                let status = self.set_error(string_of(&out));
                PadlockOutcome { status, data_changed: false }
            },
            Err(e) => {
                let status = self.set_error(
                    padlock_failure("update Padlock ", padlock.serial_number.as_str(), e.as_str()),
                );
                PadlockOutcome { status, data_changed: false }
            },
        }
    }

    /// The user asked to delete the listed padlock at `index`.
    pub fn request_delete(&mut self, index: usize)
        requires
            index < old(self).padlocks@.len(),
        ensures
            final(self).pending_delete matches Some(p) && p.id == old(self).padlocks@[index as int].id
                && p.serial_number == old(self).padlocks@[index as int].serial_number,
            final(self).form == old(self).form,
            final(self).editing_padlock_id == old(self).editing_padlock_id,
            final(self).error_message == old(self).error_message,
            padlock_lists_kept(*old(self), *final(self)),
    {
        let pending = PendingPadlock {
            id: self.padlocks[index].id,
            serial_number: self.padlocks[index].serial_number.clone(),
        };
        self.pending_delete = Some(pending);
    }

    pub fn cancel_delete(&mut self) -> (status: String)
        ensures
            final(self).pending_delete is None,
            final(self).form == old(self).form,
            final(self).editing_padlock_id == old(self).editing_padlock_id,
            final(self).error_message == old(self).error_message,
            padlock_lists_kept(*old(self), *final(self)),
            status@ == "Padlock deletion canceled"@,
    {
        self.pending_delete = None;
        owned("Padlock deletion canceled")
    }

    /// After the database was asked to delete the pending padlock.
    pub fn delete_finished(&mut self, pending: &PendingPadlock, result: Result<bool, String>) -> (out:
        PadlockOutcome)
        ensures
            padlock_lists_kept(*old(self), *final(self)),
            final(self).pending_delete is None,
            match result {
                Ok(true) => {
                    &&& (old(self).editing_padlock_id == Some(pending.id) ==> padlock_form_reset(
                        *final(self),
                    ))
                    &&& (old(self).editing_padlock_id != Some(pending.id) ==> final(self).form
                        == old(self).form && final(self).editing_padlock_id
                        == old(self).editing_padlock_id)
                    &&& final(self).error_message is None
                    &&& out.data_changed
                    &&& out.status@ == "Deleted Padlock "@ + pending.serial_number@
                },
                Ok(false) => {
                    &&& final(self).form == old(self).form
                    &&& final(self).editing_padlock_id == old(self).editing_padlock_id
                    &&& !out.data_changed
                    &&& out.status@ == "Padlock "@ + pending.serial_number@ + " no longer exists."@
                    &&& final(self).error_message matches Some(m) && m@ == out.status@
                },
                Err(e) => {
                    &&& final(self).form == old(self).form
                    &&& final(self).editing_padlock_id == old(self).editing_padlock_id
                    &&& !out.data_changed
                    &&& out.status@ == unable_message("delete Padlock "@ + pending.serial_number@, e@)
                    &&& final(self).error_message matches Some(m) && m@ == out.status@
                },
            },
    {
        self.pending_delete = None;
        match result {
            Ok(true) => {
                if self.editing_padlock_id == Some(pending.id) {
                    self.reset_form();
                }
                self.error_message = None;
                PadlockOutcome {
                    status: join2("Deleted Padlock ", pending.serial_number.as_str()),
                    data_changed: true,
                }
            },
            Ok(false) => {
                let mut out = chars_of("Padlock ");
                append_str(&mut out, pending.serial_number.as_str());
                append_str(&mut out, " no longer exists.");
                let message = string_of(&out);
                let status = self.set_error(message);
                PadlockOutcome { status, data_changed: false }
            },
            Err(e) => {
                let status = self.set_error(
                    padlock_failure("delete Padlock ", pending.serial_number.as_str(), e.as_str()),
                );
                PadlockOutcome { status, data_changed: false }
            },
        }
    }

    pub fn load_failed(&mut self, what: &str, error: &str) -> (status: String)
        ensures
            final(self).loaded,
            final(self).padlocks == old(self).padlocks,
            final(self).units == old(self).units,
            final(self).data_revision_seen == old(self).data_revision_seen,
            final(self).form == old(self).form,
            final(self).editing_padlock_id == old(self).editing_padlock_id,
            final(self).pending_delete == old(self).pending_delete,
            status@ == unable_message("load "@ + what@, error@),
            final(self).error_message matches Some(m) && m@ == status@,
    {
        self.loaded = true;
        let what_full = join2("load ", what);
        let message = unable(what_full.as_str(), error);
        self.set_error(message)
    }

    /// The lists were loaded while the data was at `data_revision`.
    pub fn loaded_with(&mut self, padlocks: Vec<Padlock>, units: Vec<Unit>, data_revision: u64)
        ensures
            final(self).padlocks == padlocks,
            final(self).units == units,
            final(self).loaded,
            final(self).data_revision_seen == data_revision,
            final(self).error_message is None,
            final(self).form == old(self).form,
            final(self).editing_padlock_id == old(self).editing_padlock_id,
            final(self).pending_delete == old(self).pending_delete,
            !final(self).needs_refresh_spec(data_revision),
    {
        self.padlocks = padlocks;
        self.units = units;
        self.loaded = true;
        self.data_revision_seen = data_revision;
        self.error_message = None;
    }

    pub open spec fn needs_refresh_spec(self, data_revision: u64) -> bool {
        !self.loaded || self.data_revision_seen != data_revision
    }
}

} // verus!
