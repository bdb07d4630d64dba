//! The units page: adding, editing, archiving, restoring and deleting
//! storage units, and marking them for cleaning.
use vstd::prelude::*;
use crate::models::{size_dimensions, size_of_dimensions, NewUnit, Unit, UnitSize};
use crate::money::{
    amount_error_message, amount_message, amount_value, format_money_input, money_input_text,
    parse_amount,
};
use crate::pages::{first_match, lemma_first_match_start, lemma_first_match_step, unable, unable_message};
use crate::text::{
    append_str, chars_of, int_text, join2, owned, parse_i64, parse_i64_chars, push_int,
    string_of, trim, trim_string, trimmed,
};

verus! {

pub open spec fn has_unit_id(id: i64) -> spec_fn(Unit) -> bool {
    |u: Unit| u.id == id
}

/// The position of the first unit with the ID `id`.
pub fn find_unit(units: &Vec<Unit>, id: i64) -> (r: Option<usize>)
    ensures
        match r {
            Some(i) => i < units@.len() && first_match(units@, has_unit_id(id)) == Some(
                units@[i as int],
            ),
            None => first_match(units@, has_unit_id(id)) is None,
        },
{
    proof {
        lemma_first_match_start(units@, has_unit_id(id));
    }
    let mut i: usize = 0;
    while i < units.len()
        invariant
            i <= units@.len(),
            first_match(units@, has_unit_id(id)) == first_match(units@.skip(i as int), has_unit_id(id)),
        decreases units.len() - i,
    {
        proof {
            lemma_first_match_step(units@, i as int, has_unit_id(id));
        }
        if units[i].id == id {
            return Some(i);
        }
        i += 1;
    }
    None
}

/// The state a unit is in: occupied, otherwise waiting to be cleaned,
/// otherwise vacant.
#[derive(Debug, Clone, Copy, PartialEq, Eq, Structural)]
pub enum UnitState {
    Vacant,
    Occupied,
    NeedsCleaned,
}

/// Occupancy comes first: an occupied unit counts as occupied whatever its
/// cleaning mark says.
pub open spec fn state_of(u: Unit) -> UnitState {
    if u.occupied {
        UnitState::Occupied
    } else if u.needs_cleaned {
        UnitState::NeedsCleaned
    } else {
        UnitState::Vacant
    }
}

pub fn unit_state(unit: &Unit) -> (s: UnitState)
    ensures
        s == state_of(*unit),
{
    if unit.occupied {
        UnitState::Occupied
    } else if unit.needs_cleaned {
        UnitState::NeedsCleaned
    } else {
        UnitState::Vacant
    }
}

/// How a unit's state is named: occupied first, then needing cleaning.
pub open spec fn status_label(u: Unit) -> Seq<char> {
    if u.occupied {
        "Occupied"@
    } else if u.needs_cleaned {
        "Needs Cleaned"@
    } else {
        "Vacant"@
    }
}

pub fn unit_status(unit: &Unit) -> (s: &'static str)
    ensures
        s@ == status_label(*unit),
{
    if unit.occupied {
        "Occupied"
    } else if unit.needs_cleaned {
        "Needs Cleaned"
    } else {
        "Vacant"
    }
}

/// The cleaning mark a listed unit offers to set: none while it is
/// occupied; otherwise clearing the mark when it needs cleaning, and
/// setting it when it does not.
pub fn cleaning_action(unit: &Unit) -> (r: Option<bool>)
    ensures
        r == if unit.occupied { None } else { Some(!unit.needs_cleaned) },
{
    if unit.occupied {
        None
    } else {
        Some(!unit.needs_cleaned)
    }
}

/// Reads the typed monthly rent as cents; zero is accepted.
pub fn parse_dollars_to_cents(text: &str) -> (r: Result<i64, String>)
    ensures
        match amount_value(text@) {
            Ok(v) => r == Ok::<i64, String>(v),
            Err(e) => r matches Err(m) && m@ == amount_message("Monthly rent"@, e),
        },
{
    match parse_amount(text) {
        Ok(v) => Ok(v),
        Err(e) => Err(amount_error_message("Monthly rent", e)),
    }
}

/// The display order the text gives: 0 when blank, otherwise a whole
/// number that is not negative.
pub open spec fn display_order_value(text: Seq<char>) -> Result<i64, Seq<char>> {
    let t = trim(text);
    if t.len() == 0 {
        Ok(0)
    } else {
        match parse_i64(t) {
            None => Err("Display order must be a whole number."@),
            Some(v) => if v < 0 { Err("Display order cannot be negative."@) } else { Ok(v) },
        }
    }
}

pub fn parse_display_order(text: &str) -> (r: Result<i64, String>)
    ensures
        match display_order_value(text@) {
            Ok(v) => r == Ok::<i64, String>(v),
            Err(m) => r matches Err(e) && e@ == m,
        },
{
    let t = trimmed(text);
    if t.len() == 0 {
        return Ok(0);
    }
    match parse_i64_chars(&t) {
        None => Err(owned("Display order must be a whole number.")),
        Some(v) => if v < 0 {
            Err(owned("Display order cannot be negative."))
        } else {
            Ok(v)
        },
    }
}

/// The layout section a unit is listed under: its trimmed section, or
/// `Main Section` when it has none.
pub open spec fn section_name(section: Seq<char>) -> Seq<char> {
    if trim(section).len() == 0 { "Main Section"@ } else { trim(section) }
}

/// Where a unit stands in the layout: its section, and its place in it
/// when that is not 0.
pub open spec fn layout_label(u: Unit) -> Seq<char> {
    if u.display_order == 0 {
        section_name(u.layout_section@)
    } else {
        section_name(u.layout_section@) + " #"@ + int_text(u.display_order as int)
    }
}

pub fn section_of(section: &str) -> (s: String)
    ensures
        s@ == section_name(section@),
{
    let t = trimmed(section);
    if t.len() == 0 {
        owned("Main Section")
    } else {
        string_of(&t)
    }
}

pub fn format_layout(unit: &Unit) -> (s: String)
    ensures
        s@ == layout_label(*unit),
{
    let section = section_of(unit.layout_section.as_str());
    if unit.display_order == 0 {
        section
    } else {
        let mut out = chars_of(section.as_str());
        append_str(&mut out, " #");
        push_int(&mut out, unit.display_order);
        string_of(&out)
    }
}

/// What the unit form holds while it is being filled in.
pub struct UnitForm {
    pub unit_number: String,
    pub building: String,
    pub size: UnitSize,
    pub monthly_rent: String,
    pub layout_section: String,
    pub display_order: String,
    pub yellow_lock: bool,
    pub red_lock: bool,
    pub notes: String,
}

pub open spec fn unit_form_is_clear(f: UnitForm) -> bool {
    &&& f.unit_number@.len() == 0
    &&& f.building@.len() == 0
    &&& f.size == UnitSize::FiveByFive
    &&& f.monthly_rent@.len() == 0
    &&& f.layout_section@.len() == 0
    &&& f.display_order@.len() == 0
    &&& !f.yellow_lock
    &&& !f.red_lock
    &&& f.notes@.len() == 0
}

impl Default for UnitForm {
    fn default() -> (f: Self)
        ensures
            unit_form_is_clear(f),
    {
        UnitForm {
            unit_number: String::new(),
            building: String::new(),
            size: UnitSize::FiveByFive,
            monthly_rent: String::new(),
            layout_section: String::new(),
            display_order: String::new(),
            yellow_lock: false,
            red_lock: false,
            notes: String::new(),
        }
    }
}

/// The unit the form describes, or why it cannot be saved.
pub open spec fn unit_from_form(f: UnitForm) -> Result<
    (Seq<char>, Seq<char>, UnitSize, i64, Seq<char>, i64, bool, bool, Seq<char>),
    Seq<char>,
> {
    let number = trim(f.unit_number@);
    if number.len() == 0 {
        Err("Unit number is required."@)
    } else {
        match amount_value(f.monthly_rent@) {
            Err(e) => Err(amount_message("Monthly rent"@, e)),
            Ok(rent) => match display_order_value(f.display_order@) {
                Err(m) => Err(m),
                Ok(order) => Ok(
                    (
                        number,
                        trim(f.building@),
                        f.size,
                        rent,
                        trim(f.layout_section@),
                        order,
                        f.yellow_lock,
                        f.red_lock,
                        trim(f.notes@),
                    ),
                ),
            },
        }
    }
}

pub open spec fn nonstandard_message(number: Seq<char>) -> Seq<char> {
    "Unit "@ + number + " has dimensions that do not match a standard size."@
}

impl UnitForm {
    /// The form for editing `unit`; only units of a standard size can be
    /// edited.
    pub fn from_unit(unit: &Unit) -> (r: Result<Self, String>)
        requires
            unit.monthly_rent_cents > i64::MIN,
        ensures
            match size_of_dimensions(unit.width, unit.length) {
                None => r matches Err(m) && m@ == nonstandard_message(unit.unit_number@),
                Some(size) => r matches Ok(f) && {
                    &&& f.unit_number == unit.unit_number
                    &&& f.building == unit.building
                    &&& f.size == size
                    &&& f.monthly_rent@ == money_input_text(unit.monthly_rent_cents as int)
                    &&& f.layout_section == unit.layout_section
                    &&& f.display_order@ == int_text(unit.display_order as int)
                    &&& f.yellow_lock == unit.yellow_lock
                    &&& f.red_lock == unit.red_lock
                    &&& f.notes == unit.notes
                },
            },
    {
        let size = match UnitSize::from_dimensions(unit.width, unit.length) {
            Some(s) => s,
            None => {
                let mut out = chars_of("Unit ");
                append_str(&mut out, unit.unit_number.as_str());
                append_str(&mut out, " has dimensions that do not match a standard size.");
                return Err(string_of(&out));
            },
        };
        let mut order: Vec<char> = Vec::new();
        push_int(&mut order, unit.display_order);
        assert(order@ =~= int_text(unit.display_order as int));
        Ok(UnitForm {
            unit_number: unit.unit_number.clone(),
            building: unit.building.clone(),
            size,
            monthly_rent: format_money_input(unit.monthly_rent_cents),
            layout_section: unit.layout_section.clone(),
            display_order: string_of(&order),
            yellow_lock: unit.yellow_lock,
            red_lock: unit.red_lock,
            notes: unit.notes.clone(),
        })
    }

    pub fn to_new_unit(&self) -> (r: Result<NewUnit, String>)
        ensures
            match unit_from_form(*self) {
                Err(m) => r matches Err(e) && e@ == m,
                Ok((number, building, size, rent, section, order, yellow, red, notes)) => r matches Ok(
                    u,
                ) && {
                    &&& u.unit_number@ == number
                    &&& u.building@ == building
                    &&& u.width == Some(size_dimensions(size).0)
                    &&& u.length == Some(size_dimensions(size).1)
                    &&& u.monthly_rent_cents == rent
                    &&& u.layout_section@ == section
                    &&& u.display_order == order
                    &&& u.yellow_lock == yellow
                    &&& u.red_lock == red
                    &&& u.notes@ == notes
                },
            },
    {
        let unit_number = trim_string(self.unit_number.as_str());
        if unit_number.as_str().is_empty() {
            return Err(owned("Unit number is required."));
        }
        let monthly_rent_cents = match parse_dollars_to_cents(self.monthly_rent.as_str()) {
            Ok(v) => v,
            Err(e) => {
                return Err(e);
            },
        };
        let display_order = match parse_display_order(self.display_order.as_str()) {
            Ok(v) => v,
            Err(e) => {
                return Err(e);
            },
        };
        let (width, length) = self.size.dimensions();
        Ok(NewUnit {
            unit_number,
            building: trim_string(self.building.as_str()),
            width: Some(width),
            length: Some(length),
            monthly_rent_cents,
            layout_section: trim_string(self.layout_section.as_str()),
            display_order,
            yellow_lock: self.yellow_lock,
            red_lock: self.red_lock,
            notes: trim_string(self.notes.as_str()),
        })
    }
}

/// A unit waiting for the user to confirm archiving or deleting it.
#[derive(Debug, Clone)]
pub struct PendingUnit {
    pub id: i64,
    pub unit_number: String,
}

/// The units page.
pub struct UnitsPage {
    pub form: UnitForm,
    pub units: Vec<Unit>,
    pub archived_units: Vec<Unit>,
    pub loaded: bool,
    pub editing_unit_id: Option<i64>,
    pub pending_archive: Option<PendingUnit>,
    pub pending_delete: Option<PendingUnit>,
    pub error_message: Option<String>,
}

impl Default for UnitsPage {
    fn default() -> (p: Self)
        ensures
            unit_form_is_clear(p.form),
            p.units@.len() == 0,
            p.archived_units@.len() == 0,
            !p.loaded,
            p.editing_unit_id is None,
            p.pending_archive is None,
            p.pending_delete is None,
            p.error_message is None,
    {
        UnitsPage {
            form: UnitForm::default(),
            units: Vec::new(),
            archived_units: Vec::new(),
            loaded: false,
            editing_unit_id: None,
            pending_archive: None,
            pending_delete: None,
            error_message: None,
        }
    }
}

/// What an operation on a unit led to: the status message, and whether
/// the stored data changed (so the lists are to be loaded again).
pub struct UnitOutcome {
    pub status: String,
    pub data_changed: bool,
}

/// The requests waiting for confirmation stay.
pub open spec fn unit_requests_kept(p: UnitsPage, q: UnitsPage) -> bool {
    &&& q.pending_archive == p.pending_archive
    &&& q.pending_delete == p.pending_delete
}

pub open spec fn unit_lists_kept(p: UnitsPage, q: UnitsPage) -> bool {
    &&& q.units == p.units
    &&& q.archived_units == p.archived_units
    &&& q.loaded == p.loaded
}

pub open spec fn unit_form_reset(q: UnitsPage) -> bool {
    &&& unit_form_is_clear(q.form)
    &&& q.editing_unit_id is None
}

/// `Unit <number><rest>`.
pub open spec fn about_unit(number: Seq<char>, rest: Seq<char>) -> Seq<char> {
    "Unit "@ + number + rest
}

fn unit_sentence(prefix: &str, number: &str, rest: &str) -> (s: String)
    ensures
        s@ == prefix@ + about_unit(number@, rest@),
{
    let mut out = chars_of(prefix);
    append_str(&mut out, "Unit ");
    append_str(&mut out, number);
    append_str(&mut out, rest);
    assert(out@ =~= prefix@ + about_unit(number@, rest@));
    string_of(&out)
}

fn unit_failure(what: &str, number: &str, error: &str) -> (s: String)
    ensures
        s@ == unable_message(what@ + about_unit(number@, ""@), error@),
{
    let mut out = chars_of(what);
    append_str(&mut out, "Unit ");
    append_str(&mut out, number);
    let w = string_of(&out);
    proof {
        reveal_strlit("");
        assert(w@ =~= what@ + about_unit(number@, ""@));
    }
    unable(w.as_str(), error)
}

impl UnitsPage {
    pub fn set_error(&mut self, message: String) -> (status: String)
        ensures
            final(self).error_message == Some(message),
            final(self).form == old(self).form,
            final(self).editing_unit_id == old(self).editing_unit_id,
            final(self).pending_archive == old(self).pending_archive,
            final(self).pending_delete == old(self).pending_delete,
            unit_lists_kept(*old(self), *final(self)),
            status@ == message@,
    {
        let status = message.clone();
        self.error_message = Some(message);
        status
    }

    fn reset_form(&mut self)
        ensures
            unit_form_reset(*final(self)),
            unit_lists_kept(*old(self), *final(self)),
            final(self).error_message == old(self).error_message,
            final(self).pending_archive == old(self).pending_archive,
            final(self).pending_delete == old(self).pending_delete,
    {
        self.editing_unit_id = None;
        self.form = UnitForm::default();
    }

    /// Starts editing the listed unit with the ID `id`.
    pub fn begin_edit(&mut self, id: i64) -> (status: String)
        requires
            forall|i: int| 0 <= i < old(self).units@.len() ==> #[trigger] old(self).units@[i].monthly_rent_cents > i64::MIN,
        ensures
            unit_lists_kept(*old(self), *final(self)),
            final(self).pending_archive == old(self).pending_archive,
            final(self).pending_delete == old(self).pending_delete,
            match first_match(old(self).units@, has_unit_id(id)) {
                None => {
                    &&& status@ == "Unable to find Unit ID "@ + int_text(id as int) + "."@
                    &&& final(self).error_message matches Some(m) && m@ == status@
                    &&& final(self).form == old(self).form
                    &&& final(self).editing_unit_id == old(self).editing_unit_id
                },
                Some(u) => match size_of_dimensions(u.width, u.length) {
                    None => {
                        &&& status@ == nonstandard_message(u.unit_number@)
                        &&& final(self).error_message matches Some(m) && m@ == status@
                        &&& final(self).form == old(self).form
                        &&& final(self).editing_unit_id == old(self).editing_unit_id
                    },
                    Some(size) => {
                        &&& final(self).form.unit_number == u.unit_number
                        &&& final(self).form.building == u.building
                        &&& final(self).form.size == size
                        &&& final(self).form.monthly_rent@ == money_input_text(
                            u.monthly_rent_cents as int,
                        )
                        &&& final(self).form.layout_section == u.layout_section
                        &&& final(self).form.display_order@ == int_text(u.display_order as int)
                        &&& final(self).form.yellow_lock == u.yellow_lock
                        &&& final(self).form.red_lock == u.red_lock
                        &&& final(self).form.notes == u.notes
                        &&& final(self).editing_unit_id == Some(id)
                        &&& final(self).error_message is None
                        &&& status@ == "Editing "@ + about_unit(u.unit_number@, ""@)
                    },
                },
            },
    {
        match find_unit(&self.units, id) {
            None => {
                let mut out = chars_of("Unable to find Unit ID ");
                push_int(&mut out, id);
                append_str(&mut out, ".");
                self.set_error(string_of(&out))
            },
            Some(i) => {
                match UnitForm::from_unit(&self.units[i]) {
                    Ok(form) => {
                        let status = unit_sentence("Editing ", self.units[i].unit_number.as_str(), "");
                        self.form = form;
                        self.editing_unit_id = Some(id);
                        self.error_message = None;
                        status
                    },
                    Err(e) => self.set_error(e),
                }
            },
        }
    }

    pub fn cancel_edit(&mut self) -> (status: String)
        ensures
            unit_form_reset(*final(self)),
            unit_lists_kept(*old(self), *final(self)),
            unit_requests_kept(*old(self), *final(self)),
            final(self).error_message is None,
            status@ == "Unit edit canceled"@,
    {
        self.reset_form();
        self.error_message = None;
        owned("Unit edit canceled")
    }

    pub fn clear_form(&mut self) -> (status: String)
        ensures
            unit_form_is_clear(final(self).form),
            final(self).editing_unit_id == old(self).editing_unit_id,
            unit_lists_kept(*old(self), *final(self)),
            unit_requests_kept(*old(self), *final(self)),
            final(self).error_message is None,
            status@ == "Unit form cleared"@,
    {
        self.form = UnitForm::default();
        self.error_message = None;
        owned("Unit form cleared")
    }

    /// The unit being edited, or the message when none is.
    pub fn editing_target(&self) -> (r: Result<i64, String>)
        ensures
            match self.editing_unit_id {
                Some(id) => r == Ok::<i64, String>(id),
                None => r matches Err(m) && m@ == "No storage unit is selected for editing."@,
            },
    {
        match self.editing_unit_id {
            Some(id) => Ok(id),
            None => Err(owned("No storage unit is selected for editing.")),
        }
    }

    /// After the database was asked to add `unit`.
    pub fn unit_added(&mut self, unit: &NewUnit, result: Result<i64, String>) -> (out: UnitOutcome)
        ensures
            unit_lists_kept(*old(self), *final(self)),
            unit_requests_kept(*old(self), *final(self)),
            final(self).editing_unit_id == old(self).editing_unit_id,
            match result {
                Ok(id) => {
                    &&& unit_form_is_clear(final(self).form)
                    &&& final(self).error_message == old(self).error_message
                    &&& out.data_changed
                    &&& out.status@ == "Added "@ + about_unit(
                        unit.unit_number@,
                        " — database ID "@ + int_text(id as int),
                    )
                },
                Err(e) => {
                    &&& final(self).form == old(self).form
                    &&& !out.data_changed
                    &&& out.status@ == unable_message("add "@ + about_unit(unit.unit_number@, ""@), e@)
                    &&& final(self).error_message matches Some(m) && m@ == out.status@
                },
            },
    {
        match result {
            Ok(id) => {
                let mut rest = chars_of(" — database ID ");
                push_int(&mut rest, id);
                let rest = string_of(&rest);
                self.form = UnitForm::default();
                UnitOutcome {
                    status: unit_sentence("Added ", unit.unit_number.as_str(), rest.as_str()),
                    data_changed: true,
                }
            },
            Err(e) => {
                let status = self.set_error(
                    unit_failure("add ", unit.unit_number.as_str(), e.as_str()),
                );
                UnitOutcome { status, data_changed: false }
            },
        }
    }

    /// After the database was asked to save `unit` as the unit `id`.
    pub fn unit_updated(&mut self, id: i64, unit: &NewUnit, result: Result<bool, String>) -> (out:
        UnitOutcome)
        ensures
            unit_lists_kept(*old(self), *final(self)),
            unit_requests_kept(*old(self), *final(self)),
            match result {
                Ok(true) => {
                    &&& unit_form_reset(*final(self))
                    &&& final(self).error_message == old(self).error_message
                    &&& out.data_changed
                    &&& out.status@ == "Updated "@ + about_unit(unit.unit_number@, ""@)
                },
                Ok(false) => {
                    &&& final(self).form == old(self).form
                    &&& final(self).editing_unit_id == old(self).editing_unit_id
                    &&& !out.data_changed
                    &&& out.status@ == "Unit ID "@ + int_text(id as int) + " no longer exists."@
                    &&& final(self).error_message matches Some(m) && m@ == out.status@
                },
                Err(e) => {
                    &&& final(self).form == old(self).form
                    &&& final(self).editing_unit_id == old(self).editing_unit_id
                    &&& !out.data_changed
                    &&& out.status@ == unable_message(
                        "update "@ + about_unit(unit.unit_number@, ""@),
                        e@,
                    )
                    &&& final(self).error_message matches Some(m) && m@ == out.status@
                },
            },
    {
        match result {
            Ok(true) => {
                self.reset_form();
                UnitOutcome {
                    status: unit_sentence("Updated ", unit.unit_number.as_str(), ""),
                    data_changed: true,
                }
            },
            Ok(false) => {
                let mut out = chars_of("Unit ID ");
                push_int(&mut out, id);
                append_str(&mut out, " no longer exists.");
                let status = self.set_error(string_of(&out));
                UnitOutcome { status, data_changed: false }
            },
            Err(e) => {
                let status = self.set_error(
                    unit_failure("update ", unit.unit_number.as_str(), e.as_str()),
                );
                UnitOutcome { status, data_changed: false }
            },
        }
    }

    /// After the database was asked to set the cleaning mark of unit
    /// `number` to `needs_cleaned`.
    pub fn cleaning_status_set(
        &mut self,
        number: &str,
        needs_cleaned: bool,
        result: Result<bool, String>,
    ) -> (out: UnitOutcome)
        ensures
            unit_lists_kept(*old(self), *final(self)),
            unit_requests_kept(*old(self), *final(self)),
            final(self).form == old(self).form,
            final(self).editing_unit_id == old(self).editing_unit_id,
            match result {
                Ok(true) => {
                    &&& final(self).error_message is None
                    &&& out.data_changed
                    &&& out.status@ == about_unit(
                        number@,
                        if needs_cleaned {
                            " marked Needs Cleaned"@
                        } else {
                            " marked Cleaned and Vacant"@
                        },
                    )
                },
                Ok(false) => {
                    &&& !out.data_changed
                    &&& out.status@ == about_unit(
                        number@,
                        " could not be updated. It may be occupied or no longer exist."@,
                    )
                    &&& final(self).error_message matches Some(m) && m@ == out.status@
                },
                Err(e) => {
                    &&& !out.data_changed
                    &&& out.status@ == unable_message(
                        "update cleaning status for "@ + about_unit(number@, ""@),
                        e@,
                    )
                    &&& final(self).error_message matches Some(m) && m@ == out.status@
                },
            },
    {
        match result {
            Ok(true) => {
                self.error_message = None;
                let rest = if needs_cleaned {
                    " marked Needs Cleaned"
                } else {
                    " marked Cleaned and Vacant"
                };
                let status = unit_sentence("", number, rest);
                proof {
                    reveal_strlit("");
                }
                UnitOutcome { status, data_changed: true }
            },
            Ok(false) => {
                let message = unit_sentence(
                    "",
                    number,
                    " could not be updated. It may be occupied or no longer exist.",
                );
                proof {
                    reveal_strlit("");
                }
                let status = self.set_error(message);
                UnitOutcome { status, data_changed: false }
            },
            Err(e) => {
                let status = self.set_error(
                    unit_failure("update cleaning status for ", number, e.as_str()),
                );
                UnitOutcome { status, data_changed: false }
            },
        }
    }

    /// The user asked to archive (`archive`) or delete the listed unit at
    /// `index`.
    pub fn request_removal(&mut self, index: usize, archive: bool)
        requires
            index < old(self).units@.len(),
        ensures
            unit_lists_kept(*old(self), *final(self)),
            final(self).form == old(self).form,
            final(self).editing_unit_id == old(self).editing_unit_id,
            final(self).error_message == old(self).error_message,
            if archive {
                &&& final(self).pending_delete == old(self).pending_delete
                &&& final(self).pending_archive matches Some(p) && p.id == old(self).units@[index as int].id
                    && p.unit_number == old(self).units@[index as int].unit_number
            } else {
                &&& final(self).pending_archive == old(self).pending_archive
                &&& final(self).pending_delete matches Some(p) && p.id == old(self).units@[index as int].id
                    && p.unit_number == old(self).units@[index as int].unit_number
            },
    {
        let pending = PendingUnit {
            id: self.units[index].id,
            unit_number: self.units[index].unit_number.clone(),
        };
        if archive {
            self.pending_archive = Some(pending);
        } else {
            self.pending_delete = Some(pending);
        }
    }

    /// The user turned down archiving (`archive`) or deleting.
    pub fn cancel_removal(&mut self, archive: bool) -> (status: String)
        ensures
            unit_lists_kept(*old(self), *final(self)),
            final(self).form == old(self).form,
            final(self).editing_unit_id == old(self).editing_unit_id,
            final(self).error_message == old(self).error_message,
            archive ==> final(self).pending_archive is None && final(self).pending_delete == old(self).pending_delete && status@ == "Unit archive canceled"@,
            !archive ==> final(self).pending_delete is None && final(self).pending_archive == old(self).pending_archive && status@ == "Unit deletion canceled"@,
    {
        if archive {
            self.pending_archive = None;
            owned("Unit archive canceled")
        } else {
            self.pending_delete = None;
            owned("Unit deletion canceled")
        }
    }

    /// After the database was asked to archive (`archive`) or delete the
    /// pending unit.
    pub fn removal_finished(&mut self, pending: &PendingUnit, archive: bool, result: Result<bool, String>) -> (out:
        UnitOutcome)
        ensures
            unit_lists_kept(*old(self), *final(self)),
            archive ==> final(self).pending_archive is None && final(self).pending_delete == old(self).pending_delete,
            !archive ==> final(self).pending_delete is None && final(self).pending_archive == old(self).pending_archive,
            match result {
                Ok(true) => {
                    &&& (old(self).editing_unit_id == Some(pending.id) ==> unit_form_reset(
                        *final(self),
                    ))
                    &&& (old(self).editing_unit_id != Some(pending.id) ==> final(self).form
                        == old(self).form && final(self).editing_unit_id
                        == old(self).editing_unit_id)
                    &&& final(self).error_message is None
                    &&& out.data_changed
                    &&& out.status@ == (if archive { "Archived "@ } else { "Deleted "@ })
                        + about_unit(pending.unit_number@, ""@)
                },
                Ok(false) => {
                    &&& final(self).form == old(self).form
                    &&& final(self).editing_unit_id == old(self).editing_unit_id
                    &&& !out.data_changed
                    &&& out.status@ == about_unit(
                        pending.unit_number@,
                        if archive {
                            " is already archived or no longer exists."@
                        } else {
                            " no longer exists."@
                        },
                    )
                    &&& final(self).error_message matches Some(m) && m@ == out.status@
                },
                Err(e) => {
                    &&& final(self).form == old(self).form
                    &&& final(self).editing_unit_id == old(self).editing_unit_id
                    &&& !out.data_changed
                    &&& out.status@ == unable_message(
                        (if archive { "archive "@ } else { "delete "@ }) + about_unit(
                            pending.unit_number@,
                            ""@,
                        ),
                        e@,
                    )
                    &&& final(self).error_message matches Some(m) && m@ == out.status@
                },
            },
    {
        if archive {
            self.pending_archive = None;
        } else {
            self.pending_delete = None;
        }
        match result {
            Ok(true) => {
                if self.editing_unit_id == Some(pending.id) {
                    self.reset_form();
                }
                self.error_message = None;
                let prefix = if archive { "Archived " } else { "Deleted " };
                UnitOutcome {
                    status: unit_sentence(prefix, pending.unit_number.as_str(), ""),
                    data_changed: true,
                }
            },
            Ok(false) => {
                let rest = if archive {
                    " is already archived or no longer exists."
                } else {
                    " no longer exists."
                };
                let message = unit_sentence("", pending.unit_number.as_str(), rest);
                proof {
                    reveal_strlit("");
                }
                let status = self.set_error(message);
                UnitOutcome { status, data_changed: false }
            },
            Err(e) => {
                let what = if archive { "archive " } else { "delete " };
                let status = self.set_error(
                    unit_failure(what, pending.unit_number.as_str(), e.as_str()),
                );
                UnitOutcome { status, data_changed: false }
            },
        }
    }

    /// After the database was asked to restore the archived unit `number`.
    pub fn restore_finished(&mut self, number: &str, result: Result<bool, String>) -> (out: UnitOutcome)
        ensures
            unit_lists_kept(*old(self), *final(self)),
            unit_requests_kept(*old(self), *final(self)),
            final(self).form == old(self).form,
            final(self).editing_unit_id == old(self).editing_unit_id,
            match result {
                Ok(true) => {
                    &&& final(self).error_message is None
                    &&& out.data_changed
                    &&& out.status@ == "Restored "@ + about_unit(number@, ""@)
                },
                Ok(false) => {
                    &&& !out.data_changed
                    &&& out.status@ == about_unit(number@, " is not archived or no longer exists."@)
                    &&& final(self).error_message matches Some(m) && m@ == out.status@
                },
                Err(e) => {
                    &&& !out.data_changed
                    &&& out.status@ == unable_message("restore "@ + about_unit(number@, ""@), e@)
                    &&& final(self).error_message matches Some(m) && m@ == out.status@
                },
            },
    {
        match result {
            Ok(true) => {
                self.error_message = None;
                UnitOutcome { status: unit_sentence("Restored ", number, ""), data_changed: true }
            },
            Ok(false) => {
                let message = unit_sentence("", number, " is not archived or no longer exists.");
                proof {
                    reveal_strlit("");
                }
                let status = self.set_error(message);
                UnitOutcome { status, data_changed: false }
            },
            Err(e) => {
                let status = self.set_error(unit_failure("restore ", number, e.as_str()));
                UnitOutcome { status, data_changed: false }
            },
        }
    }

    pub fn load_failed(&mut self, what: &str, error: &str) -> (status: String)
        ensures
            final(self).loaded,
            final(self).units == old(self).units,
            final(self).archived_units == old(self).archived_units,
            final(self).form == old(self).form,
            final(self).editing_unit_id == old(self).editing_unit_id,
            unit_requests_kept(*old(self), *final(self)),
            status@ == unable_message("load "@ + what@, error@),
            final(self).error_message matches Some(m) && m@ == status@,
    {
        self.loaded = true;
        let what_full = join2("load ", what);
        let message = unable(what_full.as_str(), error);
        self.set_error(message)
    }

    pub fn loaded_with(&mut self, units: Vec<Unit>, archived_units: Vec<Unit>)
        ensures
            final(self).units == units,
            final(self).archived_units == archived_units,
            final(self).loaded,
            final(self).error_message is None,
            final(self).form == old(self).form,
            final(self).editing_unit_id == old(self).editing_unit_id,
            final(self).pending_archive == old(self).pending_archive,
            final(self).pending_delete == old(self).pending_delete,
    {
        self.units = units;
        self.archived_units = archived_units;
        self.loaded = true;
        self.error_message = None;
    }
}

/// Editing a unit and saving the form unchanged keeps its size, rent and
/// place in the layout: the form of a unit of standard size, with a rent
/// of zero or more and a place that is not negative, reads back as the
/// same values.
pub proof fn lemma_edit_form_reads_back(u: Unit, f: UnitForm)
    requires
        size_of_dimensions(u.width, u.length) is Some,
        u.monthly_rent_cents >= 0,
        u.display_order >= 0,
        trim(u.unit_number@).len() > 0,
        f.unit_number == u.unit_number,
        f.size == size_of_dimensions(u.width, u.length)->Some_0,
        f.monthly_rent@ == money_input_text(u.monthly_rent_cents as int),
        f.display_order@ == int_text(u.display_order as int),
    ensures
        unit_from_form(f) matches Ok(v) && v.2 == f.size && v.3 == u.monthly_rent_cents
            && v.5 == u.display_order,
        size_dimensions(f.size) == (u.width->Some_0, u.length->Some_0),
{
    crate::money::lemma_input_text_reads_back(u.monthly_rent_cents);
    let t = int_text(u.display_order as int);
    crate::text::lemma_decimal_all_digits(u.display_order as nat);
    assert(crate::text::is_digit(t[0]));
    assert(crate::text::is_digit(t.last()));
    assert(crate::text::trim_start(t) == t);
    assert(crate::text::trim_end(t) == t);
    assert(crate::text::parse_i64(t) == Some(u.display_order));
}

} // verus!
