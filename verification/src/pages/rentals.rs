//! The rentals page: starting a rental of a vacant unit for an active
//! tenant, and ending active rentals.
use vstd::prelude::*;
use crate::dates::{date_message, iso_date, validate_iso_date};
use crate::models::{full_name, NewRental, Rental, Tenant, Unit};
use crate::money::{
    amount_error_message, amount_message, amount_value, format_money_input, money_input_text,
    money_text, parse_amount, push_money_input,
};
use crate::pages::{first_match, unable, unable_message};
use crate::pages::tenants::{find_tenant, has_tenant_id};
use crate::pages::units::{find_unit, has_unit_id};
use crate::text::{
    append_str, chars_of, int_text, is_text_less, join2, owned, push_int, string_of, text_less, trim,
    trim_string,
};

verus! {

/// Reads the typed monthly rent as cents; zero is accepted.
pub fn parse_dollars_to_cents(text: &str) -> (r: Result<i64, String>)
    ensures
        match amount_value(text@) {
            Ok(v) => r == Ok::<i64, String>(v),
            Err(e) => r matches Err(m) && m@ == amount_message("Monthly rent"@, e),
        },
{
    match parse_amount(text) {
        Ok(v) => Ok(v),
        Err(e) => Err(amount_error_message("Monthly rent", e)),
    }
}

/// How a vacant unit is offered: building (if any), unit number and rent.
pub open spec fn unit_offer_label(u: Unit) -> Seq<char> {
    if u.building@.len() == 0 {
        u.unit_number@ + " — "@ + money_text(u.monthly_rent_cents as int)
    } else {
        u.building@ + " / "@ + u.unit_number@ + " — "@ + money_text(u.monthly_rent_cents as int)
    }
}

pub fn unit_display_name(unit: &Unit) -> (s: String)
    requires
        unit.monthly_rent_cents > i64::MIN,
    ensures
        s@ == unit_offer_label(*unit),
{
    let mut out: Vec<char> = Vec::new();
    if !unit.building.as_str().is_empty() {
        append_str(&mut out, unit.building.as_str());
        append_str(&mut out, " / ");
    }
    append_str(&mut out, unit.unit_number.as_str());
    append_str(&mut out, " — ");
    out.push('$');
    push_money_input(&mut out, unit.monthly_rent_cents);
    assert(out@ =~= unit_offer_label(*unit));
    string_of(&out)
}

/// What the rental form holds while it is being filled in.
pub struct RentalForm {
    pub tenant_id: Option<i64>,
    pub unit_id: Option<i64>,
    pub start_date: String,
    pub monthly_rent: String,
    pub notes: String,
}

pub open spec fn rental_form_is_clear(f: RentalForm) -> bool {
    &&& f.tenant_id is None
    &&& f.unit_id is None
    &&& f.start_date@.len() == 0
    &&& f.monthly_rent@.len() == 0
    &&& f.notes@.len() == 0
}

impl Default for RentalForm {
    fn default() -> (f: Self)
        ensures
            rental_form_is_clear(f),
    {
        RentalForm {
            tenant_id: None,
            unit_id: None,
            start_date: String::new(),
            monthly_rent: String::new(),
            notes: String::new(),
        }
    }
}

/// An active rental waiting for the user to confirm its end.
#[derive(Debug, Clone)]
pub struct PendingEnd {
    pub rental_id: i64,
    pub tenant_name: String,
    pub unit_number: String,
    pub start_date: String,
    pub end_date: String,
}

/// The rentals page.
pub struct RentalsPage {
    pub form: RentalForm,
    pub tenants: Vec<Tenant>,
    pub vacant_units: Vec<Unit>,
    pub active_rentals: Vec<Rental>,
    pub loaded: bool,
    pub pending_end: Option<PendingEnd>,
    pub error_message: Option<String>,
}

impl Default for RentalsPage {
    fn default() -> (p: Self)
        ensures
            rental_form_is_clear(p.form),
            p.tenants@.len() == 0,
            p.vacant_units@.len() == 0,
            p.active_rentals@.len() == 0,
            !p.loaded,
            p.pending_end is None,
            p.error_message is None,
    {
        RentalsPage {
            form: RentalForm::default(),
            tenants: Vec::new(),
            vacant_units: Vec::new(),
            active_rentals: Vec::new(),
            loaded: false,
            pending_end: None,
            error_message: None,
        }
    }
}

/// The loaded lists stay as they were.
pub open spec fn rental_lists_kept(p: RentalsPage, q: RentalsPage) -> bool {
    &&& q.tenants == p.tenants
    &&& q.vacant_units == p.vacant_units
    &&& q.active_rentals == p.active_rentals
    &&& q.loaded == p.loaded
}

pub open spec fn units_displayable(units: Seq<Unit>) -> bool {
    forall|i: int| 0 <= i < units.len() ==> #[trigger] units[i].monthly_rent_cents > i64::MIN
}

/// The rental the form describes, or why it cannot be started.
pub open spec fn rental_from_form(f: RentalForm) -> Result<(i64, i64, Seq<char>, i64, Seq<char>), Seq<char>> {
    match f.tenant_id {
        None => Err("A tenant must be selected."@),
        Some(tenant_id) => match f.unit_id {
            None => Err("A storage unit must be selected."@),
            Some(unit_id) => match iso_date(f.start_date@) {
                Err(e) => Err(date_message("Start date"@, e)),
                Ok(date) => match amount_value(f.monthly_rent@) {
                    Err(e) => Err(amount_message("Monthly rent"@, e)),
                    Ok(rent) => Ok((tenant_id, unit_id, date, rent, trim(f.notes@))),
                },
            },
        },
    }
}

/// How the tenant of a new rental is named in the status message.
pub open spec fn tenant_description(tenants: Seq<Tenant>, id: i64) -> Seq<char> {
    match first_match(tenants, has_tenant_id(id)) {
        Some(t) => full_name(t.first_name@, t.last_name@),
        None => "Tenant ID "@ + int_text(id as int),
    }
}

/// How the unit of a new rental is named in the status message.
pub open spec fn unit_description(units: Seq<Unit>, id: i64) -> Seq<char> {
    match first_match(units, has_unit_id(id)) {
        Some(u) => u.unit_number@,
        None => "Unit ID "@ + int_text(id as int),
    }
}

pub open spec fn started_message(tenant: Seq<char>, unit: Seq<char>, id: i64) -> Seq<char> {
    "Started rental for "@ + tenant + " in Unit "@ + unit + " — rental ID "@ + int_text(id as int)
}

/// Why an end date is refused for a rental that started on `start`, if it is.
pub open spec fn end_date_problem(end_text: Seq<char>, start: Seq<char>) -> Option<Seq<char>> {
    match iso_date(end_text) {
        Err(e) => Some(date_message("End date"@, e)),
        Ok(end) => if text_less(end, start) {
            Some("End date cannot be before the rental start date."@)
        } else {
            None
        },
    }
}

impl RentalsPage {
    pub fn set_error(&mut self, message: String) -> (status: String)
        ensures
            final(self).error_message == Some(message),
            final(self).form == old(self).form,
            final(self).tenants == old(self).tenants,
            final(self).vacant_units == old(self).vacant_units,
            final(self).active_rentals == old(self).active_rentals,
            final(self).loaded == old(self).loaded,
            final(self).pending_end == old(self).pending_end,
            status@ == message@,
    {
        let status = message.clone();
        self.error_message = Some(message);
        status
    }

    /// The text of the tenant chooser.
    pub fn selected_tenant_text(&self) -> (s: String)
        ensures
            s@ == match self.form.tenant_id {
                None => "Select Tenant"@,
                Some(id) => match first_match(self.tenants@, has_tenant_id(id)) {
                    Some(t) => full_name(t.first_name@, t.last_name@),
                    None => "Select Tenant"@,
                },
            },
    {
        match self.form.tenant_id {
            None => owned("Select Tenant"),
            Some(id) => match find_tenant(&self.tenants, id) {
                Some(i) => self.tenants[i].display_name(),
                None => owned("Select Tenant"),
            },
        }
    }

    /// The text of the unit chooser.
    pub fn selected_unit_text(&self) -> (s: String)
        requires
            units_displayable(self.vacant_units@),
        ensures
            s@ == match self.form.unit_id {
                None => "Select Unit"@,
                Some(id) => match first_match(self.vacant_units@, has_unit_id(id)) {
                    Some(u) => unit_offer_label(u),
                    None => "Select Unit"@,
                },
            },
    {
        match self.form.unit_id {
            None => owned("Select Unit"),
            Some(id) => match find_unit(&self.vacant_units, id) {
                Some(i) => unit_display_name(&self.vacant_units[i]),
                None => owned("Select Unit"),
            },
        }
    }

    /// After the unit chooser changed from `previous`, the rent is filled
    /// with the chosen unit's rent, or cleared when no unit is chosen.
    pub fn unit_selection_changed(&mut self, previous: Option<i64>)
        requires
            units_displayable(old(self).vacant_units@),
        ensures
            final(self).tenants == old(self).tenants,
            final(self).vacant_units == old(self).vacant_units,
            final(self).active_rentals == old(self).active_rentals,
            final(self).loaded == old(self).loaded,
            final(self).pending_end == old(self).pending_end,
            final(self).error_message == old(self).error_message,
            final(self).form.tenant_id == old(self).form.tenant_id,
            final(self).form.unit_id == old(self).form.unit_id,
            final(self).form.start_date == old(self).form.start_date,
            final(self).form.notes == old(self).form.notes,
            final(self).form.monthly_rent@ == if old(self).form.unit_id == previous {
                old(self).form.monthly_rent@
            } else {
                match old(self).form.unit_id {
                    None => Seq::<char>::empty(),
                    Some(id) => match first_match(old(self).vacant_units@, has_unit_id(id)) {
                        Some(u) => money_input_text(u.monthly_rent_cents as int),
                        None => old(self).form.monthly_rent@,
                    },
                }
            },
    {
        if self.form.unit_id != previous {
            match self.form.unit_id {
                Some(id) => {
                    match find_unit(&self.vacant_units, id) {
                        Some(i) => {
                            let cents = self.vacant_units[i].monthly_rent_cents;
                            self.form.monthly_rent = format_money_input(cents);
                        },
                        None => {},
                    }
                },
                None => {
                    self.form.monthly_rent = String::new();
                },
            }
        }
    }

    /// A rental can be started only while there are active tenants and
    /// vacant units.
    pub fn can_start(&self) -> (b: bool)
        ensures
            b == (self.tenants@.len() > 0 && self.vacant_units@.len() > 0),
    {
        self.tenants.len() > 0 && self.vacant_units.len() > 0
    }

    pub fn clear_form(&mut self) -> (status: String)
        ensures
            rental_form_is_clear(final(self).form),
            final(self).error_message is None,
            final(self).tenants == old(self).tenants,
            final(self).vacant_units == old(self).vacant_units,
            final(self).active_rentals == old(self).active_rentals,
            final(self).loaded == old(self).loaded,
            final(self).pending_end == old(self).pending_end,
            status@ == "Rental form cleared"@,
    {
        self.form = RentalForm::default();
        self.error_message = None;
        owned("Rental form cleared")
    }

    /// Turns the form into the rental to start, with the names of its
    /// tenant and unit for the status message, or gives the message that
    /// explains why it cannot.
    pub fn prepare_rental(&self) -> (r: Result<(NewRental, String, String), String>)
        ensures
            match rental_from_form(self.form) {
                Err(m) => r matches Err(e) && e@ == m,
                Ok((tenant_id, unit_id, date, rent, notes)) => r matches Ok((n, t, u)) && {
                    &&& n.tenant_id == tenant_id
                    &&& n.unit_id == unit_id
                    &&& n.start_date@ == date
                    &&& n.monthly_rent_cents == rent
                    &&& n.notes@ == notes
                    &&& t@ == tenant_description(self.tenants@, tenant_id)
                    &&& u@ == unit_description(self.vacant_units@, unit_id)
                },
            },
    {
        let tenant_id = match self.form.tenant_id {
            None => {
                return Err(owned("A tenant must be selected."));
            },
            Some(id) => id,
        };
        let unit_id = match self.form.unit_id {
            None => {
                return Err(owned("A storage unit must be selected."));
            },
            Some(id) => id,
        };
        let start_date = match validate_iso_date(self.form.start_date.as_str(), "Start date") {
            Ok(d) => d,
            Err(e) => {
                return Err(e);
            },
        };
        let monthly_rent_cents = match parse_dollars_to_cents(self.form.monthly_rent.as_str()) {
            Ok(v) => v,
            Err(e) => {
                return Err(e);
            },
        };
        let tenant_name = match find_tenant(&self.tenants, tenant_id) {
            Some(i) => self.tenants[i].display_name(),
            None => {
                let mut out = chars_of("Tenant ID ");
                push_int(&mut out, tenant_id);
                string_of(&out)
            },
        };
        let unit_number = match find_unit(&self.vacant_units, unit_id) {
            Some(i) => self.vacant_units[i].unit_number.clone(),
            None => {
                let mut out = chars_of("Unit ID ");
                push_int(&mut out, unit_id);
                string_of(&out)
            },
        };
        let rental = NewRental {
            tenant_id,
            unit_id,
            start_date,
            monthly_rent_cents,
            notes: trim_string(self.form.notes.as_str()),
        };
        Ok((rental, tenant_name, unit_number))
    }

    /// After the database started the rental `id`: the form is cleared.
    pub fn rental_started(&mut self, tenant_name: &str, unit_number: &str, id: i64) -> (status: String)
        ensures
            rental_form_is_clear(final(self).form),
            final(self).tenants == old(self).tenants,
            final(self).vacant_units == old(self).vacant_units,
            final(self).active_rentals == old(self).active_rentals,
            final(self).loaded == old(self).loaded,
            final(self).pending_end == old(self).pending_end,
            final(self).error_message == old(self).error_message,
            status@ == started_message(tenant_name@, unit_number@, id),
    {
        self.form = RentalForm::default();
        let mut out = chars_of("Started rental for ");
        append_str(&mut out, tenant_name);
        append_str(&mut out, " in Unit ");
        append_str(&mut out, unit_number);
        append_str(&mut out, " — rental ID ");
        push_int(&mut out, id);
        string_of(&out)
    }

    /// The user asked to end the listed rental at `index`; the end date
    /// starts out empty.
    pub fn request_end(&mut self, index: usize)
        requires
            index < old(self).active_rentals@.len(),
        ensures
            final(self).pending_end matches Some(p) && {
                let r = old(self).active_rentals@[index as int];
                &&& p.rental_id == r.id
                &&& p.tenant_name == r.tenant_name
                &&& p.unit_number == r.unit_number
                &&& p.start_date == r.start_date
                &&& p.end_date@.len() == 0
            },
            final(self).form == old(self).form,
            rental_lists_kept(*old(self), *final(self)),
            final(self).error_message == old(self).error_message,
    {
        let r = &self.active_rentals[index];
        let pending = PendingEnd {
            rental_id: r.id,
            tenant_name: r.tenant_name.clone(),
            unit_number: r.unit_number.clone(),
            start_date: r.start_date.clone(),
            end_date: String::new(),
        };
        self.pending_end = Some(pending);
    }

    pub fn cancel_end(&mut self) -> (status: String)
        ensures
            final(self).pending_end is None,
            final(self).form == old(self).form,
            rental_lists_kept(*old(self), *final(self)),
            final(self).error_message == old(self).error_message,
            status@ == "End rental canceled"@,
    {
        self.pending_end = None;
        owned("End rental canceled")
    }

    /// The user confirmed ending the rental: gives the end date to store,
    /// or keeps the confirmation open with the message that explains why
    /// the date is refused.
    pub fn confirm_end(&mut self, pending: PendingEnd) -> (r: Result<(PendingEnd, String), String>)
        ensures
            final(self).form == old(self).form,
            rental_lists_kept(*old(self), *final(self)),
            match end_date_problem(pending.end_date@, pending.start_date@) {
                Some(m) => {
                    &&& r matches Err(s) && s@ == m
                    &&& final(self).pending_end == Some(pending)
                    &&& final(self).error_message matches Some(e) && e@ == m
                },
                None => r matches Ok((p, d)) && p == pending && d@ == iso_date(
                    pending.end_date@,
                )->Ok_0 && final(self).pending_end == old(self).pending_end
                    && final(self).error_message == old(self).error_message,
            },
    {
        let end_date = match validate_iso_date(pending.end_date.as_str(), "End date") {
            Ok(d) => d,
            Err(e) => {
                self.pending_end = Some(pending);
                return Err(self.set_error(e));
            },
        };
        if is_text_less(end_date.as_str(), pending.start_date.as_str()) {
            self.pending_end = Some(pending);
            return Err(self.set_error(owned("End date cannot be before the rental start date.")));
        }
        Ok((pending, end_date))
    }

    /// After the database was asked to end the pending rental; gives the
    /// status message and whether the stored data changed.
    pub fn end_finished(&mut self, pending: PendingEnd, result: Result<bool, String>) -> (out: (String, bool))
        ensures
            final(self).form == old(self).form,
            rental_lists_kept(*old(self), *final(self)),
            match result {
                Ok(true) => {
                    &&& final(self).pending_end is None
                    &&& final(self).error_message is None
                    &&& out.1
                    &&& out.0@ == "Ended rental for "@ + pending.tenant_name@ + " in Unit "@
                        + pending.unit_number@
                },
                Ok(false) => {
                    &&& final(self).pending_end is None
                    &&& !out.1
                    &&& out.0@ == "The rental for Unit "@ + pending.unit_number@
                        + " is no longer active."@
                    &&& final(self).error_message matches Some(m) && m@ == out.0@
                },
                Err(e) => {
                    &&& final(self).pending_end == Some(pending)
                    &&& !out.1
                    &&& out.0@ == unable_message("end rental"@, e@)
                    &&& final(self).error_message matches Some(m) && m@ == out.0@
                },
            },
    {
        match result {
            Ok(true) => {
                self.pending_end = None;
                self.error_message = None;
                let mut out = chars_of("Ended rental for ");
                append_str(&mut out, pending.tenant_name.as_str());
                append_str(&mut out, " in Unit ");
                append_str(&mut out, pending.unit_number.as_str());
                (string_of(&out), true)
            },
            Ok(false) => {
                self.pending_end = None;
                let mut out = chars_of("The rental for Unit ");
                append_str(&mut out, pending.unit_number.as_str());
                append_str(&mut out, " is no longer active.");
                let status = self.set_error(string_of(&out));
                (status, false)
            },
            Err(e) => {
                let message = unable("end rental", e.as_str());
                self.pending_end = Some(pending);
                let status = self.set_error(message);
                (status, false)
            },
        }
    }

    pub fn load_failed(&mut self, what: &str, error: &str) -> (status: String)
        ensures
            final(self).loaded,
            final(self).form == old(self).form,
            final(self).tenants == old(self).tenants,
            final(self).vacant_units == old(self).vacant_units,
            final(self).active_rentals == old(self).active_rentals,
            final(self).pending_end == old(self).pending_end,
            status@ == unable_message("load "@ + what@, error@),
            final(self).error_message matches Some(m) && m@ == status@,
    {
        self.loaded = true;
        let what_full = join2("load ", what);
        let message = unable(what_full.as_str(), error);
        self.set_error(message)
    }

    pub fn loaded_with(&mut self, tenants: Vec<Tenant>, vacant_units: Vec<Unit>, active_rentals: Vec<Rental>)
        ensures
            final(self).tenants == tenants,
            final(self).vacant_units == vacant_units,
            final(self).active_rentals == active_rentals,
            final(self).loaded,
            final(self).error_message is None,
            final(self).form == old(self).form,
            final(self).pending_end == old(self).pending_end,
    {
        self.tenants = tenants;
        self.vacant_units = vacant_units;
        self.active_rentals = active_rentals;
        self.loaded = true;
        self.error_message = None;
    }
}

/// A rental prepared from the form passes every check that starting it
/// makes before the database is asked, when its tenant and unit IDs are
/// positive (as stored IDs are) and its rent is not negative.
pub proof fn lemma_prepared_rental_is_acceptable(f: RentalForm, n: NewRental)
    requires
        rental_from_form(f) is Ok,
        n.tenant_id == rental_from_form(f)->Ok_0.0,
        n.unit_id == rental_from_form(f)->Ok_0.1,
        n.start_date@ == rental_from_form(f)->Ok_0.2,
        n.monthly_rent_cents == rental_from_form(f)->Ok_0.3,
        n.tenant_id > 0,
        n.unit_id > 0,
        n.monthly_rent_cents >= 0,
    ensures
        crate::database::rental_request_problem(n) is None,
{
    crate::dates::lemma_accepted_date_is_stable(f.start_date@);
}


/// Ending a rental goes by the calendar: an accepted end date is refused
/// exactly when it falls before the rental's start date (whole date:
/// year, then month, then day), and the same day is allowed.
pub proof fn lemma_end_date_follows_calendar(end_text: Seq<char>, start: Seq<char>)
    requires
        crate::dates::iso_shape(start),
    ensures
        iso_date(end_text) is Err ==> end_date_problem(end_text, start) is Some,
        iso_date(end_text) is Ok ==> (end_date_problem(end_text, start) is Some
            <==> crate::dates::date_key(iso_date(end_text)->Ok_0) < crate::dates::date_key(start)),
{
    if iso_date(end_text) is Ok {
        crate::dates::lemma_accepted_date_is_stable(end_text);
        crate::dates::lemma_date_text_order(iso_date(end_text)->Ok_0, start);
    }
}

} // verus!
