//! The payments page: recording a payment against an active rental and
//! listing the payment history.
use vstd::prelude::*;
use crate::dates::{date_message, iso_date, validate_iso_date};
use crate::models::{NewPayment, Payment, PaymentMethod, Rental};
use crate::money::{
    amount_error_message, amount_message, format_money_input, money_input_text, money_text,
    parse_positive_amount, positive_amount_value, push_money_input,
};
use crate::pages::{first_match, lemma_first_match_start, lemma_first_match_step};
use crate::text::{append_str, chars_of, int_text, owned, push_int, string_of, trim, trim_string};

verus! {

/// What the payment form holds while it is being filled in.
pub struct PaymentForm {
    pub rental_id: Option<i64>,
    pub payment_date: String,
    pub amount: String,
    pub payment_method: PaymentMethod,
    pub reference: String,
    pub notes: String,
}

pub open spec fn payment_form_is_clear(f: PaymentForm) -> bool {
    &&& f.rental_id is None
    &&& f.payment_date@.len() == 0
    &&& f.amount@.len() == 0
    &&& f.payment_method == PaymentMethod::Cash
    &&& f.reference@.len() == 0
    &&& f.notes@.len() == 0
}

impl Default for PaymentForm {
    fn default() -> (f: Self)
        ensures
            payment_form_is_clear(f),
    {
        PaymentForm {
            rental_id: None,
            payment_date: String::new(),
            amount: String::new(),
            payment_method: PaymentMethod::Cash,
            reference: String::new(),
            notes: String::new(),
        }
    }
}

/// The payments page.
pub struct PaymentsPage {
    pub form: PaymentForm,
    pub active_rentals: Vec<Rental>,
    pub payments: Vec<Payment>,
    pub loaded: bool,
    pub error_message: Option<String>,
}

impl Default for PaymentsPage {
    fn default() -> (p: Self)
        ensures
            payment_form_is_clear(p.form),
            p.active_rentals@.len() == 0,
            p.payments@.len() == 0,
            !p.loaded,
            p.error_message is None,
    {
        PaymentsPage {
            form: PaymentForm::default(),
            active_rentals: Vec::new(),
            payments: Vec::new(),
            loaded: false,
            error_message: None,
        }
    }
}

/// How a rental is named in lists: tenant, unit and monthly rent.
pub open spec fn rental_label(r: Rental) -> Seq<char> {
    r.tenant_name@ + " — Unit "@ + r.unit_number@ + " — "@ + money_text(r.monthly_rent_cents as int)
}

pub open spec fn rent_displayable(rentals: Seq<Rental>) -> bool {
    forall|i: int| 0 <= i < rentals.len() ==> #[trigger] rentals[i].monthly_rent_cents > i64::MIN
}

pub open spec fn has_rental_id(id: i64) -> spec_fn(Rental) -> bool {
    |r: Rental| r.id == id
}

pub fn rental_display_name(rental: &Rental) -> (s: String)
    requires
        rental.monthly_rent_cents > i64::MIN,
    ensures
        s@ == rental_label(*rental),
{
    let mut out = chars_of(rental.tenant_name.as_str());
    append_str(&mut out, " — Unit ");
    append_str(&mut out, rental.unit_number.as_str());
    append_str(&mut out, " — ");
    out.push('$');
    push_money_input(&mut out, rental.monthly_rent_cents);
    assert(out@ =~= rental_label(*rental));
    string_of(&out)
}

/// The position of the first rental with the ID `id`.
pub fn find_rental(rentals: &Vec<Rental>, id: i64) -> (r: Option<usize>)
    ensures
        match r {
            Some(i) => i < rentals@.len() && first_match(rentals@, has_rental_id(id)) == Some(
                rentals@[i as int],
            ),
            None => first_match(rentals@, has_rental_id(id)) is None,
        },
{
    proof {
        lemma_first_match_start(rentals@, has_rental_id(id));
    }
    let mut i: usize = 0;
    while i < rentals.len()
        invariant
            i <= rentals@.len(),
            first_match(rentals@, has_rental_id(id)) == first_match(
                rentals@.skip(i as int),
                has_rental_id(id),
            ),
        decreases rentals.len() - i,
    {
        proof {
            lemma_first_match_step(rentals@, i as int, has_rental_id(id));
        }
        if rentals[i].id == id {
            return Some(i);
        }
        i += 1;
    }
    None
}

/// The reason the form cannot be turned into a payment, or the payment
/// it describes.
pub open spec fn payment_from_form(
    f: PaymentForm,
) -> Result<(i64, Seq<char>, i64, PaymentMethod, Seq<char>, Seq<char>), Seq<char>> {
    match f.rental_id {
        None => Err("A rental must be selected."@),
        Some(id) => match iso_date(f.payment_date@) {
            Err(e) => Err(date_message("Payment date"@, e)),
            Ok(date) => match positive_amount_value(f.amount@) {
                Err(e) => Err(amount_message("Payment amount"@, e)),
                Ok(cents) => Ok((id, date, cents, f.payment_method, trim(f.reference@), trim(f.notes@))),
            },
        },
    }
}

/// How a recorded payment's rental is described: its list label, or its
/// ID when it is not among the loaded rentals.
pub open spec fn rental_description(rentals: Seq<Rental>, id: i64) -> Seq<char> {
    match first_match(rentals, has_rental_id(id)) {
        Some(r) => rental_label(r),
        None => "Rental ID "@ + int_text(id as int),
    }
}

pub open spec fn recorded_message(cents: i64, description: Seq<char>, id: i64) -> Seq<char> {
    "Recorded "@ + money_text(cents as int) + " payment for "@ + description + " — payment ID "@
        + int_text(id as int)
}

/// Reads the typed payment amount as cents; the amount must be above zero.
pub fn parse_dollars_to_cents(text: &str) -> (r: Result<i64, String>)
    ensures
        match positive_amount_value(text@) {
            Ok(v) => r == Ok::<i64, String>(v),
            Err(e) => r matches Err(m) && m@ == amount_message("Payment amount"@, e),
        },
{
    match parse_positive_amount(text) {
        Ok(v) => Ok(v),
        Err(e) => Err(amount_error_message("Payment amount", e)),
    }
}

impl PaymentsPage {
    /// The text of the rental chooser.
    pub fn selected_rental_text(&self) -> (s: String)
        requires
            rent_displayable(self.active_rentals@),
        ensures
            s@ == match self.form.rental_id {
                None => "Select Rental"@,
                Some(id) => match first_match(self.active_rentals@, has_rental_id(id)) {
                    Some(r) => rental_label(r),
                    None => "Select Rental"@,
                },
            },
    {
        match self.form.rental_id {
            None => owned("Select Rental"),
            Some(id) => match find_rental(&self.active_rentals, id) {
                Some(i) => rental_display_name(&self.active_rentals[i]),
                None => owned("Select Rental"),
            },
        }
    }

    /// After the rental chooser changed from `previous`, the amount is
    /// filled with the chosen rental's rent, or cleared when no rental is
    /// chosen.
    pub fn rental_selection_changed(&mut self, previous: Option<i64>)
        requires
            rent_displayable(old(self).active_rentals@),
        ensures
            final(self).active_rentals == old(self).active_rentals,
            final(self).payments == old(self).payments,
            final(self).loaded == old(self).loaded,
            final(self).error_message == old(self).error_message,
            final(self).form.rental_id == old(self).form.rental_id,
            final(self).form.payment_date == old(self).form.payment_date,
            final(self).form.payment_method == old(self).form.payment_method,
            final(self).form.reference == old(self).form.reference,
            final(self).form.notes == old(self).form.notes,
            final(self).form.amount@ == if old(self).form.rental_id == previous {
                old(self).form.amount@
            } else {
                match old(self).form.rental_id {
                    None => Seq::<char>::empty(),
                    Some(id) => match first_match(old(self).active_rentals@, has_rental_id(id)) {
                        Some(r) => money_input_text(r.monthly_rent_cents as int),
                        None => old(self).form.amount@,
                    },
                }
            },
    {
        if self.form.rental_id != previous {
            match self.form.rental_id {
                Some(id) => {
                    match find_rental(&self.active_rentals, id) {
                        Some(i) => {
                            let cents = self.active_rentals[i].monthly_rent_cents;
                            self.form.amount = format_money_input(cents);
                        },
                        None => {},
                    }
                },
                None => {
                    self.form.amount = String::new();
                },
            }
        }
    }

    /// A payment can be recorded only while some rental is active.
    pub fn can_record(&self) -> (b: bool)
        ensures
            b == (self.active_rentals@.len() > 0),
    {
        self.active_rentals.len() > 0
    }

    /// Clears the form; gives the status message.
    pub fn clear_form(&mut self) -> (status: String)
        ensures
            payment_form_is_clear(final(self).form),
            final(self).error_message is None,
            final(self).active_rentals == old(self).active_rentals,
            final(self).payments == old(self).payments,
            final(self).loaded == old(self).loaded,
            status@ == "Payment form cleared"@,
    {
        self.form = PaymentForm::default();
        self.error_message = None;
        owned("Payment form cleared")
    }

    /// Turns the form into the payment to record and the description of its
    /// rental, or gives the message that explains why it cannot.
    pub fn prepare_payment(&self) -> (r: Result<(NewPayment, String), String>)
        requires
            rent_displayable(self.active_rentals@),
        ensures
            match payment_from_form(self.form) {
                Err(m) => r matches Err(e) && e@ == m,
                Ok((id, date, cents, method, reference, notes)) => r matches Ok((p, d)) && {
                    &&& p.rental_id == id
                    &&& p.payment_date@ == date
                    &&& p.amount_cents == cents
                    &&& p.payment_method == method
                    &&& p.reference@ == reference
                    &&& p.notes@ == notes
                    &&& d@ == rental_description(self.active_rentals@, id)
                },
            },
    {
        let rental_id = match self.form.rental_id {
            None => {
                return Err(owned("A rental must be selected."));
            },
            Some(id) => id,
        };
        let payment_date = match validate_iso_date(self.form.payment_date.as_str(), "Payment date") {
            Ok(d) => d,
            Err(e) => {
                return Err(e);
            },
        };
        let amount_cents = match parse_dollars_to_cents(self.form.amount.as_str()) {
            Ok(v) => v,
            Err(e) => {
                return Err(e);
            },
        };
        let description = match find_rental(&self.active_rentals, rental_id) {
            Some(i) => rental_display_name(&self.active_rentals[i]),
            None => {
                let mut out = chars_of("Rental ID ");
                push_int(&mut out, rental_id);
                string_of(&out)
            },
        };
        let payment = NewPayment {
            rental_id,
            payment_date,
            amount_cents,
            payment_method: self.form.payment_method,
            reference: trim_string(self.form.reference.as_str()),
            notes: trim_string(self.form.notes.as_str()),
        };
        Ok((payment, description))
    }

    /// After the database recorded `payment` under `id`: the form is cleared
    /// and the status message tells what was recorded.
    pub fn payment_recorded(&mut self, payment: &NewPayment, description: &str, id: i64) -> (status:
        String)
        requires
            payment.amount_cents > i64::MIN,
        ensures
            payment_form_is_clear(final(self).form),
            final(self).active_rentals == old(self).active_rentals,
            final(self).payments == old(self).payments,
            final(self).loaded == old(self).loaded,
            final(self).error_message == old(self).error_message,
            status@ == recorded_message(payment.amount_cents, description@, id),
    {
        self.form = PaymentForm::default();
        let mut out = chars_of("Recorded ");
        out.push('$');
        push_money_input(&mut out, payment.amount_cents);
        append_str(&mut out, " payment for ");
        append_str(&mut out, description);
        append_str(&mut out, " — payment ID ");
        push_int(&mut out, id);
        assert(out@ =~= recorded_message(payment.amount_cents, description@, id));
        string_of(&out)
    }

    /// Shows `message` as the page's error; gives the same text as the
    /// status message.
    pub fn set_error(&mut self, message: String) -> (status: String)
        ensures
            final(self).error_message == Some(message),
            final(self).form == old(self).form,
            final(self).active_rentals == old(self).active_rentals,
            final(self).payments == old(self).payments,
            final(self).loaded == old(self).loaded,
            status@ == message@,
    {
        let status = message.clone();
        self.error_message = Some(message);
        status
    }

    /// Loading the page's records failed: the page counts as loaded and
    /// shows why.
    pub fn load_failed(&mut self, what: &str, error: &str) -> (status: String)
        ensures
            final(self).loaded,
            final(self).error_message matches Some(m) && m@ == crate::pages::unable_message(
                "load "@ + what@,
                error@,
            ),
            status@ == crate::pages::unable_message("load "@ + what@, error@),
            final(self).form == old(self).form,
            final(self).active_rentals == old(self).active_rentals,
            final(self).payments == old(self).payments,
    {
        self.loaded = true;
        let what_full = crate::text::join2("load ", what);
        let message = crate::pages::unable(what_full.as_str(), error);
        self.set_error(message)
    }

    /// The page's records were loaded.
    pub fn loaded_with(&mut self, active_rentals: Vec<Rental>, payments: Vec<Payment>)
        ensures
            final(self).active_rentals == active_rentals,
            final(self).payments == payments,
            final(self).loaded,
            final(self).error_message is None,
            final(self).form == old(self).form,
    {
        self.active_rentals = active_rentals;
        self.payments = payments;
        self.loaded = true;
        self.error_message = None;
    }
}

/// A payment prepared from the form passes every check that recording it
/// makes before the database is asked, when its rental ID is positive (as
/// stored IDs are).
pub proof fn lemma_prepared_payment_is_acceptable(f: PaymentForm, p: NewPayment)
    requires
        payment_from_form(f) is Ok,
        p.rental_id == payment_from_form(f)->Ok_0.0,
        p.payment_date@ == payment_from_form(f)->Ok_0.1,
        p.amount_cents == payment_from_form(f)->Ok_0.2,
        p.rental_id > 0,
    ensures
        crate::database::payment_request_problem(p) is None,
{
    crate::dates::lemma_accepted_date_is_stable(f.payment_date@);
}

} // verus!
