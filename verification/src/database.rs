//! The rules that the database layer applies around its SQL statements:
//! which requests are refused before or between statements, with which
//! message, which values are stored, and how backup files are named and
//! checked.
use vstd::prelude::*;
use crate::models::{method_label, NewPayment, NewRental};
use crate::text::{
    append_str, chars_of, join2, owned, push_decimal, same_text, string_of, trim, trim_string,
    trimmed, decimal,
};

verus! {

/// A refusal when `refused`, with the message `message`.
pub open spec fn refuse_if(refused: bool, message: Seq<char>, r: Result<(), String>) -> bool {
    if refused {
        r matches Err(m) && m@ == message
    } else {
        r is Ok
    }
}

fn refusal(message: &str) -> (r: Result<(), String>)
    ensures
        r matches Err(m) && m@ == message@,
{
    Err(owned(message))
}

// ---------------------------------------------------------------------
// Rentals
// ---------------------------------------------------------------------

/// The first reason a rental request is refused before the database is
/// asked anything, if there is one.
pub open spec fn rental_request_problem(r: NewRental) -> Option<Seq<char>> {
    if r.tenant_id <= 0 {
        Some("A tenant must be selected."@)
    } else if r.unit_id <= 0 {
        Some("A storage unit must be selected."@)
    } else if trim(r.start_date@).len() == 0 {
        Some("A rental start date is required."@)
    } else if r.monthly_rent_cents < 0 {
        Some("Monthly rent cannot be negative."@)
    } else {
        None
    }
}

/// Checks a request to start a rental before any statement runs.
pub fn validate_new_rental(rental: &NewRental) -> (r: Result<(), String>)
    ensures
        match rental_request_problem(*rental) {
            Some(m) => r matches Err(e) && e@ == m,
            None => r is Ok,
        },
{
    if rental.tenant_id <= 0 {
        return refusal("A tenant must be selected.");
    }
    if rental.unit_id <= 0 {
        return refusal("A storage unit must be selected.");
    }
    let start = trimmed(rental.start_date.as_str());
    if start.len() == 0 {
        return refusal("A rental start date is required.");
    }
    if rental.monthly_rent_cents < 0 {
        return refusal("Monthly rent cannot be negative.");
    }
    Ok(())
}

/// A rental may start only for exactly one active, unarchived tenant with
/// the requested ID (`count` is how many such tenants the database found).
pub fn check_tenant_rentable(count: i64) -> (r: Result<(), String>)
    ensures
        refuse_if(count != 1, "The selected tenant does not exist, is inactive, or is archived."@, r),
{
    if count != 1 {
        return refusal("The selected tenant does not exist, is inactive, or is archived.");
    }
    Ok(())
}

/// The unit is taken only when the guarded update marked exactly one unit
/// (vacant, clean and not archived) as occupied.
pub fn check_unit_claimed(affected_units: usize) -> (r: Result<(), String>)
    ensures
        refuse_if(affected_units != 1, "The selected storage unit is not available."@, r),
{
    if affected_units != 1 {
        return refusal("The selected storage unit is not available.");
    }
    Ok(())
}

/// The rental as it is stored: start date and notes trimmed.
pub fn rental_to_store(rental: &NewRental) -> (r: NewRental)
    ensures
        r.tenant_id == rental.tenant_id,
        r.unit_id == rental.unit_id,
        r.start_date@ == trim(rental.start_date@),
        r.monthly_rent_cents == rental.monthly_rent_cents,
        r.notes@ == trim(rental.notes@),
{
    NewRental {
        tenant_id: rental.tenant_id,
        unit_id: rental.unit_id,
        start_date: trim_string(rental.start_date.as_str()),
        monthly_rent_cents: rental.monthly_rent_cents,
        notes: trim_string(rental.notes.as_str()),
    }
}

/// Checks a change of the rent of an active rental.
pub fn validate_rent_update(rental_id: i64, monthly_rent_cents: i64) -> (r: Result<(), String>)
    ensures
        if rental_id <= 0 {
            r matches Err(m) && m@ == "A valid rental must be selected."@
        } else {
            refuse_if(monthly_rent_cents < 0, "Monthly rent cannot be negative."@, r)
        },
{
    if rental_id <= 0 {
        return refusal("A valid rental must be selected.");
    }
    if monthly_rent_cents < 0 {
        return refusal("Monthly rent cannot be negative.");
    }
    Ok(())
}

/// The end date that ending a rental stores: the trimmed text, which must
/// not be empty.
pub fn rental_end_date(end_date: &str) -> (r: Result<String, String>)
    ensures
        if trim(end_date@).len() == 0 {
            r matches Err(m) && m@ == "A rental end date is required."@
        } else {
            r matches Ok(d) && d@ == trim(end_date@)
        },
{
    let d = trimmed(end_date);
    if d.len() == 0 {
        return Err(owned("A rental end date is required."));
    }
    Ok(string_of(&d))
}

// ---------------------------------------------------------------------
// Payments
// ---------------------------------------------------------------------

/// The first reason a payment is refused before the database is asked
/// anything, if there is one.
pub open spec fn payment_request_problem(p: NewPayment) -> Option<Seq<char>> {
    if p.rental_id <= 0 {
        Some("A rental must be selected."@)
    } else if trim(p.payment_date@).len() == 0 {
        Some("A payment date is required."@)
    } else if p.amount_cents <= 0 {
        Some("Payment amount must be greater than zero."@)
    } else {
        None
    }
}

pub fn validate_new_payment(payment: &NewPayment) -> (r: Result<(), String>)
    ensures
        match payment_request_problem(*payment) {
            Some(m) => r matches Err(e) && e@ == m,
            None => r is Ok,
        },
{
    if payment.rental_id <= 0 {
        return refusal("A rental must be selected.");
    }
    let date = trimmed(payment.payment_date.as_str());
    if date.len() == 0 {
        return refusal("A payment date is required.");
    }
    if payment.amount_cents <= 0 {
        return refusal("Payment amount must be greater than zero.");
    }
    Ok(())
}

/// A payment is recorded only against a rental that exists (`count` is
/// how many rentals have the requested ID).
pub fn check_rental_exists(count: i64) -> (r: Result<(), String>)
    ensures
        refuse_if(count != 1, "The selected rental does not exist."@, r),
{
    if count != 1 {
        return refusal("The selected rental does not exist.");
    }
    Ok(())
}

/// The text values a payment is stored with: the trimmed date, the label
/// of its method, and the trimmed reference and notes.
pub fn payment_to_store(payment: &NewPayment) -> (r: (String, String, String, String))
    ensures
        r.0@ == trim(payment.payment_date@),
        r.1@ == method_label(payment.payment_method),
        r.2@ == trim(payment.reference@),
        r.3@ == trim(payment.notes@),
{
    (
        trim_string(payment.payment_date.as_str()),
        owned(payment.payment_method.label()),
        trim_string(payment.reference.as_str()),
        trim_string(payment.notes.as_str()),
    )
}

// ---------------------------------------------------------------------
// Deleting and archiving
// ---------------------------------------------------------------------

/// A unit with any rental history cannot be deleted.
pub fn check_unit_deletable(rental_count: i64) -> (r: Result<(), String>)
    ensures
        refuse_if(
            rental_count > 0,
            "This unit has rental history and cannot be permanently deleted. Archive the unit instead."@,
            r,
        ),
{
    if rental_count > 0 {
        return refusal(
            "This unit has rental history and cannot be permanently deleted. Archive the unit instead.",
        );
    }
    Ok(())
}

/// A unit with an active rental cannot be archived.
pub fn check_unit_archivable(active_rentals: i64) -> (r: Result<(), String>)
    ensures
        refuse_if(
            active_rentals > 0,
            "This unit has an active rental. End the rental before archiving the unit."@,
            r,
        ),
{
    if active_rentals > 0 {
        return refusal("This unit has an active rental. End the rental before archiving the unit.");
    }
    Ok(())
}

/// A tenant with any rental history cannot be deleted.
pub fn check_tenant_deletable(rental_count: i64) -> (r: Result<(), String>)
    ensures
        refuse_if(
            rental_count > 0,
            "This tenant has rental history and cannot be permanently deleted. Archive the tenant instead."@,
            r,
        ),
{
    if rental_count > 0 {
        return refusal(
            "This tenant has rental history and cannot be permanently deleted. Archive the tenant instead.",
        );
    }
    Ok(())
}

/// A tenant with an active rental cannot be archived.
pub fn check_tenant_archivable(active_rentals: i64) -> (r: Result<(), String>)
    ensures
        refuse_if(
            active_rentals > 0,
            "This tenant has an active rental. End the rental before archiving the tenant."@,
            r,
        ),
{
    if active_rentals > 0 {
        return refusal("This tenant has an active rental. End the rental before archiving the tenant.");
    }
    Ok(())
}

/// Only a unit that is not occupied can be marked as needing cleaning
/// (`occupied` is the stored flag, 0 for vacant).
pub fn check_can_mark_needs_cleaned(needs_cleaned: bool, occupied: i64) -> (r: Result<(), String>)
    ensures
        refuse_if(needs_cleaned && occupied != 0, "An occupied unit cannot be marked Needs Cleaned."@, r),
{
    if needs_cleaned && occupied != 0 {
        return refusal("An occupied unit cannot be marked Needs Cleaned.");
    }
    Ok(())
}

// ---------------------------------------------------------------------
// Padlocks
// ---------------------------------------------------------------------

/// A padlock can be assigned only to a unit that exists and is not
/// archived (`active_count` is how many such units have the ID).
pub fn check_padlock_unit_active(active_count: i64) -> (r: Result<(), String>)
    ensures
        refuse_if(active_count != 1, "The selected unit does not exist or is archived."@, r),
{
    if active_count != 1 {
        return refusal("The selected unit does not exist or is archived.");
    }
    Ok(())
}

pub open spec fn padlock_taken_message(serial: Seq<char>) -> Seq<char> {
    "The selected unit already has Padlock "@ + serial + " assigned to it."@
}

/// A unit holds at most one padlock: `existing_lock` is the serial number
/// of another padlock already assigned to the unit, if any.
pub fn check_padlock_unit_free(existing_lock: Option<String>) -> (r: Result<(), String>)
    ensures
        match existing_lock {
            Some(s) => r matches Err(m) && m@ == padlock_taken_message(s@),
            None => r is Ok,
        },
{
    match existing_lock {
        Some(serial) => {
            let mut out = chars_of("The selected unit already has Padlock ");
            append_str(&mut out, serial.as_str());
            append_str(&mut out, " assigned to it.");
            Err(string_of(&out))
        },
        None => Ok(()),
    }
}

// ---------------------------------------------------------------------
// Backups and schema upgrades
// ---------------------------------------------------------------------

/// `n` written with at least two digits (`{:02}`).
pub open spec fn padded2(n: nat) -> Seq<char> {
    if n < 10 { seq!['0'] + decimal(n) } else { decimal(n) }
}

pub open spec fn backup_base(timestamp: Seq<char>) -> Seq<char> {
    "StorageManager-backup-"@ + timestamp
}

/// The file name of a backup taken at `timestamp`; when that name is taken,
/// the `suffix`-th alternative.
pub open spec fn backup_name(timestamp: Seq<char>, suffix: Option<u32>) -> Seq<char> {
    match suffix {
        None => backup_base(timestamp) + ".db"@,
        Some(n) => backup_base(timestamp) + seq!['-'] + padded2(n as nat) + ".db"@,
    }
}

pub fn backup_file_name(timestamp: &str, suffix: Option<u32>) -> (s: String)
    ensures
        s@ == backup_name(timestamp@, suffix),
{
    let mut out = chars_of("StorageManager-backup-");
    append_str(&mut out, timestamp);
    match suffix {
        None => {},
        Some(n) => {
            out.push('-');
            if n < 10 {
                out.push('0');
            }
            push_decimal(&mut out, n as u64);
        },
    }
    append_str(&mut out, ".db");
    proof {
        match suffix {
            None => {},
            Some(n) => {
                assert(n < 10 ==> padded2(n as nat) == seq!['0'] + decimal(n as nat));
            },
        }
    }
    assert(out@ =~= backup_name(timestamp@, suffix));
    string_of(&out)
}

/// What SQLite's `integrity_check` reports for a sound database: `ok`,
/// in any letter case, around whitespace.
pub open spec fn integrity_is_ok(report: Seq<char>) -> bool {
    let t = trim(report);
    &&& t.len() == 2
    &&& (t[0] == 'o' || t[0] == 'O')
    &&& (t[1] == 'k' || t[1] == 'K')
}

pub fn integrity_ok(report: &str) -> (b: bool)
    ensures
        b == integrity_is_ok(report@),
{
    let t = trimmed(report);
    t.len() == 2 && (t[0] == 'o' || t[0] == 'O') && (t[1] == 'k' || t[1] == 'K')
}

/// Why a new backup was thrown away.
pub fn backup_integrity_message(report: &str) -> (s: String)
    ensures
        s@ == "The backup failed its integrity check: "@ + report@,
{
    join2("The backup failed its integrity check: ", report)
}

/// Why a file was not restored.
pub fn source_integrity_message(report: &str) -> (s: String)
    ensures
        s@ == "The selected backup failed its integrity check: "@ + report@,
{
    join2("The selected backup failed its integrity check: ", report)
}

/// What went wrong after restoring, and where the copy taken before it is.
pub fn restored_integrity_message(report: &str, safety_backup: &str) -> (s: String)
    ensures
        s@ == "The restored database failed its integrity check: "@ + report@
            + ". The pre-restore safety backup is located at "@ + safety_backup@ + "."@,
{
    let mut out = chars_of("The restored database failed its integrity check: ");
    append_str(&mut out, report);
    append_str(&mut out, ". The pre-restore safety backup is located at ");
    append_str(&mut out, safety_backup);
    append_str(&mut out, ".");
    string_of(&out)
}

/// The tables a file must hold to be restored as a backup.
pub fn required_backup_tables() -> (r: [&'static str; 4])
    ensures
        r@[0]@ == "units"@,
        r@[1]@ == "tenants"@,
        r@[2]@ == "rentals"@,
        r@[3]@ == "payments"@,
{
    ["units", "tenants", "rentals", "payments"]
}

pub open spec fn missing_table_message(table: Seq<char>) -> Seq<char> {
    "The selected file is not a valid Storage Manager backup. Required table '"@ + table
        + "' is missing."@
}

/// A file lacking one of the required tables is not a backup.
pub fn check_backup_table(table: &str, table_count: i64) -> (r: Result<(), String>)
    ensures
        refuse_if(table_count == 0, missing_table_message(table@), r),
{
    if table_count == 0 {
        let mut out = chars_of(
            "The selected file is not a valid Storage Manager backup. Required table '",
        );
        append_str(&mut out, table);
        append_str(&mut out, "' is missing.");
        return Err(string_of(&out));
    }
    Ok(())
}

/// The statement that lists the columns of `table`.
pub fn table_info_sql(table: &str) -> (s: String)
    ensures
        s@ == "PRAGMA table_info("@ + table@ + ");"@,
{
    let mut out = chars_of("PRAGMA table_info(");
    append_str(&mut out, table);
    append_str(&mut out, ");");
    string_of(&out)
}

/// The statement that adds a 0/1 flag column, 0 by default.
pub fn add_boolean_column_sql(table: &str, column: &str) -> (s: String)
    ensures
        s@ == "ALTER TABLE "@ + table@ + " ADD COLUMN "@ + column@
            + " INTEGER NOT NULL DEFAULT 0 CHECK("@ + column@ + " IN (0, 1));"@,
{
    let mut out = chars_of("ALTER TABLE ");
    append_str(&mut out, table);
    append_str(&mut out, " ADD COLUMN ");
    append_str(&mut out, column);
    append_str(&mut out, " INTEGER NOT NULL DEFAULT 0 CHECK(");
    append_str(&mut out, column);
    append_str(&mut out, " IN (0, 1));");
    string_of(&out)
}

/// Whether `column` is among the listed column names.
pub fn has_column(columns: &Vec<String>, column: &str) -> (b: bool)
    ensures
        b == exists|i: int| 0 <= i < columns@.len() && #[trigger] columns@[i]@ == column@,
{
    let mut i: usize = 0;
    while i < columns.len()
        invariant
            i <= columns.len(),
            forall|j: int| 0 <= j < i ==> #[trigger] columns@[j]@ != column@,
        decreases columns.len() - i,
    {
        if same_text(columns[i].as_str(), column) {
            return true;
        }
        i += 1;
    }
    false
}

} // verus!
