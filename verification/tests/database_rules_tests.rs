use storage_manager::database::{
    add_boolean_column_sql, backup_file_name, backup_integrity_message, check_backup_table,
    check_can_mark_needs_cleaned, check_padlock_unit_active, check_padlock_unit_free,
    check_rental_exists, check_tenant_archivable, check_tenant_deletable, check_tenant_rentable,
    check_unit_archivable, check_unit_claimed, check_unit_deletable, has_column, integrity_ok,
    payment_to_store, rental_end_date, rental_to_store, required_backup_tables,
    restored_integrity_message, source_integrity_message, table_info_sql, validate_new_payment,
    validate_new_rental, validate_rent_update,
};
use storage_manager::models::{NewPayment, NewRental, PaymentMethod};

fn rental(tenant_id: i64, unit_id: i64, start: &str, rent: i64) -> NewRental {
    NewRental {
        tenant_id,
        unit_id,
        start_date: start.to_string(),
        monthly_rent_cents: rent,
        notes: "  first month free \n".to_string(),
    }
}

fn payment(rental_id: i64, date: &str, amount: i64) -> NewPayment {
    NewPayment {
        rental_id,
        payment_date: date.to_string(),
        amount_cents: amount,
        payment_method: PaymentMethod::BankTransfer,
        reference: " #42 ".to_string(),
        notes: "\tlate ".to_string(),
    }
}

fn err(message: &str) -> Result<(), String> {
    Err(message.to_string())
}

#[test]
fn rental_requests_are_checked_in_order() {
    assert_eq!(validate_new_rental(&rental(1, 2, "2024-01-01", 5000)), Ok(()));
    assert_eq!(validate_new_rental(&rental(1, 2, "2024-01-01", 0)), Ok(()));
    assert_eq!(
        validate_new_rental(&rental(0, 0, "", -1)),
        err("A tenant must be selected.")
    );
    assert_eq!(
        validate_new_rental(&rental(1, -4, "", -1)),
        err("A storage unit must be selected.")
    );
    assert_eq!(
        validate_new_rental(&rental(1, 2, "   ", -1)),
        err("A rental start date is required.")
    );
    assert_eq!(
        validate_new_rental(&rental(1, 2, "2024-01-01", -1)),
        err("Monthly rent cannot be negative.")
    );
}

#[test]
fn rentals_are_stored_trimmed() {
    let stored = rental_to_store(&rental(3, 4, " 2024-05-06 ", 9900));
    assert_eq!(stored.tenant_id, 3);
    assert_eq!(stored.unit_id, 4);
    assert_eq!(stored.start_date, "2024-05-06");
    assert_eq!(stored.monthly_rent_cents, 9900);
    assert_eq!(stored.notes, "first month free");
}

#[test]
fn tenant_and_unit_availability() {
    assert_eq!(check_tenant_rentable(1), Ok(()));
    assert_eq!(
        check_tenant_rentable(0),
        err("The selected tenant does not exist, is inactive, or is archived.")
    );
    assert_eq!(
        check_tenant_rentable(2),
        err("The selected tenant does not exist, is inactive, or is archived.")
    );
    assert_eq!(check_unit_claimed(1), Ok(()));
    assert_eq!(check_unit_claimed(0), err("The selected storage unit is not available."));
}

#[test]
fn rent_updates_and_end_dates() {
    assert_eq!(validate_rent_update(5, 0), Ok(()));
    assert_eq!(validate_rent_update(0, -1), err("A valid rental must be selected."));
    assert_eq!(validate_rent_update(5, -1), err("Monthly rent cannot be negative."));
    assert_eq!(rental_end_date(" 2024-12-31 "), Ok("2024-12-31".to_string()));
    assert_eq!(rental_end_date(" \t"), Err("A rental end date is required.".to_string()));
}

#[test]
fn payment_requests_are_checked_in_order() {
    assert_eq!(validate_new_payment(&payment(1, "2024-01-01", 1)), Ok(()));
    assert_eq!(validate_new_payment(&payment(0, "", 0)), err("A rental must be selected."));
    assert_eq!(validate_new_payment(&payment(1, " ", 0)), err("A payment date is required."));
    assert_eq!(
        validate_new_payment(&payment(1, "2024-01-01", 0)),
        err("Payment amount must be greater than zero.")
    );
    assert_eq!(check_rental_exists(1), Ok(()));
    assert_eq!(check_rental_exists(0), err("The selected rental does not exist."));
}

#[test]
fn payments_are_stored_trimmed_with_the_method_label() {
    let (date, method, reference, notes) = payment_to_store(&payment(1, " 2024-03-04 ", 100));
    assert_eq!(date, "2024-03-04");
    assert_eq!(method, "Bank Transfer");
    assert_eq!(reference, "#42");
    assert_eq!(notes, "late");
}

#[test]
fn removal_rules() {
    assert_eq!(check_unit_deletable(0), Ok(()));
    assert_eq!(
        check_unit_deletable(3),
        err("This unit has rental history and cannot be permanently deleted. Archive the unit instead.")
    );
    assert_eq!(check_unit_archivable(0), Ok(()));
    assert_eq!(
        check_unit_archivable(1),
        err("This unit has an active rental. End the rental before archiving the unit.")
    );
    assert_eq!(check_tenant_deletable(0), Ok(()));
    assert_eq!(
        check_tenant_deletable(1),
        err("This tenant has rental history and cannot be permanently deleted. Archive the tenant instead.")
    );
    assert_eq!(check_tenant_archivable(0), Ok(()));
    assert_eq!(
        check_tenant_archivable(2),
        err("This tenant has an active rental. End the rental before archiving the tenant.")
    );
}

#[test]
fn occupied_units_cannot_be_marked_for_cleaning() {
    assert_eq!(check_can_mark_needs_cleaned(true, 0), Ok(()));
    assert_eq!(check_can_mark_needs_cleaned(false, 1), Ok(()));
    assert_eq!(
        check_can_mark_needs_cleaned(true, 1),
        err("An occupied unit cannot be marked Needs Cleaned.")
    );
}

#[test]
fn padlock_assignment_rules() {
    assert_eq!(check_padlock_unit_active(1), Ok(()));
    assert_eq!(
        check_padlock_unit_active(0),
        err("The selected unit does not exist or is archived.")
    );
    assert_eq!(check_padlock_unit_free(None), Ok(()));
    assert_eq!(
        check_padlock_unit_free(Some("PL-7".to_string())),
        err("The selected unit already has Padlock PL-7 assigned to it.")
    );
}

#[test]
fn backup_file_names() {
    assert_eq!(
        backup_file_name("20240102-030405", None),
        "StorageManager-backup-20240102-030405.db"
    );
    assert_eq!(
        backup_file_name("20240102-030405", Some(1)),
        "StorageManager-backup-20240102-030405-01.db"
    );
    assert_eq!(
        backup_file_name("20240102-030405", Some(12)),
        "StorageManager-backup-20240102-030405-12.db"
    );
    assert_eq!(
        backup_file_name("20240102-030405", Some(123)),
        "StorageManager-backup-20240102-030405-123.db"
    );
}

#[test]
fn integrity_reports() {
    assert!(integrity_ok("ok"));
    assert!(integrity_ok(" OK\n"));
    assert!(integrity_ok("Ok"));
    assert!(!integrity_ok("okay"));
    assert!(!integrity_ok("*** in database main ***"));
    assert!(!integrity_ok(""));
    assert_eq!(
        backup_integrity_message("bad page"),
        "The backup failed its integrity check: bad page"
    );
    assert_eq!(
        source_integrity_message("bad page"),
        "The selected backup failed its integrity check: bad page"
    );
    assert_eq!(
        restored_integrity_message("bad page", "backups/safe.db"),
        "The restored database failed its integrity check: bad page. The pre-restore safety backup is located at backups/safe.db."
    );
}

#[test]
fn backup_tables() {
    assert_eq!(required_backup_tables(), ["units", "tenants", "rentals", "payments"]);
    assert_eq!(check_backup_table("units", 1), Ok(()));
    assert_eq!(
        check_backup_table("rentals", 0),
        err("The selected file is not a valid Storage Manager backup. Required table 'rentals' is missing.")
    );
}

#[test]
fn schema_statements() {
    assert_eq!(table_info_sql("units"), "PRAGMA table_info(units);");
    assert_eq!(
        add_boolean_column_sql("units", "red_lock"),
        "ALTER TABLE units ADD COLUMN red_lock INTEGER NOT NULL DEFAULT 0 CHECK(red_lock IN (0, 1));"
    );
    let columns = vec!["id".to_string(), "yellow_lock".to_string()];
    assert!(has_column(&columns, "yellow_lock"));
    assert!(!has_column(&columns, "red_lock"));
    assert!(!has_column(&Vec::new(), "id"));
}
