use storage_manager::database::validate_new_payment;
use storage_manager::database::validate_new_rental;
use storage_manager::models::{Padlock, PaymentMethod, Rental, Tenant, Unit, FEET_10};
use storage_manager::pages::padlocks::{
    find_padlock, padlock_location, unit_choice_text, PadlockForm, PadlocksPage, PendingPadlock,
};
use storage_manager::pages::payments::{find_rental, rental_display_name, PaymentsPage};
use storage_manager::pages::rentals::{unit_display_name, PendingEnd, RentalsPage};
use storage_manager::pages::text_or_dash;
use storage_manager::pages::unable;

fn unit(id: i64, number: &str, building: &str, rent: i64) -> Unit {
    Unit {
        id,
        unit_number: number.to_string(),
        building: building.to_string(),
        width: Some(FEET_10),
        length: Some(FEET_10),
        monthly_rent_cents: rent,
        occupied: false,
        needs_cleaned: false,
        yellow_lock: false,
        red_lock: false,
        layout_section: String::new(),
        display_order: 0,
        notes: String::new(),
    }
}

fn padlock(id: i64, serial: &str, unit_id: Option<i64>, unit_number: Option<&str>) -> Padlock {
    Padlock {
        id,
        serial_number: serial.to_string(),
        combination: "12-34-56".to_string(),
        unit_id,
        unit_number: unit_number.map(str::to_string),
        notes: String::new(),
    }
}

fn rental(id: i64, tenant: &str, unit_number: &str, rent: i64) -> Rental {
    Rental {
        id,
        tenant_name: tenant.to_string(),
        unit_number: unit_number.to_string(),
        start_date: "2024-01-10".to_string(),
        monthly_rent_cents: rent,
    }
}

fn tenant(id: i64, first: &str, last: &str) -> Tenant {
    Tenant {
        id,
        first_name: first.to_string(),
        last_name: last.to_string(),
        phone: String::new(),
        email: String::new(),
        active: true,
        notes: String::new(),
    }
}

#[test]
fn shared_page_text() {
    assert_eq!(unable("load units", "locked"), "Unable to load units: locked");
    assert_eq!(text_or_dash(""), "—");
    assert_eq!(text_or_dash("note"), "note");
}

#[test]
fn padlock_texts() {
    assert_eq!(unit_choice_text(&unit(1, "A1", "", 0)), "Unit A1");
    assert_eq!(unit_choice_text(&unit(1, "A1", "North", 0)), "Unit A1 — North");
    let (place, state) = padlock_location(&padlock(1, "P1", Some(3), Some("C3")));
    assert_eq!(place, "Unit C3");
    assert_eq!(state, "In Use");
    let (place, state) = padlock_location(&padlock(1, "P1", None, None));
    assert_eq!(place, "Inventory");
    assert_eq!(state, "Available");
    let padlocks = vec![padlock(4, "P4", None, None), padlock(6, "P6", None, None)];
    assert_eq!(find_padlock(&padlocks, 6), Some(1));
    assert_eq!(find_padlock(&padlocks, 5), None);
}

#[test]
fn padlock_form_checks() {
    let mut form = PadlockForm::default();
    assert_eq!(
        form.to_new_padlock().err(),
        Some("Padlock serial number is required.".to_string())
    );
    form.serial_number = " P-9 ".to_string();
    assert_eq!(
        form.to_new_padlock().err(),
        Some("Padlock combination is required.".to_string())
    );
    form.combination = " 1-2-3 ".to_string();
    form.selected_unit_id = Some(8);
    form.notes = " brass ".to_string();
    let new_padlock = form.to_new_padlock().expect("valid");
    assert_eq!(new_padlock.serial_number, "P-9");
    assert_eq!(new_padlock.combination, "1-2-3");
    assert_eq!(new_padlock.unit_id, Some(8));
    assert_eq!(new_padlock.notes, "brass");
}

#[test]
fn padlocks_page_flow() {
    let mut page = PadlocksPage::default();
    assert!(page.needs_refresh(0));
    page.loaded_with(
        vec![padlock(1, "P1", Some(2), Some("A2"))],
        vec![unit(2, "A2", "West", 5000)],
        4,
    );
    assert!(!page.needs_refresh(4));
    assert!(page.needs_refresh(5));

    assert_eq!(page.selected_unit_text(), "Inventory / Not Assigned");
    assert_eq!(page.begin_edit(9), "Unable to find Padlock ID 9.");
    assert_eq!(page.begin_edit(1), "Editing Padlock P1");
    assert_eq!(page.selected_unit_text(), "Unit A2 — West");
    page.form.selected_unit_id = Some(77);
    assert_eq!(page.selected_unit_text(), "Unknown Unit");
    assert_eq!(page.editing_target(), Ok(1));

    let new_padlock = PadlockForm::from_padlock(&padlock(1, "P1", None, None))
        .to_new_padlock()
        .expect("valid");
    assert_eq!(page.padlock_updated(1, &new_padlock, Ok(false)).status, "Padlock ID 1 no longer exists.");
    assert_eq!(
        page.padlock_updated(1, &new_padlock, Err("taken".to_string())).status,
        "Unable to update Padlock P1: taken"
    );
    let updated = page.padlock_updated(1, &new_padlock, Ok(true));
    assert_eq!(updated.status, "Updated Padlock P1");
    assert!(updated.data_changed);
    assert_eq!(page.editing_padlock_id, None);
    assert_eq!(
        page.editing_target(),
        Err("No padlock is selected for editing.".to_string())
    );

    let added = page.padlock_added(&new_padlock, Ok(3));
    assert_eq!(added.status, "Added Padlock P1 — database ID 3");
    assert_eq!(
        page.padlock_added(&new_padlock, Err("dup".to_string())).status,
        "Unable to add Padlock P1: dup"
    );

    page.request_delete(0);
    let pending = page.pending_delete.clone().expect("pending");
    assert_eq!(pending.serial_number, "P1");
    assert_eq!(page.cancel_delete(), "Padlock deletion canceled");
    assert_eq!(page.delete_finished(&pending, Ok(true)).status, "Deleted Padlock P1");
    let other = PendingPadlock { id: 2, serial_number: "P2".to_string() };
    assert_eq!(page.delete_finished(&other, Ok(false)).status, "Padlock P2 no longer exists.");
    assert_eq!(
        page.delete_finished(&other, Err("io".to_string())).status,
        "Unable to delete Padlock P2: io"
    );
    assert_eq!(page.cancel_edit(), "Padlock edit canceled");
    assert_eq!(page.clear_form(), "Padlock form cleared");
    assert_eq!(
        page.load_failed("units for padlock assignment", "x"),
        "Unable to load units for padlock assignment: x"
    );
}

#[test]
fn rental_labels() {
    assert_eq!(
        rental_display_name(&rental(1, "Ada Lovelace", "A1", 12500)),
        "Ada Lovelace — Unit A1 — $125.00"
    );
    assert_eq!(unit_display_name(&unit(1, "A1", "", 9900)), "A1 — $99.00");
    assert_eq!(unit_display_name(&unit(1, "A1", "North", 9900)), "North / A1 — $99.00");
    let rentals = vec![rental(3, "X", "1", 0), rental(5, "Y", "2", 0)];
    assert_eq!(find_rental(&rentals, 5), Some(1));
    assert_eq!(find_rental(&rentals, 4), None);
}

#[test]
fn recording_a_payment() {
    let mut page = PaymentsPage::default();
    assert!(!page.can_record());
    page.loaded_with(vec![rental(7, "Ada Lovelace", "A1", 12500)], Vec::new());
    assert!(page.can_record());

    assert_eq!(page.selected_rental_text(), "Select Rental");
    assert_eq!(page.prepare_payment().err(), Some("A rental must be selected.".to_string()));

    page.form.rental_id = Some(7);
    page.rental_selection_changed(None);
    assert_eq!(page.form.amount, "125.00");
    assert_eq!(page.selected_rental_text(), "Ada Lovelace — Unit A1 — $125.00");

    assert_eq!(
        page.prepare_payment().err(),
        Some("Payment date must use YYYY-MM-DD.".to_string())
    );
    page.form.payment_date = "2024-02-30".to_string();
    assert_eq!(
        page.prepare_payment().err(),
        Some("Payment date contains an invalid day.".to_string())
    );
    page.form.payment_date = " 2024-02-29 ".to_string();
    page.form.amount = "0".to_string();
    assert_eq!(
        page.prepare_payment().err(),
        Some("Payment amount must be greater than zero.".to_string())
    );

    page.form.amount = "$60".to_string();
    page.form.payment_method = PaymentMethod::Check;
    page.form.reference = " 1001 ".to_string();
    let (payment, description) = page.prepare_payment().expect("valid form");
    assert_eq!(payment.rental_id, 7);
    assert_eq!(payment.payment_date, "2024-02-29");
    assert_eq!(payment.amount_cents, 6000);
    assert_eq!(payment.payment_method, PaymentMethod::Check);
    assert_eq!(payment.reference, "1001");
    assert_eq!(description, "Ada Lovelace — Unit A1 — $125.00");
    assert_eq!(validate_new_payment(&payment), Ok(()));

    let status = page.payment_recorded(&payment, &description, 41);
    assert_eq!(
        status,
        "Recorded $60.00 payment for Ada Lovelace — Unit A1 — $125.00 — payment ID 41"
    );
    assert_eq!(page.form.rental_id, None);
    assert!(page.form.amount.is_empty());

    page.form.rental_id = Some(99);
    page.form.payment_date = "2024-03-01".to_string();
    page.form.amount = "5".to_string();
    let (_, description) = page.prepare_payment().expect("valid form");
    assert_eq!(description, "Rental ID 99");

    page.form.rental_id = None;
    page.rental_selection_changed(Some(99));
    assert!(page.form.amount.is_empty());

    assert_eq!(page.clear_form(), "Payment form cleared");
    assert_eq!(page.load_failed("payments", "io"), "Unable to load payments: io");
    assert_eq!(page.set_error("Unable to record payment: x".to_string()), "Unable to record payment: x");
}

#[test]
fn starting_a_rental() {
    let mut page = RentalsPage::default();
    page.loaded_with(
        vec![tenant(2, "Ada", "Lovelace")],
        vec![unit(5, "B5", "", 8000)],
        Vec::new(),
    );
    assert!(page.can_start());
    assert_eq!(page.selected_tenant_text(), "Select Tenant");
    assert_eq!(page.selected_unit_text(), "Select Unit");
    assert_eq!(page.prepare_rental().err(), Some("A tenant must be selected.".to_string()));

    page.form.tenant_id = Some(2);
    assert_eq!(
        page.prepare_rental().err(),
        Some("A storage unit must be selected.".to_string())
    );
    page.form.unit_id = Some(5);
    page.unit_selection_changed(None);
    assert_eq!(page.form.monthly_rent, "80.00");
    assert_eq!(page.selected_tenant_text(), "Ada Lovelace");
    assert_eq!(page.selected_unit_text(), "B5 — $80.00");

    page.form.start_date = "2024-13-01".to_string();
    assert_eq!(
        page.prepare_rental().err(),
        Some("Start date contains an invalid month.".to_string())
    );
    page.form.start_date = "2024-01-31".to_string();
    page.form.monthly_rent = "-1".to_string();
    assert_eq!(
        page.prepare_rental().err(),
        Some("Monthly rent cannot be negative.".to_string())
    );
    page.form.monthly_rent = "75".to_string();
    page.form.notes = " key at desk ".to_string();
    let (new_rental, tenant_name, unit_number) = page.prepare_rental().expect("valid");
    assert_eq!(new_rental.tenant_id, 2);
    assert_eq!(new_rental.unit_id, 5);
    assert_eq!(new_rental.start_date, "2024-01-31");
    assert_eq!(new_rental.monthly_rent_cents, 7500);
    assert_eq!(new_rental.notes, "key at desk");
    assert_eq!(tenant_name, "Ada Lovelace");
    assert_eq!(unit_number, "B5");
    assert_eq!(validate_new_rental(&new_rental), Ok(()));

    let status = page.rental_started(&tenant_name, &unit_number, 12);
    assert_eq!(status, "Started rental for Ada Lovelace in Unit B5 — rental ID 12");
    assert_eq!(page.form.tenant_id, None);
    assert_eq!(page.clear_form(), "Rental form cleared");
}

#[test]
fn unknown_tenants_and_units_are_named_by_id() {
    let mut page = RentalsPage::default();
    page.form.tenant_id = Some(3);
    page.form.unit_id = Some(4);
    page.form.start_date = "2024-01-01".to_string();
    page.form.monthly_rent = "1".to_string();
    let (_, tenant_name, unit_number) = page.prepare_rental().expect("valid");
    assert_eq!(tenant_name, "Tenant ID 3");
    assert_eq!(unit_number, "Unit ID 4");
    assert!(!page.can_start());
}

#[test]
fn ending_a_rental() {
    let mut page = RentalsPage::default();
    page.loaded_with(Vec::new(), Vec::new(), vec![rental(9, "Ada Lovelace", "A1", 100)]);
    page.request_end(0);
    let mut pending = page.pending_end.clone().expect("pending");
    assert_eq!(pending.rental_id, 9);
    assert_eq!(pending.start_date, "2024-01-10");
    assert!(pending.end_date.is_empty());

    assert_eq!(page.cancel_end(), "End rental canceled");
    assert!(page.pending_end.is_none());

    pending.end_date = "2024-1-5".to_string();
    assert_eq!(
        page.confirm_end(pending.clone()).err(),
        Some("End date must use YYYY-MM-DD.".to_string())
    );
    assert!(page.pending_end.is_some());

    pending.end_date = "2024-01-09".to_string();
    assert_eq!(
        page.confirm_end(pending.clone()).err(),
        Some("End date cannot be before the rental start date.".to_string())
    );

    pending.end_date = " 2024-01-10 ".to_string();
    let (confirmed, end_date) = page.confirm_end(pending.clone()).expect("same day is allowed");
    assert_eq!(end_date, "2024-01-10");
    assert_eq!(confirmed.rental_id, 9);

    let (status, changed) = page.end_finished(confirmed.clone(), Err("busy".to_string()));
    assert_eq!(status, "Unable to end rental: busy");
    assert!(!changed);
    assert!(page.pending_end.is_some());

    let (status, changed) = page.end_finished(confirmed.clone(), Ok(false));
    assert_eq!(status, "The rental for Unit A1 is no longer active.");
    assert!(!changed);
    assert!(page.pending_end.is_none());

    let (status, changed) = page.end_finished(confirmed, Ok(true));
    assert_eq!(status, "Ended rental for Ada Lovelace in Unit A1");
    assert!(changed);
    assert_eq!(page.error_message, None);

    let other = PendingEnd {
        rental_id: 1,
        tenant_name: "T".to_string(),
        unit_number: "U".to_string(),
        start_date: "2024-05-01".to_string(),
        end_date: "2025-01-01".to_string(),
    };
    assert!(page.confirm_end(other).is_ok());
    assert_eq!(page.load_failed("vacant units", "io"), "Unable to load vacant units: io");
}

#[test]
fn padlock_answers_keep_the_rest_of_the_page() {
    let mut page = PadlocksPage::default();
    page.loaded_with(vec![padlock(1, "P1", None, None)], Vec::new(), 0);
    page.begin_edit(1);
    page.request_delete(0);
    let new_padlock = page.form.to_new_padlock().expect("valid");
    page.padlock_added(&new_padlock, Ok(9));
    assert_eq!(page.editing_padlock_id, Some(1));
    assert!(page.pending_delete.is_some());
    assert_eq!(page.error_message, None);
    let pending = page.pending_delete.clone().expect("pending");
    page.form.serial_number = "P1-edit".to_string();
    page.delete_finished(&pending, Ok(false));
    assert_eq!(page.editing_padlock_id, Some(1));
    assert_eq!(page.form.serial_number, "P1-edit");
}
