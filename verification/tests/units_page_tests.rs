use storage_manager::models::{Unit, UnitSize, FEET_10, FEET_20, FEET_5};
use storage_manager::pages::units::{
    cleaning_action, find_unit, format_layout, parse_display_order, section_of, unit_state,
    unit_status, PendingUnit, UnitForm, UnitState, UnitsPage,
};

fn unit(id: i64, number: &str) -> Unit {
    Unit {
        id,
        unit_number: number.to_string(),
        building: "A".to_string(),
        width: Some(FEET_10),
        length: Some(FEET_20),
        monthly_rent_cents: 12500,
        occupied: false,
        needs_cleaned: false,
        yellow_lock: false,
        red_lock: false,
        layout_section: " North ".to_string(),
        display_order: 3,
        notes: "corner".to_string(),
    }
}

#[test]
fn unit_states() {
    let mut u = unit(1, "A1");
    assert_eq!(unit_status(&u), "Vacant");
    assert_eq!(unit_state(&u), UnitState::Vacant);
    assert_eq!(cleaning_action(&u), Some(true));
    u.needs_cleaned = true;
    assert_eq!(unit_status(&u), "Needs Cleaned");
    assert_eq!(unit_state(&u), UnitState::NeedsCleaned);
    assert_eq!(cleaning_action(&u), Some(false));
    u.occupied = true;
    assert_eq!(unit_status(&u), "Occupied");
    assert_eq!(unit_state(&u), UnitState::Occupied);
    assert_eq!(cleaning_action(&u), None);
}

#[test]
fn display_orders() {
    assert_eq!(parse_display_order(""), Ok(0));
    assert_eq!(parse_display_order("  "), Ok(0));
    assert_eq!(parse_display_order(" 12 "), Ok(12));
    assert_eq!(parse_display_order("+4"), Ok(4));
    assert_eq!(
        parse_display_order("1.5"),
        Err("Display order must be a whole number.".to_string())
    );
    assert_eq!(
        parse_display_order("-2"),
        Err("Display order cannot be negative.".to_string())
    );
}

#[test]
fn layout_labels() {
    let mut u = unit(1, "A1");
    assert_eq!(format_layout(&u), "North #3");
    u.display_order = 0;
    assert_eq!(format_layout(&u), "North");
    u.layout_section = "   ".to_string();
    assert_eq!(format_layout(&u), "Main Section");
    u.display_order = 7;
    assert_eq!(format_layout(&u), "Main Section #7");
    assert_eq!(section_of(""), "Main Section");
    assert_eq!(section_of(" East "), "East");
}

#[test]
fn finding_units_by_id() {
    let units = vec![unit(4, "A1"), unit(9, "B2"), unit(9, "B3")];
    assert_eq!(find_unit(&units, 9), Some(1));
    assert_eq!(find_unit(&units, 4), Some(0));
    assert_eq!(find_unit(&units, 5), None);
}

#[test]
fn form_from_a_standard_unit() {
    let form = UnitForm::from_unit(&unit(1, "A1")).expect("standard size");
    assert_eq!(form.unit_number, "A1");
    assert_eq!(form.size, UnitSize::TenByTwenty);
    assert_eq!(form.monthly_rent, "125.00");
    assert_eq!(form.display_order, "3");
    assert_eq!(form.layout_section, " North ");
    assert_eq!(form.notes, "corner");
}

#[test]
fn form_from_an_odd_sized_unit() {
    let mut u = unit(1, "Z9");
    u.width = Some(7.5_f64.to_bits());
    assert_eq!(
        UnitForm::from_unit(&u).err(),
        Some("Unit Z9 has dimensions that do not match a standard size.".to_string())
    );
}

#[test]
fn form_to_new_unit() {
    let mut form = UnitForm::default();
    assert_eq!(form.to_new_unit().err(), Some("Unit number is required.".to_string()));

    form.unit_number = "  C3 ".to_string();
    assert_eq!(form.to_new_unit().err(), Some("Monthly rent is required.".to_string()));

    form.monthly_rent = "$85".to_string();
    form.display_order = "x".to_string();
    assert_eq!(
        form.to_new_unit().err(),
        Some("Display order must be a whole number.".to_string())
    );

    form.display_order = String::new();
    form.building = " B ".to_string();
    form.layout_section = " South ".to_string();
    form.notes = " new roof ".to_string();
    form.yellow_lock = true;
    let new_unit = form.to_new_unit().expect("valid form");
    assert_eq!(new_unit.unit_number, "C3");
    assert_eq!(new_unit.building, "B");
    assert_eq!(new_unit.width, Some(FEET_5));
    assert_eq!(new_unit.length, Some(FEET_5));
    assert_eq!(new_unit.monthly_rent_cents, 8500);
    assert_eq!(new_unit.layout_section, "South");
    assert_eq!(new_unit.display_order, 0);
    assert!(new_unit.yellow_lock);
    assert!(!new_unit.red_lock);
    assert_eq!(new_unit.notes, "new roof");
}

#[test]
fn an_edited_unit_saved_unchanged_keeps_its_values() {
    let u = unit(1, "A1");
    let form = UnitForm::from_unit(&u).expect("standard size");
    let saved = form.to_new_unit().expect("valid form");
    assert_eq!(saved.width, u.width);
    assert_eq!(saved.length, u.length);
    assert_eq!(saved.monthly_rent_cents, u.monthly_rent_cents);
    assert_eq!(saved.display_order, u.display_order);
    assert_eq!(saved.unit_number, u.unit_number);
}

#[test]
fn editing_a_unit() {
    let mut page = UnitsPage::default();
    page.loaded_with(vec![unit(1, "A1"), unit(2, "A2")], Vec::new());
    assert!(page.loaded);

    assert_eq!(page.begin_edit(7), "Unable to find Unit ID 7.");
    assert_eq!(page.error_message.as_deref(), Some("Unable to find Unit ID 7."));
    assert_eq!(page.editing_unit_id, None);

    assert_eq!(page.begin_edit(2), "Editing Unit A2");
    assert_eq!(page.editing_unit_id, Some(2));
    assert_eq!(page.error_message, None);
    assert_eq!(page.form.unit_number, "A2");
    assert_eq!(page.editing_target(), Ok(2));

    assert_eq!(page.cancel_edit(), "Unit edit canceled");
    assert_eq!(page.editing_unit_id, None);
    assert!(page.form.unit_number.is_empty());
    assert_eq!(
        page.editing_target(),
        Err("No storage unit is selected for editing.".to_string())
    );
}

#[test]
fn adding_and_updating_units() {
    let mut page = UnitsPage::default();
    page.form.unit_number = "B7".to_string();
    page.form.monthly_rent = "60".to_string();
    let new_unit = page.form.to_new_unit().expect("valid form");

    let failed = page.unit_added(&new_unit, Err("disk full".to_string()));
    assert_eq!(failed.status, "Unable to add Unit B7: disk full");
    assert!(!failed.data_changed);
    assert_eq!(page.form.unit_number, "B7");

    let added = page.unit_added(&new_unit, Ok(14));
    assert_eq!(added.status, "Added Unit B7 — database ID 14");
    assert!(added.data_changed);
    assert!(page.form.unit_number.is_empty());

    let missing = page.unit_updated(14, &new_unit, Ok(false));
    assert_eq!(missing.status, "Unit ID 14 no longer exists.");
    assert!(!missing.data_changed);

    let error = page.unit_updated(14, &new_unit, Err("locked".to_string()));
    assert_eq!(error.status, "Unable to update Unit B7: locked");

    page.editing_unit_id = Some(14);
    let updated = page.unit_updated(14, &new_unit, Ok(true));
    assert_eq!(updated.status, "Updated Unit B7");
    assert!(updated.data_changed);
    assert_eq!(page.editing_unit_id, None);
}

#[test]
fn cleaning_status_messages() {
    let mut page = UnitsPage::default();
    assert_eq!(page.cleaning_status_set("A1", true, Ok(true)).status, "Unit A1 marked Needs Cleaned");
    assert_eq!(
        page.cleaning_status_set("A1", false, Ok(true)).status,
        "Unit A1 marked Cleaned and Vacant"
    );
    assert_eq!(
        page.cleaning_status_set("A1", true, Ok(false)).status,
        "Unit A1 could not be updated. It may be occupied or no longer exist."
    );
    let failed = page.cleaning_status_set("A1", true, Err("busy".to_string()));
    assert_eq!(failed.status, "Unable to update cleaning status for Unit A1: busy");
    assert!(!failed.data_changed);
    assert_eq!(page.error_message.as_deref(), Some("Unable to update cleaning status for Unit A1: busy"));
}

#[test]
fn archiving_and_deleting_units() {
    let mut page = UnitsPage::default();
    page.loaded_with(vec![unit(1, "A1"), unit(2, "A2")], Vec::new());

    page.request_removal(1, true);
    let pending = page.pending_archive.clone().expect("pending archive");
    assert_eq!(pending.id, 2);
    assert_eq!(pending.unit_number, "A2");
    assert_eq!(page.cancel_removal(true), "Unit archive canceled");
    assert!(page.pending_archive.is_none());

    page.request_removal(0, false);
    assert_eq!(page.cancel_removal(false), "Unit deletion canceled");
    assert!(page.pending_delete.is_none());

    page.begin_edit(2);
    page.request_removal(1, true);
    let done = page.removal_finished(&pending, true, Ok(true));
    assert_eq!(done.status, "Archived Unit A2");
    assert!(done.data_changed);
    assert!(page.pending_archive.is_none());
    assert_eq!(page.editing_unit_id, None);

    let gone = PendingUnit { id: 5, unit_number: "C1".to_string() };
    assert_eq!(
        page.removal_finished(&gone, true, Ok(false)).status,
        "Unit C1 is already archived or no longer exists."
    );
    assert_eq!(
        page.removal_finished(&gone, false, Ok(false)).status,
        "Unit C1 no longer exists."
    );
    assert_eq!(
        page.removal_finished(&gone, false, Err("has history".to_string())).status,
        "Unable to delete Unit C1: has history"
    );
    assert_eq!(page.removal_finished(&gone, false, Ok(true)).status, "Deleted Unit C1");
}

#[test]
fn restoring_and_loading_units() {
    let mut page = UnitsPage::default();
    assert_eq!(page.restore_finished("A1", Ok(true)).status, "Restored Unit A1");
    assert_eq!(
        page.restore_finished("A1", Ok(false)).status,
        "Unit A1 is not archived or no longer exists."
    );
    assert_eq!(
        page.restore_finished("A1", Err("gone".to_string())).status,
        "Unable to restore Unit A1: gone"
    );
    assert_eq!(
        page.load_failed("active units", "no such table"),
        "Unable to load active units: no such table"
    );
    assert!(page.loaded);
    assert_eq!(page.set_error("Oops".to_string()), "Oops");
    assert_eq!(page.clear_form(), "Unit form cleared");
    assert_eq!(page.error_message, None);
}

#[test]
fn unit_answers_keep_the_rest_of_the_page() {
    let mut page = UnitsPage::default();
    page.loaded_with(vec![unit(1, "A1"), unit(2, "A2")], Vec::new());
    page.begin_edit(1);
    page.request_removal(1, false);
    let new_unit = page.form.to_new_unit().expect("valid form");
    page.unit_added(&new_unit, Ok(3));
    assert_eq!(page.editing_unit_id, Some(1));
    assert!(page.pending_delete.is_some());
    page.form.notes = "changed".to_string();
    let pending = page.pending_delete.clone().expect("pending");
    page.removal_finished(&pending, false, Err("history".to_string()));
    assert_eq!(page.editing_unit_id, Some(1));
    assert_eq!(page.form.notes, "changed");
    assert!(page.pending_delete.is_none());
}
