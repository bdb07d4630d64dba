use storage_manager::config::Config;
use storage_manager::models::{Padlock, ReportSummary, Unit, FEET_10, FEET_5};
use storage_manager::pages::dashboard::{
    building_of, count_unlocked_occupied, layout_order, layout_sections, lock_status,
    missing_lock_warning, padlock_for_unit, padlocks_by_unit, tile_details, tile_is_narrow, tile_label, tile_warns, DashboardPage,
};
use storage_manager::pages::reports::{operations_note, ReportsPage};
use storage_manager::pages::settings::{
    backup_order, is_database_extension, BackupFile, SettingsPage,
};

fn unit(id: i64, number: &str, building: &str, section: &str, order: i64) -> Unit {
    Unit {
        id,
        unit_number: number.to_string(),
        building: building.to_string(),
        width: Some(FEET_10),
        length: Some(FEET_10),
        monthly_rent_cents: 10000,
        occupied: false,
        needs_cleaned: false,
        yellow_lock: false,
        red_lock: false,
        layout_section: section.to_string(),
        display_order: order,
        notes: String::new(),
    }
}

fn padlock(id: i64, serial: &str, unit_id: Option<i64>) -> Padlock {
    Padlock {
        id,
        serial_number: serial.to_string(),
        combination: "0-0-0".to_string(),
        unit_id,
        unit_number: None,
        notes: String::new(),
    }
}

fn backup(name: &str) -> BackupFile {
    BackupFile { path: format!("backups/{name}"), name: name.to_string() }
}

#[test]
fn buildings_and_their_names() {
    assert_eq!(building_of(""), "Unassigned Building");
    assert_eq!(building_of("  "), "Unassigned Building");
    assert_eq!(building_of(" West "), "West");
}

#[test]
fn layout_groups_buildings_then_sections_then_places() {
    let units = vec![
        unit(1, "b2", "B", "", 0),
        unit(2, "A10", "A", "South", 2),
        unit(3, "a3", "A", "North", 1),
        unit(4, "A2", "A", "North", 1),
        unit(5, "Z1", "", "", 0),
        unit(6, "A1", "A", "North", 0),
        unit(7, "c1", " B ", "Main Section", 0),
    ];
    // Buildings: "A" < "B" < "Unassigned Building"; in A, "North" < "South";
    // in A / North, order 0 first, then "a2" < "a3" ignoring case; in B the
    // blank section is "Main Section", and "b2" < "c1".
    assert_eq!(layout_order(&units), vec![5, 3, 2, 1, 0, 6, 4]);
}

#[test]
fn layout_order_keeps_ties_in_list_order() {
    let units = vec![
        unit(1, "A1", "A", "", 0),
        unit(2, "a1", "A", "", 0),
        unit(3, "A1", "A", " ", 0),
    ];
    assert_eq!(layout_order(&units), vec![0, 1, 2]);
    assert_eq!(layout_order(&Vec::new()), Vec::<usize>::new());
}

#[test]
fn layout_sections_follow_the_layout_order() {
    let units = vec![
        unit(1, "b2", "B", "", 0),
        unit(2, "A10", "A", "South", 2),
        unit(3, "a3", "A", "North", 1),
        unit(4, "A2", "A", "North", 1),
        unit(5, "Z1", "", "", 0),
        unit(6, "A1", "A", "North", 0),
        unit(7, "c1", " B ", "Main Section", 0),
    ];
    let runs = layout_sections(&units, &layout_order(&units));
    let shown: Vec<(String, String, bool, Vec<usize>)> = runs
        .into_iter()
        .map(|r| (r.building, r.section, r.new_building, r.units))
        .collect();
    assert_eq!(
        shown,
        vec![
            ("A".to_string(), "North".to_string(), true, vec![5, 3, 2]),
            ("A".to_string(), "South".to_string(), false, vec![1]),
            ("B".to_string(), "Main Section".to_string(), true, vec![0, 6]),
            ("Unassigned Building".to_string(), "Main Section".to_string(), true, vec![4]),
        ]
    );
    assert!(layout_sections(&units, &Vec::new()).is_empty());
}

#[test]
fn unit_numbers_are_compared_ignoring_case() {
    let units = vec![unit(1, "B1", "A", "", 0), unit(2, "a1", "A", "", 0), unit(3, "C1", "A", "", 0)];
    assert_eq!(layout_order(&units), vec![1, 0, 2]);
}

#[test]
fn padlocks_on_units() {
    let padlocks = vec![
        padlock(1, "P1", Some(10)),
        padlock(2, "P2", None),
        padlock(3, "P3", Some(10)),
        padlock(4, "P4", Some(11)),
    ];
    let by_unit = padlocks_by_unit(&padlocks);
    assert_eq!(by_unit.len(), 2);
    assert_eq!(padlock_for_unit(&by_unit, 10), Some(2));
    assert_eq!(padlock_for_unit(&by_unit, 11), Some(3));
    assert_eq!(padlock_for_unit(&by_unit, 12), None);
}

#[test]
fn occupied_units_without_a_customer_lock() {
    let mut units = vec![
        unit(10, "A1", "", "", 0),
        unit(11, "A2", "", "", 0),
        unit(12, "A3", "", "", 0),
        unit(13, "A4", "", "", 0),
    ];
    for u in units.iter_mut() {
        u.occupied = true;
    }
    units[1].red_lock = true;
    units[2].yellow_lock = true;
    units[3].occupied = false;
    let padlocks = vec![padlock(1, "P1", Some(10))];
    assert_eq!(count_unlocked_occupied(&units, &padlocks), 1);
    assert_eq!(count_unlocked_occupied(&units, &Vec::new()), 2);
    assert_eq!(missing_lock_warning(0), None);
    assert_eq!(
        missing_lock_warning(2),
        Some("⚠ 2 occupied without customer lock".to_string())
    );
}

#[test]
fn tiles() {
    let mut u = unit(1, "A1", "", "", 0);
    assert_eq!(lock_status(&u, false), "No lock");
    assert_eq!(tile_label(&u, false), "A1\nVacant\nNo lock\n$100.00");
    assert!(!tile_warns(&u, false));

    u.occupied = true;
    assert_eq!(lock_status(&u, false), "⚠ No lock");
    assert!(tile_warns(&u, false));
    assert!(!tile_warns(&u, true));

    u.yellow_lock = true;
    assert_eq!(lock_status(&u, false), "🟨");
    assert!(tile_warns(&u, false));
    u.red_lock = true;
    assert_eq!(lock_status(&u, true), "🟨  🟥  🔒");
    assert!(!tile_warns(&u, false));
    u.yellow_lock = false;
    assert_eq!(lock_status(&u, true), "🟥  🔒");
    assert_eq!(tile_label(&u, true), "A1\nOccupied\n🟥  🔒\n$100.00");

    assert!(!tile_is_narrow(&u));
    u.width = Some(FEET_5);
    u.length = Some(FEET_5);
    assert!(tile_is_narrow(&u));
}

#[test]
fn tile_details_text() {
    let mut u = unit(1, "A1", "", "  ", 4);
    u.occupied = true;
    assert_eq!(
        tile_details(&u, None, "10ft × 10ft"),
        "Unit A1\nBuilding: Unassigned\nSection: Main Section\nDisplay order: 4\nSize: 10ft × 10ft\nStatus: Occupied\nYellow lock: No\nRed lock: No\nTracked padlock: None\nCustomer lock coverage: MISSING\nMonthly rent: $100.00"
    );
    u.building = "North".to_string();
    u.layout_section = " Row 1 ".to_string();
    u.yellow_lock = true;
    assert_eq!(
        tile_details(&u, Some("P-77"), "Unknown"),
        "Unit A1\nBuilding: North\nSection:  Row 1 \nDisplay order: 4\nSize: Unknown\nStatus: Occupied\nYellow lock: Yes\nRed lock: No\nTracked padlock: P-77\nCustomer lock coverage: Present\nMonthly rent: $100.00"
    );
    assert!(tile_details(&unit(2, "B", "", "", 0), None, "x").contains("Customer lock coverage: None"));
}

#[test]
fn dashboard_page_state() {
    let mut page = DashboardPage::default();
    assert!(page.needs_refresh(0));
    let summary = ReportSummary { total_units: 2, occupied_units: 1, ..ReportSummary::default() };
    page.loaded_with(summary, vec![unit(1, "A1", "", "", 0)], Vec::new(), 3);
    assert!(!page.needs_refresh(3));
    assert!(page.needs_refresh(4));
    assert_eq!(
        page.load_failed("unit layout", "io"),
        "Unable to load unit layout: io"
    );
    assert_eq!(page.error_message.as_deref(), Some("Unable to load unit layout: io"));
    assert_eq!(page.summary.map(|s| s.total_units), Some(2));
}

#[test]
fn reports() {
    let mut summary = ReportSummary::default();
    summary.occupied_units = 4;
    summary.active_rentals = 4;
    assert_eq!(
        operations_note(&summary),
        (true, "🟢 Active rentals match occupied units.".to_string())
    );
    summary.active_rentals = 3;
    assert_eq!(
        operations_note(&summary),
        (false, "🔴 Data mismatch: 4 occupied units but 3 active rentals.".to_string())
    );

    let mut page = ReportsPage::default();
    assert!(page.needs_refresh(0));
    page.loaded_with(summary, 2);
    assert!(!page.needs_refresh(2));
    assert_eq!(page.load_failed("io"), "Unable to load report summary: io");
    assert!(page.summary.is_none());
    assert!(page.needs_refresh(3));
}

#[test]
fn database_file_extensions() {
    assert!(is_database_extension("db"));
    assert!(is_database_extension("DB"));
    assert!(is_database_extension("Db"));
    assert!(!is_database_extension("sqlite"));
    assert!(!is_database_extension("d"));
    assert!(!is_database_extension(""));
}

#[test]
fn backups_are_listed_newest_first() {
    let files = vec![
        backup("StorageManager-backup-20240101-000000.db"),
        backup("StorageManager-backup-20240301-000000.db"),
        backup("StorageManager-backup-20240201-000000.db"),
        backup("StorageManager-backup-20240301-000000-01.db"),
    ];
    // "…000000.db" comes after "…000000-01.db", as '.' comes after '-'.
    assert_eq!(backup_order(&files), vec![1, 3, 2, 0]);
}

#[test]
fn backup_list_keeps_the_chosen_backup() {
    let mut page = SettingsPage::default();
    assert_eq!(page.selected_backup_text(), "Select a backup");
    assert_eq!(page.selected_backup_path(), None);
    page.set_backup_files(Vec::new());
    assert_eq!(page.selected_backup_index, None);
    assert_eq!(page.backup_count_text(), "0 backup(s) found");

    page.set_backup_files(vec![backup("a.db"), backup("c.db"), backup("b.db")]);
    assert_eq!(page.selected_backup_index, Some(0));
    assert_eq!(page.selected_backup_text(), "c.db");
    assert_eq!(page.selected_backup_path(), Some("backups/c.db".to_string()));
    assert_eq!(page.backup_count_text(), "3 backup(s) found");

    page.selected_backup_index = Some(2);
    assert_eq!(page.selected_backup_text(), "a.db");
    page.set_backup_files(vec![backup("a.db"), backup("d.db"), backup("c.db")]);
    assert_eq!(page.selected_backup_path(), Some("backups/a.db".to_string()));
    assert_eq!(page.selected_backup_index, Some(2));

    page.set_backup_files(vec![backup("e.db"), backup("d.db")]);
    assert_eq!(page.selected_backup_index, Some(0));
    assert_eq!(page.selected_backup_text(), "e.db");
}

#[test]
fn saving_settings() {
    let mut page = SettingsPage::default();
    let config = Config::with_version("0.1.0".to_string());
    page.load_form(&config);
    assert!(page.loaded);
    assert_eq!(page.company_name, "The Core Storage");

    page.company_name = "   ".to_string();
    assert_eq!(page.company_name_to_save(), Err("Company name is required.".to_string()));
    assert_eq!(page.error_message.as_deref(), Some("Company name is required."));

    page.company_name = "  Acme Storage ".to_string();
    assert_eq!(page.company_name_to_save(), Ok("Acme Storage".to_string()));
    assert_eq!(page.error_message, None);
    assert_eq!(page.settings_saved("Acme Storage"), "Settings saved for Acme Storage");
    assert_eq!(page.company_name, "Acme Storage");
    assert_eq!(
        page.settings_not_saved("read-only file system"),
        "Unable to save settings: read-only file system"
    );
}

#[test]
fn backups_and_restores() {
    let mut page = SettingsPage::default();
    assert_eq!(
        page.backup_created("backups/x.db"),
        "Backup created and verified: backups/x.db"
    );
    assert_eq!(page.backup_message.as_deref(), Some("Backup created and verified: backups/x.db"));
    assert_eq!(
        page.backup_failed("disk full"),
        "Unable to create database backup: disk full"
    );
    assert_eq!(page.backup_message, None);

    page.open_restore_confirmation();
    assert!(page.restore_confirmation_open);
    assert_eq!(page.nothing_to_restore(), "No database backup is selected.");
    assert!(!page.restore_confirmation_open);

    page.open_restore_confirmation();
    assert_eq!(page.cancel_restore(), "Database restore canceled");
    assert!(!page.restore_confirmation_open);

    page.open_restore_confirmation();
    assert_eq!(
        page.restore_finished(Err("not a backup".to_string())),
        ("Unable to restore database: not a backup".to_string(), false)
    );
    assert_eq!(
        page.restore_finished(Ok("backups/safe.db".to_string())),
        ("Database restored. Safety backup: backups/safe.db".to_string(), true)
    );
}
