use storage_manager::config::Config;
use storage_manager::models::{
    NewPayment, NewRental, NewTenant, NewUnit, PaymentMethod, ReportSummary, Tenant, UnitSize,
    FEET_10, FEET_15, FEET_20, FEET_30, FEET_5,
};
use storage_manager::session::Session;

fn tenant(first: &str, last: &str) -> Tenant {
    Tenant {
        id: 1,
        first_name: first.to_string(),
        last_name: last.to_string(),
        phone: String::new(),
        email: String::new(),
        active: true,
        notes: String::new(),
    }
}

#[test]
fn tenant_display_name_joins_first_and_last() {
    assert_eq!(tenant("Ada", "Lovelace").display_name(), "Ada Lovelace");
    assert_eq!(tenant("", "Lovelace").display_name(), " Lovelace");
    assert_eq!(tenant("Ada", "").display_name(), "Ada ");
}

#[test]
fn payment_method_labels() {
    assert_eq!(PaymentMethod::Cash.label(), "Cash");
    assert_eq!(PaymentMethod::Check.label(), "Check");
    assert_eq!(PaymentMethod::Card.label(), "Card");
    assert_eq!(PaymentMethod::BankTransfer.label(), "Bank Transfer");
    assert_eq!(PaymentMethod::Other.label(), "Other");
    assert_eq!(PaymentMethod::default(), PaymentMethod::Cash);
}

#[test]
fn payment_methods_read_back_from_their_labels() {
    for method in PaymentMethod::ALL {
        assert_eq!(PaymentMethod::from_database(method.label()), method);
    }
    assert_eq!(PaymentMethod::ALL.len(), 5);
}

#[test]
fn unknown_payment_methods_are_other() {
    assert_eq!(PaymentMethod::from_database("cash"), PaymentMethod::Other);
    assert_eq!(PaymentMethod::from_database("BankTransfer"), PaymentMethod::Other);
    assert_eq!(PaymentMethod::from_database(""), PaymentMethod::Other);
    assert_eq!(PaymentMethod::from_database(" Cash"), PaymentMethod::Other);
}

#[test]
fn unit_size_labels_and_dimensions() {
    assert_eq!(UnitSize::FiveByFive.label(), "5ft × 5ft");
    assert_eq!(UnitSize::TenByThirty.label(), "10ft × 30ft");
    assert_eq!(UnitSize::default(), UnitSize::FiveByFive);
    assert_eq!(UnitSize::TenByFifteen.dimensions(), (FEET_10, FEET_15));
    assert_eq!(f64::from_bits(FEET_5), 5.0);
    assert_eq!(f64::from_bits(FEET_10), 10.0);
    assert_eq!(f64::from_bits(FEET_15), 15.0);
    assert_eq!(f64::from_bits(FEET_20), 20.0);
    assert_eq!(f64::from_bits(FEET_30), 30.0);
}

#[test]
fn unit_sizes_read_back_from_their_dimensions() {
    for size in UnitSize::ALL {
        let (width, length) = size.dimensions();
        assert_eq!(UnitSize::from_dimensions(Some(width), Some(length)), Some(size));
    }
}

#[test]
fn other_dimensions_are_no_standard_size() {
    let bits = |feet: f64| Some(feet.to_bits());
    assert_eq!(UnitSize::from_dimensions(bits(5.0), bits(5.0)), Some(UnitSize::FiveByFive));
    assert_eq!(UnitSize::from_dimensions(bits(10.0), bits(20.0)), Some(UnitSize::TenByTwenty));
    assert_eq!(UnitSize::from_dimensions(bits(20.0), bits(10.0)), None);
    assert_eq!(UnitSize::from_dimensions(bits(5.5), bits(5.0)), None);
    assert_eq!(UnitSize::from_dimensions(None, bits(5.0)), None);
    assert_eq!(UnitSize::from_dimensions(bits(10.0), None), None);
}

#[test]
fn defaults() {
    let tenant = NewTenant::default();
    assert!(tenant.active);
    assert!(tenant.first_name.is_empty());
    let rental = NewRental::default();
    assert_eq!(rental.tenant_id, 0);
    assert_eq!(rental.monthly_rent_cents, 0);
    let payment = NewPayment::default();
    assert_eq!(payment.payment_method, PaymentMethod::Cash);
    assert_eq!(payment.amount_cents, 0);
    let unit = NewUnit::default();
    assert_eq!(unit.width, None);
    assert_eq!(unit.display_order, 0);
    assert_eq!(ReportSummary::default().total_units, 0);
}

#[test]
fn rentals_match_occupancy() {
    let mut summary = ReportSummary::default();
    summary.occupied_units = 3;
    summary.active_rentals = 3;
    assert!(summary.rentals_match_occupancy());
    summary.active_rentals = 2;
    assert!(!summary.rentals_match_occupancy());
}

#[test]
fn default_settings() {
    let config = Config::with_version("1.2.3".to_string());
    assert_eq!(config.company_name, "The Core Storage");
    assert_eq!(config.database_file, "StorageManager.db");
    assert_eq!(config.version, "1.2.3");
}

#[test]
fn session_revisions_change_with_the_data() {
    let mut session = Session::new("🟢 Database Connected".to_string());
    assert_eq!(session.status_message(), "🟢 Database Connected");
    assert_eq!(session.data_revision(), 0);
    session.mark_data_changed();
    assert_eq!(session.data_revision(), 1);
    session.set_status_message("Saved".to_string());
    assert_eq!(session.status_message(), "Saved");
    assert_eq!(session.data_revision(), 1);

    session.data_revision = u64::MAX;
    session.mark_data_changed();
    assert_eq!(session.data_revision(), 0);
    assert_eq!(session.status_message(), "Saved");
}

#[test]
fn unit_size_labels_spell_their_dimensions() {
    for size in UnitSize::ALL {
        let (width, length) = size.dimensions();
        let expected = format!("{}ft × {}ft", f64::from_bits(width), f64::from_bits(length));
        assert_eq!(size.label(), expected);
    }
    for a in UnitSize::ALL {
        for b in UnitSize::ALL {
            assert_eq!(a == b, a.label() == b.label());
        }
    }
    assert_eq!(PaymentMethod::ALL[3], PaymentMethod::BankTransfer);
}
