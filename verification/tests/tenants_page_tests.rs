use storage_manager::models::{NewTenant, Tenant};
use storage_manager::pages::tenants::{
    find_tenant, new_tenant_display_name, tenant_display_name, PendingTenant, TenantForm,
    TenantsPage,
};

fn tenant(id: i64, first: &str, last: &str) -> Tenant {
    Tenant {
        id,
        first_name: first.to_string(),
        last_name: last.to_string(),
        phone: "555-0100".to_string(),
        email: "ada@example.com".to_string(),
        active: true,
        notes: String::new(),
    }
}

fn form(first: &str, last: &str, email: &str) -> TenantForm {
    TenantForm {
        first_name: first.to_string(),
        last_name: last.to_string(),
        phone: " 555-0199 ".to_string(),
        email: email.to_string(),
        active: false,
        notes: " pays early ".to_string(),
    }
}

#[test]
fn display_names_are_trimmed() {
    assert_eq!(tenant_display_name(&tenant(1, "Ada", "Lovelace")), "Ada Lovelace");
    assert_eq!(tenant_display_name(&tenant(1, "", "Lovelace")), "Lovelace");
    assert_eq!(tenant_display_name(&tenant(1, " Ada", "")), "Ada");
    let new_tenant = NewTenant {
        first_name: "Grace".to_string(),
        last_name: "Hopper".to_string(),
        ..NewTenant::default()
    };
    assert_eq!(new_tenant_display_name(&new_tenant), "Grace Hopper");
}

#[test]
fn finding_tenants_by_id() {
    let tenants = vec![tenant(3, "A", "B"), tenant(8, "C", "D")];
    assert_eq!(find_tenant(&tenants, 8), Some(1));
    assert_eq!(find_tenant(&tenants, 1), None);
}

#[test]
fn tenant_form_checks() {
    let default = TenantForm::default();
    assert!(default.active);
    assert_eq!(default.to_new_tenant().err(), Some("First name is required.".to_string()));
    assert_eq!(
        form("Ada", "  ", "").to_new_tenant().err(),
        Some("Last name is required.".to_string())
    );
    for email in ["ada", "@example.com", "ada@", " @ "] {
        assert_eq!(
            form("Ada", "Lovelace", email).to_new_tenant().err(),
            Some("Email address is not valid.".to_string())
        );
    }
    let new_tenant = form(" Ada ", " Lovelace ", " a@b ").to_new_tenant().expect("valid");
    assert_eq!(new_tenant.first_name, "Ada");
    assert_eq!(new_tenant.last_name, "Lovelace");
    assert_eq!(new_tenant.phone, "555-0199");
    assert_eq!(new_tenant.email, "a@b");
    assert!(!new_tenant.active);
    assert_eq!(new_tenant.notes, "pays early");
    assert!(form("Ada", "Lovelace", "").to_new_tenant().is_ok());
}

#[test]
fn a_saved_tenant_form_saves_the_same_again() {
    let once = form(" Ada ", "\tLovelace", " a@b ").to_new_tenant().expect("valid");
    let again = TenantForm::from_tenant(&Tenant {
        id: 1,
        first_name: once.first_name.clone(),
        last_name: once.last_name.clone(),
        phone: once.phone.clone(),
        email: once.email.clone(),
        active: once.active,
        notes: once.notes.clone(),
    })
    .to_new_tenant()
    .expect("still valid");
    assert_eq!(again.first_name, once.first_name);
    assert_eq!(again.last_name, once.last_name);
    assert_eq!(again.phone, once.phone);
    assert_eq!(again.email, once.email);
    assert_eq!(again.active, once.active);
    assert_eq!(again.notes, once.notes);
}

#[test]
fn editing_tenants() {
    let mut page = TenantsPage::default();
    page.loaded_with(vec![tenant(1, "Ada", "Lovelace")], Vec::new());
    assert_eq!(page.begin_edit(2), "Unable to find Tenant ID 2.");
    assert_eq!(page.begin_edit(1), "Editing Ada Lovelace");
    assert_eq!(page.editing_tenant_id, Some(1));
    assert_eq!(page.form.email, "ada@example.com");
    assert_eq!(page.editing_target(), Ok(1));
    assert_eq!(page.cancel_edit(), "Tenant edit canceled");
    assert_eq!(page.editing_tenant_id, None);
    assert!(page.form.active);
    assert_eq!(
        page.editing_target(),
        Err("No tenant is selected for editing.".to_string())
    );
    assert_eq!(page.clear_form(), "Tenant form cleared");
}

#[test]
fn adding_and_updating_tenants() {
    let mut page = TenantsPage::default();
    page.form = form("Ada", "Lovelace", "");
    let new_tenant = page.form.to_new_tenant().expect("valid");

    let failed = page.tenant_added(&new_tenant, Err("constraint".to_string()));
    assert_eq!(failed.status, "Unable to add Ada Lovelace: constraint");
    assert!(!failed.data_changed);

    let added = page.tenant_added(&new_tenant, Ok(5));
    assert_eq!(added.status, "Added Ada Lovelace — database ID 5");
    assert!(added.data_changed);
    assert!(page.form.first_name.is_empty());
    assert!(page.form.active);

    assert_eq!(
        page.tenant_updated(5, &new_tenant, Ok(false)).status,
        "Tenant ID 5 no longer exists."
    );
    assert_eq!(
        page.tenant_updated(5, &new_tenant, Err("busy".to_string())).status,
        "Unable to update Ada Lovelace: busy"
    );
    let updated = page.tenant_updated(5, &new_tenant, Ok(true));
    assert_eq!(updated.status, "Updated Ada Lovelace");
    assert!(updated.data_changed);
}

#[test]
fn archiving_deleting_and_restoring_tenants() {
    let mut page = TenantsPage::default();
    page.loaded_with(vec![tenant(1, "Ada", "Lovelace")], Vec::new());

    page.request_archive(0);
    let pending = page.pending_archive.clone().expect("pending");
    assert_eq!(pending.id, 1);
    assert_eq!(pending.display_name, "Ada Lovelace");
    assert_eq!(page.cancel_archive(), "Tenant archive canceled");

    page.request_delete(0);
    assert!(page.pending_delete.is_some());
    assert_eq!(page.cancel_delete(), "Tenant deletion canceled");
    assert!(page.pending_delete.is_none());

    page.begin_edit(1);
    let archived = page.archive_finished(&pending, Ok(true));
    assert_eq!(archived.status, "Archived Ada Lovelace");
    assert!(archived.data_changed);
    assert_eq!(page.editing_tenant_id, None);

    let other = PendingTenant { id: 9, display_name: "Grace Hopper".to_string() };
    assert_eq!(
        page.archive_finished(&other, Ok(false)).status,
        "Grace Hopper is already archived or no longer exists."
    );
    assert_eq!(
        page.archive_finished(&other, Err("locked".to_string())).status,
        "Unable to archive Grace Hopper: locked"
    );
    assert_eq!(page.delete_finished(&other, Ok(true)).status, "Deleted Grace Hopper");
    assert_eq!(
        page.delete_finished(&other, Ok(false)).status,
        "Grace Hopper no longer exists."
    );
    assert_eq!(
        page.delete_finished(&other, Err("history".to_string())).status,
        "Unable to delete Grace Hopper: history"
    );
    assert_eq!(page.restore_finished("Grace Hopper", Ok(true)).status, "Restored Grace Hopper");
    assert_eq!(
        page.restore_finished("Grace Hopper", Ok(false)).status,
        "Grace Hopper is not archived or no longer exists."
    );
    assert_eq!(
        page.restore_finished("Grace Hopper", Err("x".to_string())).status,
        "Unable to restore Grace Hopper: x"
    );
    assert_eq!(
        page.load_failed("archived tenants", "io"),
        "Unable to load archived tenants: io"
    );
    assert_eq!(page.error_message.as_deref(), Some("Unable to load archived tenants: io"));
}

#[test]
fn failed_removals_keep_the_edit_in_progress() {
    let mut page = TenantsPage::default();
    page.loaded_with(vec![tenant(1, "Ada", "Lovelace"), tenant(2, "Grace", "Hopper")], Vec::new());
    page.begin_edit(1);
    page.request_archive(1);
    let pending = page.pending_archive.clone().expect("pending");
    page.archive_finished(&pending, Ok(false));
    assert_eq!(page.editing_tenant_id, Some(1));
    assert_eq!(page.form.first_name, "Ada");
    page.request_delete(1);
    let pending = page.pending_delete.clone().expect("pending");
    page.delete_finished(&pending, Err("locked".to_string()));
    assert_eq!(page.editing_tenant_id, Some(1));
    assert_eq!(page.form.last_name, "Lovelace");
    page.request_archive(1);
    let added = page.tenant_added(&page.form.to_new_tenant().expect("valid"), Ok(3));
    assert!(added.data_changed);
    assert!(page.pending_archive.is_some());
    assert_eq!(page.editing_tenant_id, Some(1));
}
