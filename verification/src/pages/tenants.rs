//! The tenants page: adding, editing, archiving, restoring and deleting
//! tenants.
use vstd::prelude::*;
use crate::models::{full_name, NewTenant, Tenant};
use crate::pages::{first_match, lemma_first_match_start, lemma_first_match_step, unable, unable_message};
use crate::text::{
    append_str, chars_of, contains_char, join2, int_text, owned, push_int, string_of, trim,
    trim_string, trimmed,
};

verus! {

pub open spec fn has_tenant_id(id: i64) -> spec_fn(Tenant) -> bool {
    |t: Tenant| t.id == id
}

/// The position of the first tenant with the ID `id`.
pub fn find_tenant(tenants: &Vec<Tenant>, id: i64) -> (r: Option<usize>)
    ensures
        match r {
            Some(i) => i < tenants@.len() && first_match(tenants@, has_tenant_id(id)) == Some(
                tenants@[i as int],
            ),
            None => first_match(tenants@, has_tenant_id(id)) is None,
        },
{
    proof {
        lemma_first_match_start(tenants@, has_tenant_id(id));
    }
    let mut i: usize = 0;
    while i < tenants.len()
        invariant
            i <= tenants@.len(),
            first_match(tenants@, has_tenant_id(id)) == first_match(
                tenants@.skip(i as int),
                has_tenant_id(id),
            ),
        decreases tenants.len() - i,
    {
        proof {
            lemma_first_match_step(tenants@, i as int, has_tenant_id(id));
        }
        if tenants[i].id == id {
            return Some(i);
        }
        i += 1;
    }
    None
}

/// What the tenant form holds while it is being filled in.
pub struct TenantForm {
    pub first_name: String,
    pub last_name: String,
    pub phone: String,
    pub email: String,
    pub active: bool,
    pub notes: String,
}

pub open spec fn tenant_form_is_clear(f: TenantForm) -> bool {
    &&& f.first_name@.len() == 0
    &&& f.last_name@.len() == 0
    &&& f.phone@.len() == 0
    &&& f.email@.len() == 0
    &&& f.active
    &&& f.notes@.len() == 0
}

impl Default for TenantForm {
    fn default() -> (f: Self)
        ensures
            tenant_form_is_clear(f),
    {
        TenantForm {
            first_name: String::new(),
            last_name: String::new(),
            phone: String::new(),
            email: String::new(),
            active: true,
            notes: String::new(),
        }
    }
}

/// An email address is acceptable when it is empty, or holds an `@` that
/// is neither its first nor its last character.
pub open spec fn email_acceptable(email: Seq<char>) -> bool {
    email.len() == 0 || (email.contains('@') && email[0] != '@' && email.last() != '@')
}

/// The tenant the form describes (all fields trimmed), or why it cannot.
pub open spec fn tenant_from_form(f: TenantForm) -> Result<
    (Seq<char>, Seq<char>, Seq<char>, Seq<char>, bool, Seq<char>),
    Seq<char>,
> {
    let first = trim(f.first_name@);
    let last = trim(f.last_name@);
    let email = trim(f.email@);
    if first.len() == 0 {
        Err("First name is required."@)
    } else if last.len() == 0 {
        Err("Last name is required."@)
    } else if !email_acceptable(email) {
        Err("Email address is not valid."@)
    } else {
        Ok((first, last, trim(f.phone@), email, f.active, trim(f.notes@)))
    }
}

impl TenantForm {
    pub fn from_tenant(tenant: &Tenant) -> (f: Self)
        ensures
            f.first_name == tenant.first_name,
            f.last_name == tenant.last_name,
            f.phone == tenant.phone,
            f.email == tenant.email,
            f.active == tenant.active,
            f.notes == tenant.notes,
    {
        TenantForm {
            first_name: tenant.first_name.clone(),
            last_name: tenant.last_name.clone(),
            phone: tenant.phone.clone(),
            email: tenant.email.clone(),
            active: tenant.active,
            notes: tenant.notes.clone(),
        }
    }

    pub fn to_new_tenant(&self) -> (r: Result<NewTenant, String>)
        ensures
            match tenant_from_form(*self) {
                Err(m) => r matches Err(e) && e@ == m,
                Ok((first, last, phone, email, active, notes)) => r matches Ok(t) && {
                    &&& t.first_name@ == first
                    &&& t.last_name@ == last
                    &&& t.phone@ == phone
                    &&& t.email@ == email
                    &&& t.active == active
                    &&& t.notes@ == notes
                },
            },
    {
        let first_name = trim_string(self.first_name.as_str());
        let last_name = trim_string(self.last_name.as_str());
        if first_name.as_str().is_empty() {
            return Err(owned("First name is required."));
        }
        if last_name.as_str().is_empty() {
            return Err(owned("Last name is required."));
        }
        let email = trimmed(self.email.as_str());
        let n = email.len();
        if n > 0 && (!contains_char(&email, '@') || email[0] == '@' || email[n - 1] == '@') {
            return Err(owned("Email address is not valid."));
        }
        Ok(NewTenant {
            first_name,
            last_name,
            phone: trim_string(self.phone.as_str()),
            email: string_of(&email),
            active: self.active,
            notes: trim_string(self.notes.as_str()),
        })
    }
}

/// A tenant's name as lists show it: first and last name, trimmed.
pub fn tenant_display_name(tenant: &Tenant) -> (s: String)
    ensures
        s@ == trim(full_name(tenant.first_name@, tenant.last_name@)),
{
    let full = tenant.display_name();
    trim_string(full.as_str())
}

pub fn new_tenant_display_name(tenant: &NewTenant) -> (s: String)
    ensures
        s@ == trim(full_name(tenant.first_name@, tenant.last_name@)),
{
    let mut out = chars_of(tenant.first_name.as_str());
    out.push(' ');
    append_str(&mut out, tenant.last_name.as_str());
    assert(out@ =~= full_name(tenant.first_name@, tenant.last_name@));
    trim_string(string_of(&out).as_str())
}

/// A tenant waiting for the user to confirm archiving or deleting it.
#[derive(Debug, Clone)]
pub struct PendingTenant {
    pub id: i64,
    pub display_name: String,
}

/// The tenants page.
pub struct TenantsPage {
    pub form: TenantForm,
    pub tenants: Vec<Tenant>,
    pub archived_tenants: Vec<Tenant>,
    pub loaded: bool,
    pub editing_tenant_id: Option<i64>,
    pub pending_archive: Option<PendingTenant>,
    pub pending_delete: Option<PendingTenant>,
    pub error_message: Option<String>,
}

impl Default for TenantsPage {
    fn default() -> (p: Self)
        ensures
            tenant_form_is_clear(p.form),
            p.tenants@.len() == 0,
            p.archived_tenants@.len() == 0,
            !p.loaded,
            p.editing_tenant_id is None,
            p.pending_archive is None,
            p.pending_delete is None,
            p.error_message is None,
    {
        TenantsPage {
            form: TenantForm::default(),
            tenants: Vec::new(),
            archived_tenants: Vec::new(),
            loaded: false,
            editing_tenant_id: None,
            pending_archive: None,
            pending_delete: None,
            error_message: None,
        }
    }
}

/// What an operation on a tenant led to: the status message, and whether
/// the stored data changed (so the lists are to be loaded again).
pub struct TenantOutcome {
    pub status: String,
    pub data_changed: bool,
}

/// The page after the form is cleared and editing stops.
pub open spec fn form_reset(p: TenantsPage, q: TenantsPage) -> bool {
    &&& tenant_form_is_clear(q.form)
    &&& q.editing_tenant_id is None
}

/// The requests waiting for confirmation stay.
pub open spec fn tenant_requests_kept(p: TenantsPage, q: TenantsPage) -> bool {
    &&& q.pending_archive == p.pending_archive
    &&& q.pending_delete == p.pending_delete
}

/// Everything but the form, the editing mark and the error stays.
pub open spec fn lists_kept(p: TenantsPage, q: TenantsPage) -> bool {
    &&& q.tenants == p.tenants
    &&& q.archived_tenants == p.archived_tenants
    &&& q.loaded == p.loaded
}

impl TenantsPage {
    /// Shows `message` as the page's error; gives the same text as the
    /// status message.
    pub fn set_error(&mut self, message: String) -> (status: String)
        ensures
            final(self).error_message == Some(message),
            final(self).form == old(self).form,
            final(self).editing_tenant_id == old(self).editing_tenant_id,
            final(self).pending_archive == old(self).pending_archive,
            final(self).pending_delete == old(self).pending_delete,
            lists_kept(*old(self), *final(self)),
            status@ == message@,
    {
        let status = message.clone();
        self.error_message = Some(message);
        status
    }

    fn reset_form(&mut self)
        ensures
            form_reset(*old(self), *final(self)),
            lists_kept(*old(self), *final(self)),
            final(self).error_message == old(self).error_message,
            final(self).pending_archive == old(self).pending_archive,
            final(self).pending_delete == old(self).pending_delete,
    {
        self.editing_tenant_id = None;
        self.form = TenantForm::default();
    }

    /// Starts editing the listed tenant with the ID `id`.
    pub fn begin_edit(&mut self, id: i64) -> (status: String)
        ensures
            lists_kept(*old(self), *final(self)),
            final(self).pending_archive == old(self).pending_archive,
            final(self).pending_delete == old(self).pending_delete,
            match first_match(old(self).tenants@, has_tenant_id(id)) {
                None => {
                    &&& status@ == "Unable to find Tenant ID "@ + int_text(id as int) + "."@
                    &&& final(self).error_message matches Some(m) && m@ == status@
                    &&& final(self).form == old(self).form
                    &&& final(self).editing_tenant_id == old(self).editing_tenant_id
                },
                Some(t) => {
                    &&& final(self).form.first_name == t.first_name
                    &&& final(self).form.last_name == t.last_name
                    &&& final(self).form.phone == t.phone
                    &&& final(self).form.email == t.email
                    &&& final(self).form.active == t.active
                    &&& final(self).form.notes == t.notes
                    &&& final(self).editing_tenant_id == Some(id)
                    &&& final(self).error_message is None
                    &&& status@ == "Editing "@ + trim(full_name(t.first_name@, t.last_name@))
                },
            },
    {
        match find_tenant(&self.tenants, id) {
            None => {
                let mut out = chars_of("Unable to find Tenant ID ");
                push_int(&mut out, id);
                append_str(&mut out, ".");
                let message = string_of(&out);
                self.set_error(message)
            },
            Some(i) => {
                let form = TenantForm::from_tenant(&self.tenants[i]);
                let name = tenant_display_name(&self.tenants[i]);
                self.form = form;
                self.editing_tenant_id = Some(id);
                self.error_message = None;
                join2("Editing ", name.as_str())
            },
        }
    }

    /// Stops editing without saving.
    pub fn cancel_edit(&mut self) -> (status: String)
        ensures
            form_reset(*old(self), *final(self)),
            lists_kept(*old(self), *final(self)),
            tenant_requests_kept(*old(self), *final(self)),
            final(self).error_message is None,
            status@ == "Tenant edit canceled"@,
    {
        self.reset_form();
        self.error_message = None;
        owned("Tenant edit canceled")
    }

    /// Clears the form.
    pub fn clear_form(&mut self) -> (status: String)
        ensures
            tenant_form_is_clear(final(self).form),
            final(self).editing_tenant_id == old(self).editing_tenant_id,
            lists_kept(*old(self), *final(self)),
            tenant_requests_kept(*old(self), *final(self)),
            final(self).error_message is None,
            status@ == "Tenant form cleared"@,
    {
        self.form = TenantForm::default();
        self.error_message = None;
        owned("Tenant form cleared")
    }

    /// After the database was asked to add `tenant`.
    pub fn tenant_added(&mut self, tenant: &NewTenant, result: Result<i64, String>) -> (out:
        TenantOutcome)
        ensures
            lists_kept(*old(self), *final(self)),
            tenant_requests_kept(*old(self), *final(self)),
            final(self).editing_tenant_id == old(self).editing_tenant_id,
            match result {
                Ok(id) => {
                    &&& tenant_form_is_clear(final(self).form)
                    &&& final(self).error_message == old(self).error_message
                    &&& out.data_changed
                    &&& out.status@ == "Added "@ + trim(full_name(tenant.first_name@, tenant.last_name@))
                        + " — database ID "@ + int_text(id as int)
                },
                Err(e) => {
                    &&& final(self).form == old(self).form
                    &&& !out.data_changed
                    &&& out.status@ == unable_message(
                        "add "@ + trim(full_name(tenant.first_name@, tenant.last_name@)),
                        e@,
                    )
                    &&& final(self).error_message matches Some(m) && m@ == out.status@
                },
            },
    {
        let name = new_tenant_display_name(tenant);
        match result {
            Ok(id) => {
                let mut out = chars_of("Added ");
                append_str(&mut out, name.as_str());
                append_str(&mut out, " — database ID ");
                push_int(&mut out, id);
                self.form = TenantForm::default();
                TenantOutcome { status: string_of(&out), data_changed: true }
            },
            Err(e) => {
                let what = join2("add ", name.as_str());
                let message = unable(what.as_str(), e.as_str());
                let status = self.set_error(message);
                TenantOutcome { status, data_changed: false }
            },
        }
    }

    /// The tenant being edited, or the message when none is.
    pub fn editing_target(&self) -> (r: Result<i64, String>)
        ensures
            match self.editing_tenant_id {
                Some(id) => r == Ok::<i64, String>(id),
                None => r matches Err(m) && m@ == "No tenant is selected for editing."@,
            },
    {
        match self.editing_tenant_id {
            Some(id) => Ok(id),
            None => Err(owned("No tenant is selected for editing.")),
        }
    }

    /// After the database was asked to save `tenant` as the tenant `id`.
    pub fn tenant_updated(&mut self, id: i64, tenant: &NewTenant, result: Result<bool, String>) -> (out:
        TenantOutcome)
        ensures
            lists_kept(*old(self), *final(self)),
            tenant_requests_kept(*old(self), *final(self)),
            match result {
                Ok(true) => {
                    &&& form_reset(*old(self), *final(self))
                    &&& final(self).error_message == old(self).error_message
                    &&& out.data_changed
                    &&& out.status@ == "Updated "@ + trim(full_name(tenant.first_name@, tenant.last_name@))
                },
                Ok(false) => {
                    &&& final(self).form == old(self).form
                    &&& final(self).editing_tenant_id == old(self).editing_tenant_id
                    &&& !out.data_changed
                    &&& out.status@ == "Tenant ID "@ + int_text(id as int) + " no longer exists."@
                    &&& final(self).error_message matches Some(m) && m@ == out.status@
                },
                Err(e) => {
                    &&& final(self).form == old(self).form
                    &&& final(self).editing_tenant_id == old(self).editing_tenant_id
                    &&& !out.data_changed
                    &&& out.status@ == unable_message(
                        "update "@ + trim(full_name(tenant.first_name@, tenant.last_name@)),
                        e@,
                    )
                    &&& final(self).error_message matches Some(m) && m@ == out.status@
                },
            },
    {
        let name = new_tenant_display_name(tenant);
        match result {
            Ok(true) => {
                self.reset_form();
                TenantOutcome { status: join2("Updated ", name.as_str()), data_changed: true }
            },
            Ok(false) => {
                let mut out = chars_of("Tenant ID ");
                push_int(&mut out, id);
                append_str(&mut out, " no longer exists.");
                let status = self.set_error(string_of(&out));
                TenantOutcome { status, data_changed: false }
            },
            Err(e) => {
                let what = join2("update ", name.as_str());
                let status = self.set_error(unable(what.as_str(), e.as_str()));
                TenantOutcome { status, data_changed: false }
            },
        }
    }

    /// The user asked to archive the listed tenant at `index`.
    pub fn request_archive(&mut self, index: usize)
        requires
            index < old(self).tenants@.len(),
        ensures
            final(self).pending_archive matches Some(p) && p.id == old(self).tenants@[index as int].id
                && p.display_name@ == trim(
                full_name(
                    old(self).tenants@[index as int].first_name@,
                    old(self).tenants@[index as int].last_name@,
                ),
            ),
            final(self).form == old(self).form,
            final(self).editing_tenant_id == old(self).editing_tenant_id,
            final(self).pending_delete == old(self).pending_delete,
            final(self).error_message == old(self).error_message,
            lists_kept(*old(self), *final(self)),
    {
        let name = tenant_display_name(&self.tenants[index]);
        self.pending_archive = Some(PendingTenant { id: self.tenants[index].id, display_name: name });
    }

    /// The user asked to delete the listed tenant at `index`.
    pub fn request_delete(&mut self, index: usize)
        requires
            index < old(self).tenants@.len(),
        ensures
            final(self).pending_delete matches Some(p) && p.id == old(self).tenants@[index as int].id
                && p.display_name@ == trim(
                full_name(
                    old(self).tenants@[index as int].first_name@,
                    old(self).tenants@[index as int].last_name@,
                ),
            ),
            final(self).form == old(self).form,
            final(self).editing_tenant_id == old(self).editing_tenant_id,
            final(self).pending_archive == old(self).pending_archive,
            final(self).error_message == old(self).error_message,
            lists_kept(*old(self), *final(self)),
    {
        let name = tenant_display_name(&self.tenants[index]);
        self.pending_delete = Some(PendingTenant { id: self.tenants[index].id, display_name: name });
    }

    pub fn cancel_archive(&mut self) -> (status: String)
        ensures
            final(self).pending_archive is None,
            final(self).form == old(self).form,
            final(self).editing_tenant_id == old(self).editing_tenant_id,
            final(self).pending_delete == old(self).pending_delete,
            final(self).error_message == old(self).error_message,
            lists_kept(*old(self), *final(self)),
            status@ == "Tenant archive canceled"@,
    {
        self.pending_archive = None;
        owned("Tenant archive canceled")
    }

    pub fn cancel_delete(&mut self) -> (status: String)
        ensures
            final(self).pending_delete is None,
            final(self).form == old(self).form,
            final(self).editing_tenant_id == old(self).editing_tenant_id,
            final(self).pending_archive == old(self).pending_archive,
            final(self).error_message == old(self).error_message,
            lists_kept(*old(self), *final(self)),
            status@ == "Tenant deletion canceled"@,
    {
        self.pending_delete = None;
        owned("Tenant deletion canceled")
    }

    /// After the database was asked to archive the pending tenant.
    pub fn archive_finished(&mut self, pending: &PendingTenant, result: Result<bool, String>) -> (out:
        TenantOutcome)
        ensures
            lists_kept(*old(self), *final(self)),
            final(self).pending_archive is None,
            final(self).pending_delete == old(self).pending_delete,
            match result {
                Ok(true) => {
                    &&& (old(self).editing_tenant_id == Some(pending.id) ==> form_reset(
                        *old(self),
                        *final(self),
                    ))
                    &&& (old(self).editing_tenant_id != Some(pending.id) ==> final(self).form
                        == old(self).form && final(self).editing_tenant_id
                        == old(self).editing_tenant_id)
                    &&& final(self).error_message is None
                    &&& out.data_changed
                    &&& out.status@ == "Archived "@ + pending.display_name@
                },
                Ok(false) => {
                    &&& final(self).form == old(self).form
                    &&& final(self).editing_tenant_id == old(self).editing_tenant_id
                    &&& !out.data_changed
                    &&& out.status@ == pending.display_name@
                        + " is already archived or no longer exists."@
                    &&& final(self).error_message matches Some(m) && m@ == out.status@
                },
                Err(e) => {
                    &&& final(self).form == old(self).form
                    &&& final(self).editing_tenant_id == old(self).editing_tenant_id
                    &&& !out.data_changed
                    &&& out.status@ == unable_message("archive "@ + pending.display_name@, e@)
                    &&& final(self).error_message matches Some(m) && m@ == out.status@
                },
            },
    {
        self.pending_archive = None;
        match result {
            Ok(true) => {
                if self.editing_tenant_id == Some(pending.id) {
                    self.reset_form();
                }
                self.error_message = None;
                TenantOutcome {
                    status: join2("Archived ", pending.display_name.as_str()),
                    data_changed: true,
                }
            },
            Ok(false) => {
                let message = join2(pending.display_name.as_str(), " is already archived or no longer exists.");
                let status = self.set_error(message);
                TenantOutcome { status, data_changed: false }
            },
            Err(e) => {
                let what = join2("archive ", pending.display_name.as_str());
                let status = self.set_error(unable(what.as_str(), e.as_str()));
                TenantOutcome { status, data_changed: false }
            },
        }
    }

    /// After the database was asked to delete the pending tenant.
    pub fn delete_finished(&mut self, pending: &PendingTenant, result: Result<bool, String>) -> (out:
        TenantOutcome)
        ensures
            lists_kept(*old(self), *final(self)),
            final(self).pending_delete is None,
            final(self).pending_archive == old(self).pending_archive,
            match result {
                Ok(true) => {
                    &&& (old(self).editing_tenant_id == Some(pending.id) ==> form_reset(
                        *old(self),
                        *final(self),
                    ))
                    &&& (old(self).editing_tenant_id != Some(pending.id) ==> final(self).form
                        == old(self).form && final(self).editing_tenant_id
                        == old(self).editing_tenant_id)
                    &&& final(self).error_message is None
                    &&& out.data_changed
                    &&& out.status@ == "Deleted "@ + pending.display_name@
                },
                Ok(false) => {
                    &&& final(self).form == old(self).form
                    &&& final(self).editing_tenant_id == old(self).editing_tenant_id
                    &&& !out.data_changed
                    &&& out.status@ == pending.display_name@ + " no longer exists."@
                    &&& final(self).error_message matches Some(m) && m@ == out.status@
                },
                Err(e) => {
                    &&& final(self).form == old(self).form
                    &&& final(self).editing_tenant_id == old(self).editing_tenant_id
                    &&& !out.data_changed
                    &&& out.status@ == unable_message("delete "@ + pending.display_name@, e@)
                    &&& final(self).error_message matches Some(m) && m@ == out.status@
                },
            },
    {
        self.pending_delete = None;
        match result {
            Ok(true) => {
                if self.editing_tenant_id == Some(pending.id) {
                    self.reset_form();
                }
                self.error_message = None;
                TenantOutcome {
                    status: join2("Deleted ", pending.display_name.as_str()),
                    data_changed: true,
                }
            },
            Ok(false) => {
                let message = join2(pending.display_name.as_str(), " no longer exists.");
                let status = self.set_error(message);
                TenantOutcome { status, data_changed: false }
            },
            Err(e) => {
                let what = join2("delete ", pending.display_name.as_str());
                let status = self.set_error(unable(what.as_str(), e.as_str()));
                TenantOutcome { status, data_changed: false }
            },
        }
    }

    /// After the database was asked to restore the archived tenant `name`.
    pub fn restore_finished(&mut self, name: &str, result: Result<bool, String>) -> (out: TenantOutcome)
        ensures
            lists_kept(*old(self), *final(self)),
            tenant_requests_kept(*old(self), *final(self)),
            final(self).form == old(self).form,
            final(self).editing_tenant_id == old(self).editing_tenant_id,
            match result {
                Ok(true) => {
                    &&& final(self).error_message is None
                    &&& out.data_changed
                    &&& out.status@ == "Restored "@ + name@
                },
                Ok(false) => {
                    &&& !out.data_changed
                    &&& out.status@ == name@ + " is not archived or no longer exists."@
                    &&& final(self).error_message matches Some(m) && m@ == out.status@
                },
                Err(e) => {
                    &&& !out.data_changed
                    &&& out.status@ == unable_message("restore "@ + name@, e@)
                    &&& final(self).error_message matches Some(m) && m@ == out.status@
                },
            },
    {
        match result {
            Ok(true) => {
                self.error_message = None;
                TenantOutcome { status: join2("Restored ", name), data_changed: true }
            },
            Ok(false) => {
                let status = self.set_error(
                    join2(name, " is not archived or no longer exists."),
                );
                TenantOutcome { status, data_changed: false }
            },
            Err(e) => {
                let what = join2("restore ", name);
                let status = self.set_error(unable(what.as_str(), e.as_str()));
                TenantOutcome { status, data_changed: false }
            },
        }
    }

    /// Loading the lists failed.
    pub fn load_failed(&mut self, what: &str, error: &str) -> (status: String)
        ensures
            final(self).loaded,
            final(self).tenants == old(self).tenants,
            final(self).archived_tenants == old(self).archived_tenants,
            final(self).form == old(self).form,
            final(self).editing_tenant_id == old(self).editing_tenant_id,
            tenant_requests_kept(*old(self), *final(self)),
            status@ == unable_message("load "@ + what@, error@),
            final(self).error_message matches Some(m) && m@ == status@,
    {
        self.loaded = true;
        let what_full = join2("load ", what);
        let message = unable(what_full.as_str(), error);
        self.set_error(message)
    }

    /// The lists were loaded.
    pub fn loaded_with(&mut self, tenants: Vec<Tenant>, archived_tenants: Vec<Tenant>)
        ensures
            final(self).tenants == tenants,
            final(self).archived_tenants == archived_tenants,
            final(self).loaded,
            final(self).error_message is None,
            final(self).form == old(self).form,
            final(self).editing_tenant_id == old(self).editing_tenant_id,
            final(self).pending_archive == old(self).pending_archive,
            final(self).pending_delete == old(self).pending_delete,
    {
        self.tenants = tenants;
        self.archived_tenants = archived_tenants;
        self.loaded = true;
        self.error_message = None;
    }
}

/// The form's email rule: an accepted tenant's email address is either
/// empty or holds an `@` between its first and last characters, which are
/// not `@`; an address without `@` is always refused; and with both names
/// filled in, every address of the first kind is accepted.
pub proof fn lemma_accepted_email_has_at(f: TenantForm)
    ensures
        tenant_from_form(f) is Ok ==> ({
            let email = tenant_from_form(f)->Ok_0.3;
            email.len() > 0 ==> {
                &&& exists|i: int| 0 < i < email.len() - 1 && email[i] == '@'
                &&& email[0] != '@'
                &&& email[email.len() - 1] != '@'
            }
        }),
        trim(f.first_name@).len() > 0 && trim(f.last_name@).len() > 0 && (trim(f.email@).len()
            == 0 || (trim(f.email@).contains('@') && trim(f.email@)[0] != '@'
            && trim(f.email@).last() != '@')) ==> tenant_from_form(f) is Ok,
        trim(f.email@).len() > 0 && !trim(f.email@).contains('@') ==> tenant_from_form(f) is Err,
{
    let e = trim(f.email@);
    if tenant_from_form(f) is Ok && e.len() > 0 {
        assert(e.contains('@'));
        let i = choose|i: int| 0 <= i < e.len() && e[i] == '@';
        assert(e[0] != '@');
        assert(e.last() != '@');
        assert(0 < i < e.len() - 1);
    }
}

/// A tenant accepted from the form has its names and email address
/// trimmed, so submitting it again gives the same tenant.
pub proof fn lemma_tenant_form_settles(f: TenantForm, g: TenantForm)
    requires
        tenant_from_form(f) is Ok,
        g.first_name@ == tenant_from_form(f)->Ok_0.0,
        g.last_name@ == tenant_from_form(f)->Ok_0.1,
        g.phone@ == tenant_from_form(f)->Ok_0.2,
        g.email@ == tenant_from_form(f)->Ok_0.3,
        g.active == tenant_from_form(f)->Ok_0.4,
        g.notes@ == tenant_from_form(f)->Ok_0.5,
    ensures
        tenant_from_form(g) == tenant_from_form(f),
{
    crate::text::lemma_trim_idempotent(f.first_name@);
    crate::text::lemma_trim_idempotent(f.last_name@);
    crate::text::lemma_trim_idempotent(f.phone@);
    crate::text::lemma_trim_idempotent(f.email@);
    crate::text::lemma_trim_idempotent(f.notes@);
}

} // verus!
