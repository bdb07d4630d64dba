//! The reports page: occupancy, operations and money totals.
use vstd::prelude::*;
use crate::models::ReportSummary;
use crate::pages::{unable, unable_message};
use crate::text::{append_str, chars_of, int_text, owned, push_int, string_of};

verus! {

/// The reports page.
pub struct ReportsPage {
    pub summary: Option<ReportSummary>,
    pub loaded: bool,
    pub data_revision_seen: u64,
    pub error_message: Option<String>,
}

impl Default for ReportsPage {
    fn default() -> (p: Self)
        ensures
            p.summary is None,
            !p.loaded,
            p.data_revision_seen == 0,
            p.error_message is None,
    {
        ReportsPage { summary: None, loaded: false, data_revision_seen: 0, error_message: None }
    }
}

/// What the operations section says about active rentals and occupied
/// units: whether they agree, and the sentence shown.
pub open spec fn operations_note_text(s: ReportSummary) -> Seq<char> {
    if s.active_rentals == s.occupied_units {
        "🟢 Active rentals match occupied units."@
    } else {
        "🔴 Data mismatch: "@ + int_text(s.occupied_units as int) + " occupied units but "@ + int_text(
            s.active_rentals as int,
        ) + " active rentals."@
    }
}

pub fn operations_note(summary: &ReportSummary) -> (r: (bool, String))
    ensures
        r.0 == (summary.active_rentals == summary.occupied_units),
        r.1@ == operations_note_text(*summary),
{
    if summary.rentals_match_occupancy() {
        (true, owned("🟢 Active rentals match occupied units."))
    } else {
        let mut out = chars_of("🔴 Data mismatch: ");
        push_int(&mut out, summary.occupied_units);
        append_str(&mut out, " occupied units but ");
        push_int(&mut out, summary.active_rentals);
        append_str(&mut out, " active rentals.");
        (false, string_of(&out))
    }
}

impl ReportsPage {
    /// The summary is loaded again when it never was or the data changed.
    pub fn needs_refresh(&self, data_revision: u64) -> (b: bool)
        ensures
            b == (!self.loaded || self.data_revision_seen != data_revision),
    {
        !self.loaded || self.data_revision_seen != data_revision
    }

    /// The summary was loaded while the data was at `data_revision`.
    pub fn loaded_with(&mut self, summary: ReportSummary, data_revision: u64)
        ensures
            final(self).summary == Some(summary),
            final(self).loaded,
            final(self).data_revision_seen == data_revision,
            final(self).error_message is None,
    {
        self.summary = Some(summary);
        self.loaded = true;
        self.data_revision_seen = data_revision;
        self.error_message = None;
    }

    /// Loading the summary failed: no summary is shown, only why.
    pub fn load_failed(&mut self, error: &str) -> (status: String)
        ensures
            final(self).summary is None,
            final(self).loaded,
            final(self).data_revision_seen == old(self).data_revision_seen,
            status@ == unable_message("load report summary"@, error@),
            final(self).error_message matches Some(m) && m@ == status@,
    {
        self.summary = None;
        self.loaded = true;
        let message = unable("load report summary", error);
        let status = message.clone();
        self.error_message = Some(message);
        status
    }
}

} // verus!
