//! What the whole application shares besides the settings and the
//! database: the status line, and a revision number that changes whenever
//! the stored data does, so that pages know when to load again.
use vstd::prelude::*;

verus! {

pub struct Session {
    pub status_message: String,
    pub data_revision: u64,
}

/// The revision after `r`: one more, wrapping around at the largest `u64`.
pub open spec fn next_revision(r: u64) -> u64 {
    if r == u64::MAX { 0 } else { (r + 1) as u64 }
}

impl Session {
    /// A session starting at revision 0 with the status `status_message`.
    pub fn new(status_message: String) -> (s: Session)
        ensures
            s.status_message == status_message,
            s.data_revision == 0,
    {
        Session { status_message, data_revision: 0 }
    }

    pub fn status_message(&self) -> (s: &str)
        ensures
            s@ == self.status_message@,
    {
        self.status_message.as_str()
    }

    pub fn set_status_message(&mut self, message: String)
        ensures
            final(self).status_message == message,
            final(self).data_revision == old(self).data_revision,
    {
        self.status_message = message;
    }

    pub fn data_revision(&self) -> (r: u64)
        ensures
            r == self.data_revision,
    {
        self.data_revision
    }

    /// Records that the stored data changed.
    pub fn mark_data_changed(&mut self)
        ensures
            final(self).data_revision == next_revision(old(self).data_revision),
            final(self).status_message == old(self).status_message,
    {
        self.data_revision = self.data_revision.wrapping_add(1);
    }
}

/// Marking the data changed always gives a revision other than the one
/// before, so a page that loaded at the old revision loads again.
pub proof fn lemma_change_is_seen(r: u64)
    ensures
        next_revision(r) != r,
{
}

} // verus!
