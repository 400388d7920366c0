//! What the finance service reports about itself.

use vstd::prelude::*;
use crate::text::opt_view;

verus! {

/// The state of the finance service, as its health page shows it.
#[derive(Debug)]
pub struct FinanceHealth {
    pub status: String,
    pub connection_status: String,
    pub batch_number: u64,
    pub error_count: u64,
    pub last_error: Option<String>,
}

/// A copy of a text that may be missing.
pub fn copy_text(text: &Option<String>) -> (r: Option<String>)
    ensures
        r == *text,
{
    match text {
        Some(t) => Some(t.clone()),
        None => None,
    }
}

impl FinanceHealth {
    /// Healthy and not connected yet.
    pub fn new() -> (r: Self)
        ensures
            r.status@ == "healthy"@,
            r.connection_status@ == "disconnected"@,
            r.batch_number == 0,
            r.error_count == 0,
            r.last_error is None,
    {
        FinanceHealth {
            status: "healthy".to_owned(),
            connection_status: "disconnected".to_owned(),
            batch_number: 0,
            error_count: 0,
            last_error: None,
        }
    }

    /// Replaces all but the status.
    pub fn update_health(
        &mut self,
        connection_status: String,
        batch_number: u64,
        error_count: u64,
        last_error: Option<String>,
    )
        ensures
            final(self).status == old(self).status,
            final(self).connection_status == connection_status,
            final(self).batch_number == batch_number,
            final(self).error_count == error_count,
            final(self).last_error == last_error,
    {
        self.connection_status = connection_status;
        self.batch_number = batch_number;
        self.error_count = error_count;
        self.last_error = last_error;
    }

    /// A copy to report.
    pub fn get_health(&self) -> (r: Self)
        ensures
            r == *self,
            r.status@ == self.status@,
            r.connection_status@ == self.connection_status@,
            opt_view(r.last_error) == opt_view(self.last_error),
    {
        FinanceHealth {
            status: self.status.clone(),
            connection_status: self.connection_status.clone(),
            batch_number: self.batch_number,
            error_count: self.error_count,
            last_error: copy_text(&self.last_error),
        }
    }
}

} // verus!
