//! The one place the library asks for the current time.

use vstd::prelude::*;

verus! {

/// Relies on chrono's `Utc::now` and `DateTime::format`: the current UTC
/// time rendered as day/month/year, hour:minute:second. The result depends
/// on the wall clock, so nothing is promised of it.
#[verifier::external_body]
pub(crate) fn current_timestamp() -> String {
    chrono::Utc::now().format("%d/%m/%Y, %H:%M:%S").to_string()
}

} // verus!
