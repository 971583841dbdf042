//! The library's one outside call: the local wall-clock timestamp used in
//! screenshot filenames.

use vstd::prelude::*;

verus! {

/// Relies on chrono (`Local::now` formatted with `%Y%m%d_%H%M%S`): a
/// year-to-second stamp of the local time now.  The clock decides the
/// value, so nothing is promised of it; the screenshot planning takes the
/// stamp as an argument and is verified for every value of it.  On a
/// host clock before the Unix epoch or outside chrono's representable
/// range the underlying call aborts the process.
#[verifier::external_body]
pub(crate) fn local_timestamp() -> String {
    chrono::Local::now().format("%Y%m%d_%H%M%S").to_string()
}

} // verus!
