//! The exported credential records.
use vstd::prelude::*;

verus! {

/// One exported credential record, as read from the export document.
pub struct Entry {
    pub username: String,
    pub label_name: String,
    /// The shared secret, Base32-encoded.
    pub secret: String,
    /// The hash algorithm's name, in any casing.
    pub algorithm: String,
    pub digits: u32,
    /// The time step, in seconds.
    pub period_time: u64,
}

/// The whole export document. `total_entries` is advisory: the records are
/// those in `entries`.
pub struct Export {
    pub export_time: String,
    pub total_entries: u32,
    pub entries: Vec<Entry>,
}

impl Entry {
    pub fn new(
        username: String,
        label_name: String,
        secret: String,
        algorithm: String,
        digits: u32,
        period_time: u64,
    ) -> (r: Entry)
        ensures
            r.username@ == username@,
            r.label_name@ == label_name@,
            r.secret@ == secret@,
            r.algorithm@ == algorithm@,
            r.digits == digits,
            r.period_time == period_time,
    {
        Entry { username, label_name, secret, algorithm, digits, period_time }
    }
}

} // verus!
