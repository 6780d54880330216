//! The timestamp that names each backup folder.
use vstd::prelude::*;

verus! {

/// Distance from the epoch, in seconds, within which every naive time can be
/// written as a date (about 253,000 years each way).
pub const STAMP_LIMIT: i64 = 8_000_000_000_000;

/// The text that `%Y%m%d_%H%M%S` gives for the naive time `t`.
pub uninterp spec fn stamp_of(t: int) -> Seq<char>;

/// Relies on chrono's `DateTime::from_timestamp` and `format`: the naive time
/// `t` written as `%Y%m%d_%H%M%S`. `from_timestamp` fails only outside
/// chrono's dates, which reach past year 262000 on both sides of the epoch.
#[verifier::external_body]
fn stamp_at(t: i64) -> (r: Option<String>)
    ensures
        r matches Some(s) ==> s@ == stamp_of(t as int),
        -STAMP_LIMIT <= t <= STAMP_LIMIT ==> r is Some,
{
    match chrono::DateTime::from_timestamp(t, 0) {
        Some(d) => Some(d.format("%Y%m%d_%H%M%S").to_string()),
        None => None,
    }
}

/// The name of the folder that a backup taken at `stamp` goes to.
pub fn backup_folder_name(stamp: &str) -> (r: String)
    ensures
        r@ == "backup_"@ + stamp@,
{
    proof {
        reveal_strlit("backup_");
    }
    let mut out = String::from_str("backup_");
    out.append(stamp);
    out
}

/// The name of the folder for a backup taken at the naive time `t`; `None`
/// where the time cannot be written as a date.
pub fn backup_folder_name_at(t: i64) -> (r: Option<String>)
    ensures
        r matches Some(s) ==> s@ == "backup_"@ + stamp_of(t as int),
        -STAMP_LIMIT <= t <= STAMP_LIMIT ==> r is Some,
{
    match stamp_at(t) {
        Some(s) => Some(backup_folder_name(s.as_str())),
        None => None,
    }
}

} // verus!
