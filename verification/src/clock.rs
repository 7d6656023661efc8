//! The per-run service log file name, derived from the local wall clock.

use vstd::prelude::*;
use crate::DirsError;
use crate::paths::joined_result;
use crate::resolver::{Resolver, spec_service_log_dir, spec_app_home_dir};

verus! {

/// An ASCII decimal digit.
pub open spec fn is_digit(c: char) -> bool {
    '0' <= c && c <= '9'
}

/// The shape of a local timestamp rendered as `YYYY-MM-DD-HHMM`: month,
/// day, hour and minute are two digits each at fixed offsets from the end,
/// separated by dashes, and the leading year is at least four characters,
/// all digits apart from a possible leading sign. A four-character year
/// (every year from 0 through 9999) is all digits, giving exactly the
/// fifteen-character `YYYY-MM-DD-HHMM` form.
pub open spec fn is_stamp(s: Seq<char>) -> bool {
    let n = s.len() as int;
    &&& n >= 15
    &&& s[n - 11] == '-' && s[n - 8] == '-' && s[n - 5] == '-'
    &&& is_digit(s[n - 10]) && is_digit(s[n - 9])
    &&& is_digit(s[n - 7]) && is_digit(s[n - 6])
    &&& is_digit(s[n - 4]) && is_digit(s[n - 3]) && is_digit(s[n - 2]) && is_digit(s[n - 1])
    &&& forall|i: int| 1 <= i < n - 11 ==> is_digit(s[i])
    &&& is_digit(s[0]) || s[0] == '+' || s[0] == '-'
    &&& n == 15 ==> is_digit(s[0])
}

/// Relies on chrono's `Local::now` and its strftime-style formatting with
/// `%Y-%m-%d-%H%M`: `%m`, `%d`, `%H` and `%M` are zero-padded to two
/// digits, and `%Y` is the year zero-padded to four digits, with a leading
/// sign for years outside 0..=9999. The value itself depends on the clock
/// and time zone, so only the shape is stated.
#[verifier::external_body]
fn now_stamp() -> (r: String)
    ensures
        is_stamp(r@),
{
    chrono::Local::now().format("%Y-%m-%d-%H%M").to_string()
}

impl Resolver {
    /// `<home>/logs/service/<now>.log`: the log file for a service run
    /// started now, named after the current local time as
    /// `YYYY-MM-DD-HHMM`. Fails exactly when the home directory does, with
    /// the same error. This computes the path only; hosts create the
    /// `service` directory best-effort before writing, and a creation
    /// failure is deliberately tolerated since the returned path is still
    /// usable.
    pub fn service_log_file(&self) -> (r: Result<String, DirsError>)
        ensures
            r matches Ok(p) ==> exists|st: Seq<char>|
                #[trigger] is_stamp(st) && (joined_result(spec_service_log_dir(self@), st + ".log"@)
                    matches Ok(q) && p@ == q),
            r matches Err(e) ==> spec_app_home_dir(self@) == Err::<Seq<char>, DirsError>(e),
    {
        let stamp = now_stamp();
        let r = self.service_log_file_at(stamp.as_str());
        proof {
            if r is Ok {
                let p = r->Ok_0;
                assert(is_stamp(stamp@) && (joined_result(
                    spec_service_log_dir(self@),
                    stamp@ + ".log"@,
                ) matches Ok(q) && p@ == q));
            }
        }
        r
    }
}

} // verus!
