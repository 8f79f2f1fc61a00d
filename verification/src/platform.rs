//! The library's contact with the clock, the random-id generator and the
//! path grammar of the host: each call is a small trusted item whose
//! contract says only what holds of every outcome.
use vstd::prelude::*;

verus! {

#[verifier::external_type_specification]
#[verifier::external_body]
pub struct ExSystemTime(std::time::SystemTime);

#[verifier::external_type_specification]
#[verifier::external_body]
pub struct ExSystemTimeError(std::time::SystemTimeError);

/// `std::time::SystemTime::now`: the current wall-clock time. Nothing is
/// claimed of the value.
#[verifier::external_body]
fn system_time_now() -> std::time::SystemTime {
    std::time::SystemTime::now()
}

/// `std::time::SystemTime::duration_since(UNIX_EPOCH)`: the time elapsed
/// since the Unix epoch, or an error when the clock reads earlier than it.
/// Nothing is claimed of the value.
#[verifier::external_body]
fn since_unix_epoch(t: &std::time::SystemTime) -> Result<
    std::time::Duration,
    std::time::SystemTimeError,
> {
    t.duration_since(std::time::UNIX_EPOCH)
}

/// `std::time::Duration::as_millis`: the whole milliseconds of a duration.
/// Nothing is claimed of the value, since the library holds no model of a
/// duration.
#[verifier::external_body]
fn duration_millis(d: &std::time::Duration) -> u128 {
    d.as_millis()
}

/// The millisecond count the store records for a clock reading `ms`
/// (milliseconds since the Unix epoch, `None` when the clock reads earlier
/// than the epoch): the reading truncated to 64 bits, or 0.
pub fn millis_since_epoch(ms: Option<u128>) -> (r: u64)
    ensures
        r == match ms {
            Some(m) => m as u64,
            None => 0,
        },
{
    match ms {
        Some(m) => {
            #[verifier::truncate]
            (m as u64)
        },
        None => 0,
    }
}

/// Milliseconds since the Unix epoch, truncated to 64 bits; 0 when the clock
/// reads earlier than the epoch (see `millis_since_epoch`). Which reading
/// comes back is the clock's.
pub fn now_millis() -> u64 {
    let t = system_time_now();
    let reading = match since_unix_epoch(&t) {
        Ok(d) => Some(duration_millis(&d)),
        Err(_) => None,
    };
    millis_since_epoch(reading)
}

/// A lower-case hexadecimal digit.
pub open spec fn is_lower_hex(c: char) -> bool {
    ('0' <= c && c <= '9') || ('a' <= c && c <= 'f')
}

/// The text of a version-4 UUID in hyphenated lower-case form: 36
/// characters, hyphens at 8, 13, 18 and 23, hexadecimal digits elsewhere,
/// the version digit `4` at 14 and the variant digit (`8`, `9`, `a` or `b`)
/// at 19.
pub open spec fn is_v4_uuid(s: Seq<char>) -> bool {
    &&& s.len() == 36
    &&& forall|i: int|
        0 <= i < 36 ==> if i == 8 || i == 13 || i == 18 || i == 23 {
            #[trigger] s[i] == '-'
        } else {
            is_lower_hex(s[i])
        }
    &&& s[14] == '4'
    &&& (s[19] == '8' || s[19] == '9' || s[19] == 'a' || s[19] == 'b')
}

/// `uuid::Uuid::new_v4` rendered through its `Display` impl: a random
/// version-4 UUID in the 36-character hyphenated lower-case form
/// (`xxxxxxxx-xxxx-4xxx-yxxx-xxxxxxxxxxxx`). The contract claims that
/// shape; which value comes back is chance. (The crate panics when the
/// operating system's random source fails.)
#[verifier::external_body]
pub(crate) fn new_workspace_id() -> (id: String)
    ensures
        is_v4_uuid(id@),
{
    uuid::Uuid::new_v4().to_string()
}

} // verus!
