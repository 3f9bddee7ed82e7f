//! Identifiers, pairing codes and timestamps.

use vstd::prelude::*;
use crate::text::{upper_of, uppercase};

verus! {

#[verifier::external_type_specification]
#[verifier::external_body]
pub struct ExSystemTime(std::time::SystemTime);

/// A lowercase hexadecimal digit.
pub open spec fn is_lower_hex(c: char) -> bool {
    ('0' <= c && c <= '9') || ('a' <= c && c <= 'f')
}

/// The hyphenated text of a UUID: 36 characters, hyphens at 8, 13, 18 and
/// 23, lowercase hexadecimal digits elsewhere.
pub open spec fn is_uuid_text(s: Seq<char>) -> bool {
    &&& s.len() == 36
    &&& forall|i: int|
        0 <= i < 36 ==> if i == 8 || i == 13 || i == 18 || i == 23 {
            #[trigger] s[i] == '-'
        } else {
            is_lower_hex(s[i])
        }
}

/// Relies on `uuid::Uuid::new_v4` and its `Display`, which writes the
/// hyphenated lowercase form.
#[verifier::external_body]
fn random_uuid_text() -> (r: String)
    ensures
        is_uuid_text(r@),
{
    uuid::Uuid::new_v4().to_string()
}

/// Relies on `std::time::SystemTime::now`: the current system time.
#[verifier::external_body]
fn system_now() -> (r: std::time::SystemTime) {
    std::time::SystemTime::now()
}

/// Relies on `SystemTime::duration_since` with the Unix epoch: the whole
/// milliseconds since the epoch, or none for a time before it.
#[verifier::external_body]
fn millis_since_epoch(t: &std::time::SystemTime) -> (r: Option<u128>) {
    t.duration_since(std::time::UNIX_EPOCH).ok().map(|d| d.as_millis())
}

/// A fresh random identifier for a catalog row.
pub fn new_database_id() -> (r: String)
    ensures
        is_uuid_text(r@),
{
    random_uuid_text()
}

/// The number of characters of a pairing code.
pub const PAIRING_CODE_LEN: usize = 6;

/// The first `k` characters of `s`, or all of it when it is shorter.
pub open spec fn prefix_of(s: Seq<char>, k: nat) -> Seq<char> {
    if s.len() <= k {
        s
    } else {
        s.subrange(0, k as int)
    }
}

/// The pairing code drawn from a UUID's text: its first six characters,
/// upper-cased.
pub open spec fn pairing_code_of(uuid_text: Seq<char>) -> Seq<char> {
    upper_of(prefix_of(uuid_text, PAIRING_CODE_LEN as nat))
}

/// The first `k` characters of `s`, or all of it when it is shorter.
pub fn prefix_text(s: &str, k: usize) -> (r: &str)
    ensures
        r@ == prefix_of(s@, k as nat),
{
    let n = s.unicode_len();
    if n <= k {
        proof {
            assert(s@.subrange(0, n as int) =~= s@);
        }
        s.substring_char(0, n)
    } else {
        s.substring_char(0, k)
    }
}

/// Derives a pairing code from the text of a UUID.
pub fn pairing_code_from_uuid_text(uuid_text: &str) -> (r: String)
    ensures
        r@ == pairing_code_of(uuid_text@),
{
    uppercase(prefix_text(uuid_text, PAIRING_CODE_LEN))
}

/// A fresh pairing code, drawn from a random UUID.
pub fn generate_pairing_code() -> (r: String)
    ensures
        exists|t: Seq<char>| is_uuid_text(t) && r@ == pairing_code_of(t),
{
    let t = random_uuid_text();
    pairing_code_from_uuid_text(t.as_str())
}

/// The timestamp for whole milliseconds since the epoch: none gives zero, and
/// a count past `i64::MAX` wraps as the cast does.
pub open spec fn timestamp_of(millis: Option<u128>) -> i64 {
    match millis {
        Some(m) => m as i64,
        None => 0,
    }
}

/// Converts milliseconds since the epoch into a catalog timestamp.
pub fn timestamp_from_millis(millis: Option<u128>) -> (r: i64)
    ensures
        r == timestamp_of(millis),
{
    match millis {
        Some(m) => {
            #[verifier::truncate]
            let t = m as i64;
            t
        },
        None => 0,
    }
}

/// The current time in milliseconds since the epoch, or zero when the clock
/// reads before it. The clock decides the value, so nothing more is promised
/// of it than `timestamp_from_millis` states of each reading.
pub fn chrono_timestamp() -> i64 {
    let now = system_now();
    let m = millis_since_epoch(&now);
    timestamp_from_millis(m)
}

} // verus!
