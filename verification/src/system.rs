//! Values the library obtains from the machine: the processor count, fresh
//! entry ids and the local time, with what holds of every outcome.

use vstd::prelude::*;

verus! {

/// Whether `c` is a lowercase hexadecimal digit.
pub open spec fn is_lower_hex(c: char) -> bool {
    (48 <= (c as u32) <= 57) || (97 <= (c as u32) <= 102)
}

/// The hyphenated lowercase text form of a UUID
/// (`xxxxxxxx-xxxx-xxxx-xxxx-xxxxxxxxxxxx`).
pub open spec fn is_hyphenated_uuid(s: Seq<char>) -> bool {
    &&& s.len() == 36
    &&& forall|i: int|
        0 <= i < 36 ==> if i == 8 || i == 13 || i == 18 || i == 23 {
            s[i] == '-'
        } else {
            is_lower_hex(#[trigger] s[i])
        }
}

/// `num_cpus::get()`: the number of logical CPUs available to this process
/// (cgroup quota and affinity taken into account). The crate documents, and
/// its source ensures, that the result is at least 1; the value itself
/// depends on the machine and is not stated.
#[verifier::external_body]
pub(crate) fn available_cpus() -> (n: usize)
    ensures
        n >= 1,
{
    num_cpus::get()
}

/// `uuid::Uuid::new_v4().to_string()`: a random version-4 UUID in its
/// `Display` form, which the crate's source writes as 36 characters,
/// lowercase hexadecimal digits with hyphens at positions 8, 13, 18 and 23.
/// Which UUID comes back is random and is not stated.
#[verifier::external_body]
pub(crate) fn new_entry_id() -> (s: String)
    ensures
        is_hyphenated_uuid(s@),
{
    uuid::Uuid::new_v4().to_string()
}

/// An ASCII digit.
pub open spec fn is_digit_char(c: char) -> bool {
    '0' <= c && c <= '9'
}

/// The shape of a "YYYY-MM-DD HH:MM" stamp: a year of at least four digits
/// (with a '+' before years past 9999), then two-digit month, day, hour and
/// minute separated by '-', '-', ' ' and ':'.
pub open spec fn is_minute_stamp(s: Seq<char>) -> bool {
    let n = s.len();
    &&& n >= 16
    &&& forall|i: int|
        0 <= i < n - 12 ==> is_digit_char(#[trigger] s[i]) || (i == 0 && s[i] == '+')
    &&& s[n - 12] == '-' && s[n - 9] == '-' && s[n - 6] == ' ' && s[n - 3] == ':'
    &&& is_digit_char(s[n - 11]) && is_digit_char(s[n - 10])
    &&& is_digit_char(s[n - 8]) && is_digit_char(s[n - 7])
    &&& is_digit_char(s[n - 5]) && is_digit_char(s[n - 4])
    &&& is_digit_char(s[n - 2]) && is_digit_char(s[n - 1])
}

/// `chrono::Local::now().format("%Y-%m-%d %H:%M").to_string()`: the current
/// local time to the minute. Which time it names depends on the clock and the
/// time zone and is not stated; its shape is: chrono writes the year with at
/// least four digits (a sign only outside 0..=9999, and `Utc::now`, which
/// `Local::now` starts from, fails rather than return a time before 1970),
/// and month, day, hour and minute zero-padded to two digits.
#[verifier::external_body]
pub(crate) fn local_minute_timestamp() -> (s: String)
    ensures
        is_minute_stamp(s@),
{
    chrono::Local::now().format("%Y-%m-%d %H:%M").to_string()
}

/// `chrono::Utc::now().timestamp()`: the current time in whole seconds since
/// the Unix epoch. Which time depends on the clock and is not stated; it is
/// not negative, since chrono fails rather than return a time before 1970.
#[verifier::external_body]
pub(crate) fn unix_timestamp_now() -> (t: i64)
    ensures
        t >= 0,
{
    chrono::Utc::now().timestamp()
}

/// Thread count used when no performance page is available: the CPU count,
/// at most 8.
pub fn default_thread_count_for(cpus: usize) -> (n: u32)
    ensures
        n == if cpus < 8 { cpus } else { 8 },
{
    if cpus < 8 {
        cpus as u32
    } else {
        8
    }
}

/// Thread count used when no performance page is available, from this
/// machine's CPU count.
pub fn default_thread_count() -> (n: u32)
    ensures
        1 <= n <= 8,
{
    let cpus = available_cpus();
    default_thread_count_for(cpus)
}

/// A CPU count as the thread spinner shows it (truncated to `u32`).
pub open spec fn cpu_threads(cpus: usize) -> u32 {
    cpus as u32
}

/// The thread count shown for a configured value: 0 means "auto", shown as
/// the CPU count (truncated to `u32`).
pub fn effective_thread_count_for(configured: u32, cpus: usize) -> (n: u32)
    ensures
        configured != 0 ==> n == configured,
        configured == 0 ==> n == cpu_threads(cpus),
{
    if configured == 0 {
        cpus as u32
    } else {
        configured
    }
}

/// The thread count shown for a configured value on this machine: "auto"
/// (0) shows this machine's CPU count, which is at least 1.
pub fn effective_thread_count(configured: u32) -> (n: u32)
    ensures
        configured != 0 ==> n == configured,
        configured == 0 ==> exists|cpus: usize| cpus >= 1 && n == #[trigger] cpu_threads(cpus),
{
    if configured == 0 {
        let cpus = available_cpus();
        effective_thread_count_for(configured, cpus)
    } else {
        configured
    }
}

/// The upper bound of the thread spinner: this machine's CPU count.
pub fn max_thread_count() -> (n: usize)
    ensures
        n >= 1,
{
    available_cpus()
}

} // verus!
