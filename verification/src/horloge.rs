//! Identifiers of swap spaces, made from the time of their creation.
use vstd::prelude::*;
use crate::texte::{decimal, ecrire_u64};
use std::time::{Duration, SystemTime};

verus! {

#[verifier::external_type_specification]
#[verifier::external_body]
pub struct ExSystemTime(std::time::SystemTime);

/// `SystemTime::now`: the system clock's reading. Nothing is stated of it.
#[verifier::external_body]
fn instant_systeme() -> (r: SystemTime) {
    SystemTime::now()
}

/// `SystemTime::duration_since(UNIX_EPOCH)`: the time from the Unix epoch to
/// `t`, `None` when `t` is before the epoch (the error that std gives then).
/// Nothing else is stated: the value depends on the clock.
#[verifier::external_body]
fn depuis_epoque(t: &SystemTime) -> (r: Option<Duration>) {
    match t.duration_since(std::time::UNIX_EPOCH) {
        Ok(d) => Some(d),
        Err(_) => None,
    }
}

/// `Duration::as_secs`: the whole seconds of `d`. Nothing is stated of it.
#[verifier::external_body]
fn secondes(d: &Duration) -> (r: u64) {
    d.as_secs()
}

/// `Duration::subsec_nanos`: the nanoseconds of `d` beyond its whole seconds,
/// which std documents as less than one second.
#[verifier::external_body]
fn nanosecondes(d: &Duration) -> (r: u32)
    ensures
        r < 1_000_000_000,
{
    d.subsec_nanos()
}

/// `chrono::DateTime::<Utc>::from_timestamp(secs, nanos)` and its
/// `timestamp_millis()`: the milliseconds since the Unix epoch of that instant.
/// chrono gives `None` only for an instant out of its calendar (which reaches
/// beyond the year 262000, far past 10^12 seconds from the epoch); otherwise the
/// date-time gives back `secs` and `nanos` (as its documentation's example
/// shows), so its milliseconds are `secs * 1000 + nanos / 10^6`.
#[verifier::external_body]
fn millisecondes_de(secs: i64, nanos: u32) -> (r: Option<i64>)
    requires
        nanos < 1_000_000_000,
    ensures
        r matches Some(m) ==> m == secs * 1000 + nanos / 1_000_000,
        0 <= secs <= 1_000_000_000_000 ==> r is Some,
{
    match chrono::DateTime::from_timestamp(secs, nanos) {
        Some(d) => Some(d.timestamp_millis()),
        None => None,
    }
}

/// The clock's reading as whole seconds and nanoseconds since the Unix epoch;
/// `None` when the clock is before the epoch.
pub(crate) fn lire_horloge() -> (r: Option<(u64, u32)>)
    ensures
        r matches Some((_, n)) ==> n < 1_000_000_000,
{
    let t = instant_systeme();
    match depuis_epoque(&t) {
        Some(d) => Some((secondes(&d), nanosecondes(&d))),
        None => None,
    }
}

/// The identifier of a swap space made at `ms` milliseconds: `swap_<ms>`.
pub fn identifiant_swap_de(ms: u64) -> (r: String)
    ensures
        r@ == "swap_"@ + decimal(ms as nat),
{
    let mut r = String::from_str("swap_");
    ecrire_u64(&mut r, ms);
    r
}

/// The milliseconds of `secs` seconds and `nanos` nanoseconds.
pub open spec fn millisecondes(secs: u64, nanos: u32) -> nat {
    (secs * 1000 + nanos / 1_000_000) as nat
}

/// The identifier of a swap space made `secs` seconds and `nanos`
/// nanoseconds after the Unix epoch: `swap_<milliseconds>`; `None` beyond the
/// range of a signed 64-bit count of seconds, or of the calendar.
pub fn identifiant_depuis_duree(secs: u64, nanos: u32) -> (r: Option<String>)
    requires
        nanos < 1_000_000_000,
    ensures
        secs > i64::MAX ==> r is None,
        r matches Some(id) ==> id@ == "swap_"@ + decimal(millisecondes(secs, nanos)),
        secs <= 1_000_000_000_000 ==> r is Some,
{
    if secs > 9_223_372_036_854_775_807u64 {
        return None;
    }
    match millisecondes_de(secs as i64, nanos) {
        Some(m) => {
            assert(m == secs * 1000 + nanos / 1_000_000);
            Some(identifiant_swap_de(m as u64))
        },
        None => None,
    }
}

/// A new identifier `swap_<ms>`, from the current time in milliseconds since
/// the Unix epoch (see `identifiant_depuis_duree`); `None` when the clock is
/// before the epoch, or beyond the calendar.
pub fn identifiant_swap() -> (r: Option<String>)
    ensures
        r matches Some(id) ==> exists|s: u64, n: u32|
            n < 1_000_000_000 && s <= i64::MAX && id@ == "swap_"@ + decimal(#[trigger] millisecondes(s, n)),
{
    match lire_horloge() {
        Some((s, n)) => identifiant_depuis_duree(s, n),
        None => None,
    }
}

} // verus!
