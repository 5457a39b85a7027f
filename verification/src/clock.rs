//! Timestamps: reading the clock, and writing a moment as ISO-8601 text in
//! UTC.

use vstd::prelude::*;
use crate::calendar::{
    civil_from_days, date_of_days, lemma_every_day_has_a_date, lemma_year_before_10000,
    lemma_year_since_epoch,
};
use crate::text::{lemma_decimal_len, push_zero_padded, zero_padded};

verus! {

/// Seconds in a day.
pub const SECONDS_PER_DAY: u64 = 86_400;

#[verifier::external_type_specification]
#[verifier::external_body]
pub struct ExSystemTime(std::time::SystemTime);

/// Calls `SystemTime::now`. Nothing is claimed about the moment, as every
/// reading differs.
#[verifier::external_body]
pub(crate) fn system_now() -> std::time::SystemTime {
    std::time::SystemTime::now()
}

/// Calls `SystemTime::duration_since` with `UNIX_EPOCH`; a moment before
/// the epoch counts as the epoch. Nothing is claimed about the duration.
#[verifier::external_body]
pub(crate) fn since_unix_epoch(moment: &std::time::SystemTime) -> core::time::Duration {
    moment.duration_since(std::time::UNIX_EPOCH).unwrap_or_default()
}

/// Calls `Duration::as_secs`. Nothing is claimed about the number.
#[verifier::external_body]
pub(crate) fn whole_seconds(duration: &core::time::Duration) -> u64 {
    duration.as_secs()
}

/// Calls `Duration::subsec_millis`. Trusted: the part of a second is below
/// 1000 milliseconds.
#[verifier::external_body]
pub(crate) fn millis_within_second(duration: &core::time::Duration) -> (millis: u32)
    ensures
        millis < 1000,
{
    duration.subsec_millis()
}

/// Reads the system clock: the time since the Unix epoch as whole seconds
/// and the milliseconds within the second. A clock set before the epoch
/// reads as the epoch.
pub(crate) fn unix_time_now() -> (now: (u64, u32))
    ensures
        now.1 < 1000,
{
    let moment = system_now();
    let since_epoch = since_unix_epoch(&moment);
    (whole_seconds(&since_epoch), millis_within_second(&since_epoch))
}

/// The date `days` days after 1 January 1970 as `YYYY-MM-DD`.
pub open spec fn iso_date(days: int) -> Seq<char> {
    let date = date_of_days(days);
    zero_padded(date.0 as nat, 4) + "-"@ + zero_padded(date.1 as nat, 2) + "-"@ + zero_padded(
        date.2 as nat,
        2,
    )
}

/// The time `second_of_day` seconds after midnight as `HH:MM:SS`.
pub open spec fn iso_time(second_of_day: nat) -> Seq<char> {
    zero_padded(second_of_day / 3600, 2) + ":"@ + zero_padded((second_of_day % 3600) / 60, 2)
        + ":"@ + zero_padded(second_of_day % 60, 2)
}

/// The moment `secs` seconds after the Unix epoch as
/// `YYYY-MM-DDTHH:MM:SSZ`.
pub open spec fn iso_seconds(secs: nat) -> Seq<char> {
    iso_date((secs / 86_400) as int) + "T"@ + iso_time(secs % 86_400) + "Z"@
}

/// The moment `secs` seconds and `millis` milliseconds after the Unix epoch
/// as `YYYY-MM-DDTHH:MM:SS.mmmZ`.
pub open spec fn iso_millis(secs: nat, millis: nat) -> Seq<char> {
    iso_date((secs / 86_400) as int) + "T"@ + iso_time(secs % 86_400) + "."@ + zero_padded(
        millis,
        3,
    ) + "Z"@
}

fn push_date_time(out: &mut String, secs: u64)
    ensures
        final(out)@ == old(out)@ + iso_date((secs / 86_400) as int) + "T"@ + iso_time(
            (secs % 86_400) as nat,
        ),
{
    let days: u64 = secs / SECONDS_PER_DAY;
    let second_of_day: u64 = secs % SECONDS_PER_DAY;
    let (year, month, day) = civil_from_days(days as i64);
    proof {
        lemma_year_since_epoch(year as int, month as int, day as int);
    }
    push_zero_padded(out, year as u64, 4);
    out.append("-");
    push_zero_padded(out, month as u64, 2);
    out.append("-");
    push_zero_padded(out, day as u64, 2);
    assert(out@ =~= old(out)@ + iso_date((secs / 86_400) as int));
    out.append("T");
    push_zero_padded(out, second_of_day / 3600, 2);
    out.append(":");
    push_zero_padded(out, (second_of_day % 3600) / 60, 2);
    out.append(":");
    push_zero_padded(out, second_of_day % 60, 2);
    assert(out@ =~= old(out)@ + iso_date((secs / 86_400) as int) + "T"@ + iso_time(
        (secs % 86_400) as nat,
    ));
}

/// Writes a moment, given in seconds after the Unix epoch, as
/// `YYYY-MM-DDTHH:MM:SSZ`.
pub fn format_iso_seconds(secs: u64) -> (text: String)
    ensures
        text@ == iso_seconds(secs as nat),
{
    let mut text = String::new();
    push_date_time(&mut text, secs);
    text.append("Z");
    assert(text@ =~= iso_seconds(secs as nat));
    text
}

/// Writes a moment, given in seconds and milliseconds after the Unix epoch,
/// as `YYYY-MM-DDTHH:MM:SS.mmmZ`.
pub fn format_iso_millis(secs: u64, millis: u32) -> (text: String)
    ensures
        text@ == iso_millis(secs as nat, millis as nat),
{
    let mut text = String::new();
    push_date_time(&mut text, secs);
    text.append(".");
    push_zero_padded(&mut text, millis as u64, 3);
    text.append("Z");
    assert(text@ =~= iso_millis(secs as nat, millis as nat));
    text
}

/// Through the year 9999 a timestamp with milliseconds has 24 characters,
/// with its separators in fixed places.
pub proof fn lemma_iso_millis_shape(secs: nat, millis: nat)
    requires
        secs < 253_402_300_800,
        millis < 1000,
    ensures
        iso_millis(secs, millis).len() == 24,
        iso_millis(secs, millis)[4] == '-',
        iso_millis(secs, millis)[7] == '-',
        iso_millis(secs, millis)[10] == 'T',
        iso_millis(secs, millis)[13] == ':',
        iso_millis(secs, millis)[16] == ':',
        iso_millis(secs, millis)[19] == '.',
        iso_millis(secs, millis)[23] == 'Z',
{
    lemma_date_time_shape(secs);
    let t = secs % 86_400;
    lemma_decimal_len(millis);
    reveal_strlit("T");
    reveal_strlit(".");
    reveal_strlit("Z");
    assert(zero_padded(millis, 3).len() == 3);
}

/// Through the year 9999 a timestamp in whole seconds has 20 characters,
/// with its separators in fixed places.
pub proof fn lemma_iso_seconds_shape(secs: nat)
    requires
        secs < 253_402_300_800,
    ensures
        iso_seconds(secs).len() == 20,
        iso_seconds(secs)[4] == '-',
        iso_seconds(secs)[7] == '-',
        iso_seconds(secs)[10] == 'T',
        iso_seconds(secs)[13] == ':',
        iso_seconds(secs)[16] == ':',
        iso_seconds(secs)[19] == 'Z',
{
    lemma_date_time_shape(secs);
    reveal_strlit("T");
    reveal_strlit("Z");
}

proof fn lemma_date_time_shape(secs: nat)
    requires
        secs < 253_402_300_800,
    ensures
        iso_date((secs / 86_400) as int).len() == 10,
        iso_date((secs / 86_400) as int)[4] == '-',
        iso_date((secs / 86_400) as int)[7] == '-',
        iso_time(secs % 86_400).len() == 8,
        iso_time(secs % 86_400)[2] == ':',
        iso_time(secs % 86_400)[5] == ':',
{
    let days = (secs / 86_400) as int;
    let date = date_of_days(days);
    lemma_every_day_has_a_date(days);
    lemma_year_since_epoch(date.0, date.1, date.2);
    lemma_year_before_10000(date.0, date.1, date.2);
    lemma_decimal_len(date.0 as nat);
    lemma_decimal_len(date.1 as nat);
    lemma_decimal_len(date.2 as nat);
    assert(zero_padded(date.0 as nat, 4).len() == 4);
    assert(zero_padded(date.1 as nat, 2).len() == 2);
    assert(zero_padded(date.2 as nat, 2).len() == 2);
    let t = secs % 86_400;
    lemma_decimal_len(t / 3600);
    lemma_decimal_len((t % 3600) / 60);
    lemma_decimal_len(t % 60);
    assert(zero_padded(t / 3600, 2).len() == 2);
    assert(zero_padded((t % 3600) / 60, 2).len() == 2);
    assert(zero_padded(t % 60, 2).len() == 2);
    reveal_strlit("-");
    reveal_strlit(":");
}

} // verus!
