//! The text of the report.

use vstd::prelude::*;
use crate::clock::{clock_text, WallClock};
use crate::query::{
    boot_time_of,
    decode_boot_time,
    decode_load_average,
    load_average_fault,
    load_counters_of,
    load_scale_of,
    reply_fault,
    BootTime,
    LoadAverage,
    QueryError,
    QueryReply,
    BOOT_TIME_SIZE,
};
use crate::sessions::{active_users, count_active_users, SessionKind};
use crate::text::{
    counted_text,
    decimal_text,
    padded_text,
    push_counted,
    push_decimal,
    push_padded,
    push_two_digits,
    two_digit_text,
};
use crate::uptime::{compute_uptime, elapsed_seconds, split_elapsed, UptimeDuration};

verus! {

/// The form in which the time since boot is shown, after the days.
#[derive(Clone, Copy, Debug, PartialEq, Eq)]
pub enum SpanField {
    /// Hours and minutes, as on a clock face.
    Clock,
    /// Hours alone.
    Hours,
    /// Minutes alone.
    Minutes,
    /// Seconds alone.
    Seconds,
}

/// The form that a duration is shown in: the first that fits, in the order
/// clock, hours, minutes, seconds.
pub open spec fn chosen_field(up: UptimeDuration) -> SpanField {
    if up.hours > 0 && up.minutes > 0 {
        SpanField::Clock
    } else if up.hours > 0 {
        SpanField::Hours
    } else if up.minutes > 0 {
        SpanField::Minutes
    } else {
        SpanField::Seconds
    }
}

/// The days, where there is at least one.
pub open spec fn days_text(up: UptimeDuration) -> Seq<char> {
    if up.days > 0 {
        counted_text(up.days as nat, up.days as nat, "day, "@, "days, "@)
    } else {
        Seq::<char>::empty()
    }
}

/// The time within the day, in the chosen form. The number shown is the
/// remainder within the next larger unit; the unit word goes by the whole
/// count.
pub open spec fn span_text(up: UptimeDuration) -> Seq<char> {
    match chosen_field(up) {
        SpanField::Clock => padded_text((up.hours % 24) as nat) + ":"@ + two_digit_text(
            (up.minutes % 60) as nat,
        ) + ", "@,
        SpanField::Hours => counted_text(
            (up.hours % 24) as nat,
            up.hours as nat,
            "hr, "@,
            "hrs, "@,
        ),
        SpanField::Minutes => counted_text(
            (up.minutes % 60) as nat,
            up.minutes as nat,
            "min, "@,
            "mins, "@,
        ),
        SpanField::Seconds => counted_text(
            (up.seconds % 60) as nat,
            up.seconds as nat,
            "sec, "@,
            "secs, "@,
        ),
    }
}

/// The number of logged-in users.
pub open spec fn users_text(users: nat) -> Seq<char> {
    counted_text(users, users, "user, "@, "users, "@)
}

/// The quotient `ldavg / fscale` in hundredths, rounded to the nearest; a
/// tie goes up.
pub open spec fn load_hundredths(ldavg: nat, fscale: nat) -> nat {
    (200 * ldavg + fscale) / (2 * fscale)
}

/// One load: the whole part, a point, and two decimals.
pub open spec fn load_text(ldavg: nat, fscale: nat) -> Seq<char> {
    let hundredths = load_hundredths(ldavg, fscale);
    decimal_text(hundredths / 100) + "."@ + two_digit_text(hundredths % 100)
}

/// The three loads under their heading, each after a space.
pub open spec fn loads_text(counters: Seq<nat>, scale: nat) -> Seq<char> {
    "load averages:"@ + " "@ + load_text(counters[0], scale) + " "@ + load_text(counters[1], scale)
        + " "@ + load_text(counters[2], scale)
}

/// The whole report, with its newline: the time of day, the time since
/// boot, the users and the loads.
pub open spec fn report_text(
    clock: Seq<char>,
    up: UptimeDuration,
    users: nat,
    counters: Seq<nat>,
    scale: nat,
) -> Seq<char> {
    clock + "  up "@ + days_text(up) + span_text(up) + users_text(users) + loads_text(
        counters,
        scale,
    ) + "\n"@
}

/// Picks the form in which a duration is shown.
pub fn select_field(up: &UptimeDuration) -> (field: SpanField)
    ensures
        field == chosen_field(*up),
{
    if up.hours > 0 && up.minutes > 0 {
        SpanField::Clock
    } else if up.hours > 0 {
        SpanField::Hours
    } else if up.minutes > 0 {
        SpanField::Minutes
    } else {
        SpanField::Seconds
    }
}

/// The load of slot `i` in hundredths, rounded to the nearest.
pub fn load_in_hundredths(load: &LoadAverage, i: usize) -> (hundredths: u64)
    requires
        i < 3,
    ensures
        hundredths == load_hundredths(load.counters()[i as int], load.scale()),
{
    let ldavg: u128 = load.ldavg(i) as u128;
    let fscale: u128 = load.fscale() as u128;
    let numerator: u128 = 200 * ldavg + fscale;
    let denominator: u128 = 2 * fscale;
    let quotient: u128 = numerator / denominator;
    proof {
        vstd::arithmetic::div_mod::lemma_fundamental_div_mod(numerator as int, denominator as int);
        vstd::arithmetic::div_mod::lemma_mod_bound(numerator as int, denominator as int);
        assert(quotient * 2 <= quotient * denominator) by (nonlinear_arith)
            requires
                denominator >= 2,
                quotient >= 0,
        ;
        assert(denominator * quotient == quotient * denominator) by (nonlinear_arith);
    }
    quotient as u64
}

fn push_days(out: &mut String, up: &UptimeDuration)
    ensures
        final(out)@ == old(out)@ + days_text(*up),
{
    if up.days > 0 {
        push_counted(out, up.days, up.days, "day, ", "days, ");
    }
    proof {
        assert(final(out)@ =~= old(out)@ + days_text(*up));
    }
}

fn push_span(out: &mut String, up: &UptimeDuration)
    ensures
        final(out)@ == old(out)@ + span_text(*up),
{
    match select_field(up) {
        SpanField::Clock => {
            push_padded(out, up.hours % 24);
            out.append(":");
            push_two_digits(out, up.minutes % 60);
            out.append(", ");
        },
        SpanField::Hours => {
            push_counted(out, up.hours % 24, up.hours, "hr, ", "hrs, ");
        },
        SpanField::Minutes => {
            push_counted(out, up.minutes % 60, up.minutes, "min, ", "mins, ");
        },
        SpanField::Seconds => {
            push_counted(out, up.seconds % 60, up.seconds, "sec, ", "secs, ");
        },
    }
    proof {
        assert(final(out)@ =~= old(out)@ + span_text(*up));
    }
}

fn push_load(out: &mut String, load: &LoadAverage, i: usize)
    requires
        i < 3,
    ensures
        final(out)@ == old(out)@ + " "@ + load_text(load.counters()[i as int], load.scale()),
{
    let hundredths = load_in_hundredths(load, i);
    out.append(" ");
    push_decimal(out, hundredths / 100);
    out.append(".");
    push_two_digits(out, hundredths % 100);
    proof {
        assert(final(out)@ =~= old(out)@ + " "@ + load_text(
            load.counters()[i as int],
            load.scale(),
        ));
    }
}

fn push_loads(out: &mut String, load: &LoadAverage)
    ensures
        final(out)@ == old(out)@ + loads_text(load.counters(), load.scale()),
{
    out.append("load averages:");
    push_load(out, load, 0);
    push_load(out, load, 1);
    push_load(out, load, 2);
    proof {
        assert(final(out)@ =~= old(out)@ + loads_text(load.counters(), load.scale()));
    }
}

/// Writes the report: the time of day, the time since boot in the form
/// that fits it, the number of users and the three loads, then a newline.
pub fn format_report(now: &WallClock, load: &LoadAverage, up: &UptimeDuration, users: u64) -> (s:
    String)
    ensures
        s@ == report_text(now.text(), *up, users as nat, load.counters(), load.scale()),
{
    let mut out = now.time_of_day();
    out.append("  up ");
    push_days(&mut out, up);
    push_span(&mut out, up);
    push_counted(&mut out, users, users, "user, ", "users, ");
    push_loads(&mut out, load);
    out.append("\n");
    proof {
        assert(out@ =~= report_text(
            now.text(),
            *up,
            users as nat,
            load.counters(),
            load.scale(),
        ));
    }
    out
}

/// The report for a clock reading, a boot time, the loads and the number of
/// users.
pub fn uptime_report(now: &WallClock, boot: &BootTime, load: &LoadAverage, users: u64) -> (s:
    String)
    ensures
        s@ == report_text(
            now.text(),
            split_elapsed(elapsed_seconds(now.epoch_seconds(), boot.seconds as int)),
            users as nat,
            load.counters(),
            load.scale(),
        ),
{
    let up = compute_uptime(now, boot);
    format_report(now, load, &up, users)
}

/// The first fault among the two replies, the boot time's before the load
/// averages'.
pub open spec fn replies_fault(boot: QueryReply, load: QueryReply) -> Option<QueryError> {
    match reply_fault(boot, BOOT_TIME_SIZE) {
        Some(e) => Some(e),
        None => load_average_fault(load),
    }
}

/// The report from what was read: the clock, the kernel's two replies and
/// the session records.
///
/// A reply that cannot be used gives its error and no report, so that a
/// failed query never shows as a zeroed line. Without session records the
/// number of users is zero.
pub fn report_from_replies(
    now: &WallClock,
    boot: &QueryReply,
    load: &QueryReply,
    records: &[SessionKind],
) -> (r: Result<String, QueryError>)
    ensures
        match r {
            Ok(s) => {
                &&& replies_fault(*boot, *load) is None
                &&& s@ == report_text(
                    now.text(),
                    split_elapsed(
                        elapsed_seconds(
                            now.epoch_seconds(),
                            boot_time_of(boot.buffer@).seconds as int,
                        ),
                    ),
                    active_users(records@),
                    load_counters_of(load.buffer@),
                    load_scale_of(load.buffer@),
                )
            },
            Err(e) => replies_fault(*boot, *load) == Some(e),
        },
{
    let boot_time = match decode_boot_time(boot) {
        Ok(boot_time) => boot_time,
        Err(e) => {
            return Err(e);
        },
    };
    let loads = match decode_load_average(load) {
        Ok(loads) => loads,
        Err(e) => {
            return Err(e);
        },
    };
    let users = count_active_users(records);
    Ok(uptime_report(now, &boot_time, &loads, users))
}

/// The load shown is the hundredth nearest to the true quotient: it lies
/// within half a hundredth of `ldavg / fscale`, and a quotient halfway
/// between two hundredths is shown as the upper one.
pub proof fn load_hundredths_is_nearest(ldavg: nat, fscale: nat)
    requires
        fscale > 0,
    ensures
        2 * (load_hundredths(ldavg, fscale) * fscale) <= 200 * ldavg + fscale,
        200 * ldavg + fscale < 2 * ((load_hundredths(ldavg, fscale) + 1) * fscale),
        100 * ldavg % fscale == 0 ==> load_hundredths(ldavg, fscale) == 100 * ldavg / fscale,
{
    let h = load_hundredths(ldavg, fscale) as int;
    let numerator = (200 * ldavg + fscale) as int;
    let denominator = (2 * fscale) as int;
    vstd::arithmetic::div_mod::lemma_fundamental_div_mod(numerator, denominator);
    vstd::arithmetic::div_mod::lemma_mod_bound(numerator, denominator);
    assert(denominator * h == 2 * (h * fscale)) by (nonlinear_arith)
        requires
            denominator == 2 * fscale,
    ;
    assert(2 * ((h + 1) * fscale) == 2 * (h * fscale) + denominator) by (nonlinear_arith)
        requires
            denominator == 2 * fscale,
    ;
    if 100 * ldavg % fscale == 0 {
        let exact = (100 * ldavg / fscale) as int;
        vstd::arithmetic::div_mod::lemma_fundamental_div_mod((100 * ldavg) as int, fscale as int);
        assert(100 * ldavg == fscale * exact);
        assert(h == exact) by (nonlinear_arith)
            requires
                fscale > 0,
                100 * ldavg == fscale * exact,
                2 * (h * fscale) <= 200 * ldavg + fscale,
                200 * ldavg + fscale < 2 * ((h + 1) * fscale),
        ;
    }
}

/// The unit word after a count is the singular when the count is one and
/// the plural for every other count, zero included.
pub proof fn unit_word_rule(shown: nat, count: nat, singular: Seq<char>, plural: Seq<char>)
    ensures
        count == 1 ==> counted_text(shown, count, singular, plural) == decimal_text(shown) + seq![
            ' ',
        ] + singular,
        count != 1 ==> counted_text(shown, count, singular, plural) == decimal_text(shown) + seq![
            ' ',
        ] + plural,
{
}

/// Of the four forms exactly one is chosen for any duration, and each has
/// its own condition on the hours and minutes.
pub proof fn one_field_is_chosen(up: UptimeDuration)
    ensures
        chosen_field(up) == SpanField::Clock <==> up.hours > 0 && up.minutes > 0,
        chosen_field(up) == SpanField::Hours <==> up.hours > 0 && up.minutes == 0,
        chosen_field(up) == SpanField::Minutes <==> up.hours == 0 && up.minutes > 0,
        chosen_field(up) == SpanField::Seconds <==> up.hours == 0 && up.minutes == 0,
        (if up.hours > 0 && up.minutes > 0 {
            1int
        } else {
            0int
        }) + (if up.hours > 0 && up.minutes == 0 {
            1int
        } else {
            0int
        }) + (if up.hours == 0 && up.minutes > 0 {
            1int
        } else {
            0int
        }) + (if up.hours == 0 && up.minutes == 0 {
            1int
        } else {
            0int
        }) == 1,
{
}

/// For a duration that was split from a number of seconds, the form goes by
/// that number alone: seconds below a minute, minutes below an hour, and
/// the clock form from one hour on. Hours alone are never chosen, since a
/// whole hour is sixty whole minutes. Below an hour the number shown is the
/// whole count.
pub proof fn field_of_elapsed(elapsed: nat)
    requires
        elapsed <= u64::MAX,
    ensures
        elapsed < 60 <==> chosen_field(split_elapsed(elapsed)) == SpanField::Seconds,
        60 <= elapsed < 3600 <==> chosen_field(split_elapsed(elapsed)) == SpanField::Minutes,
        3600 <= elapsed <==> chosen_field(split_elapsed(elapsed)) == SpanField::Clock,
        chosen_field(split_elapsed(elapsed)) != SpanField::Hours,
        elapsed < 60 ==> span_text(split_elapsed(elapsed)) == counted_text(
            elapsed,
            elapsed,
            "sec, "@,
            "secs, "@,
        ),
        60 <= elapsed < 3600 ==> span_text(split_elapsed(elapsed)) == counted_text(
            elapsed / 60,
            elapsed / 60,
            "min, "@,
            "mins, "@,
        ),
        3600 <= elapsed ==> span_text(split_elapsed(elapsed)) == padded_text(
            (elapsed / 3600) % 24,
        ) + ":"@ + two_digit_text((elapsed / 60) % 60) + ", "@,
        elapsed < 86400 <==> days_text(split_elapsed(elapsed)) == Seq::<char>::empty(),
{
    let up = split_elapsed(elapsed);
    assert(up.seconds == elapsed);
    assert(up.minutes == elapsed / 60);
    assert(up.hours == elapsed / 3600);
    assert(up.days == elapsed / 86400);
    if elapsed >= 86400 {
        crate::text::decimal_text_reads_back(up.days as nat);
        assert(days_text(up).len() > 0);
    }
}

/// A report opens with the time of day, which takes five characters when
/// it is of the form `HH:MM`, and closes with a newline.
pub proof fn report_frame(
    hour: nat,
    minute: nat,
    up: UptimeDuration,
    users: nat,
    counters: Seq<nat>,
    scale: nat,
)
    ensures
        clock_text(hour, minute).len() == 5,
        clock_text(hour, minute)[2] == ':',
        report_text(clock_text(hour, minute), up, users, counters, scale).subrange(0, 5)
            == clock_text(hour, minute),
        report_text(clock_text(hour, minute), up, users, counters, scale).last() == '\n',
{
    reveal_strlit("\n");
    let clock = clock_text(hour, minute);
    let whole = report_text(clock, up, users, counters, scale);
    let body = clock + "  up "@ + days_text(up) + span_text(up) + users_text(users) + loads_text(
        counters,
        scale,
    );
    assert(whole == body + "\n"@);
    assert(whole.subrange(0, 5) =~= clock);
}

} // verus!
