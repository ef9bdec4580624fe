use chrono::{FixedOffset, TimeZone, Utc};

use zeitschaltuhr::clock::Clock;
use zeitschaltuhr::period::Period;
use zeitschaltuhr::schedule::{due_after, CronSchedule};
use zeitschaltuhr::temporal_iterator::{Scheduling, TemporalIterator};
use zeitschaltuhr::time::{Instant, Span, UtcOffset, MAX_TIMESTAMP, MIN_TIMESTAMP};

fn at(secs: i64, nanos: u32) -> Instant {
    Instant::new(secs, nanos).unwrap()
}

const TWICE_IN_MAY_2100: &str = "0   30   12     1,15       May  *  2100";

#[test]
fn that_an_expression_that_is_no_schedule_is_refused() {
    for expression in ["", "not a schedule", "0 30 12", "61 * * * * *", "* * * * * * 1969"] {
        let refused = CronSchedule::parse(expression).unwrap_err();

        assert!(!refused.reason().is_empty());
    }
}

#[test]
fn that_a_schedule_keeps_its_expression_and_its_clock() {
    let clock = Clock::Fixed(at(0, 0));

    let schedule = CronSchedule::parse_with_clock(TWICE_IN_MAY_2100, clock).unwrap();

    assert_eq!(schedule.expression(), TWICE_IN_MAY_2100);
    assert_eq!(schedule.clock(), clock);
    assert_eq!(
        CronSchedule::parse(TWICE_IN_MAY_2100).unwrap().clock(),
        Clock::System
    );
}

#[test]
fn that_a_schedule_yields_its_matches_after_the_given_instant() {
    let schedule = CronSchedule::parse(TWICE_IN_MAY_2100).unwrap();

    let mut matches = schedule.after(&UtcOffset::utc(), at(1_577_836_800, 0));

    assert_eq!(matches.next(), Some(at(4_112_857_800, 0)));
    assert_eq!(matches.next(), Some(at(4_114_067_400, 0)));
    assert_eq!(matches.next(), None);
    assert_eq!(matches.next(), None);
}

#[test]
fn that_a_match_at_the_given_instant_is_not_yielded_again() {
    let schedule = CronSchedule::parse(TWICE_IN_MAY_2100).unwrap();

    let mut on_the_match = schedule.after(&UtcOffset::utc(), at(4_112_857_800, 0));
    let mut just_before = schedule.after(&UtcOffset::utc(), at(4_112_857_799, 999_999_999));
    let mut just_after = schedule.after(&UtcOffset::utc(), at(4_112_857_800, 1));

    assert_eq!(on_the_match.next(), Some(at(4_114_067_400, 0)));
    assert_eq!(just_before.next(), Some(at(4_112_857_800, 0)));
    assert_eq!(just_after.next(), Some(at(4_114_067_400, 0)));
}

#[test]
fn that_a_schedule_is_read_against_the_zone() {
    let schedule = CronSchedule::parse(TWICE_IN_MAY_2100).unwrap();
    let two_hours_east = UtcOffset::new(7_200).unwrap();
    let five_hours_west = UtcOffset::new(-18_000).unwrap();

    let mut east = schedule.after(&two_hours_east, at(1_577_836_800, 0));
    let mut west = schedule.after(&five_hours_west, at(1_577_836_800, 0));

    assert_eq!(east.next(), Some(at(4_112_857_800 - 7_200, 0)));
    assert_eq!(west.next(), Some(at(4_112_857_800 + 18_000, 0)));
    assert_eq!(
        east.next().map(|found| found.timestamp()),
        Some(
            FixedOffset::east_opt(7_200)
                .unwrap()
                .with_ymd_and_hms(2100, 5, 15, 12, 30, 0)
                .unwrap()
                .timestamp()
        )
    );
}

#[test]
fn that_a_schedule_that_matches_every_second_steps_by_one_second() {
    let schedule = CronSchedule::parse("* * * * * *").unwrap();

    let mut matches = schedule.after(&UtcOffset::utc(), at(1_577_836_800, 250_000_000));

    assert_eq!(matches.next(), Some(at(1_577_836_801, 0)));
    assert_eq!(matches.next(), Some(at(1_577_836_802, 0)));
    assert_eq!(matches.next(), Some(at(1_577_836_803, 0)));
}

#[test]
fn that_a_schedule_starts_from_the_reading_of_its_clock() {
    let clock = Clock::Fixed(at(4_112_857_800, 0));
    let schedule = CronSchedule::parse_with_clock(TWICE_IN_MAY_2100, clock).unwrap();

    let mut matches = schedule.upcoming(&UtcOffset::utc());

    assert_eq!(matches.next(), Some(at(4_114_067_400, 0)));
    assert_eq!(matches.next(), None);
}

#[test]
fn that_a_schedule_bound_to_the_system_clock_yields_matches_after_now() {
    let schedule = CronSchedule::parse("0 * * * * *").unwrap();
    let before = Utc::now().timestamp();

    let found = schedule.upcoming(&UtcOffset::utc()).next().unwrap();

    assert!(found.timestamp() > before);
    assert!(found.timestamp() <= before + 61);
    assert_eq!(found.timestamp() % 60, 0);
    assert_eq!(found.timestamp_subsec_nanos(), 0);
}

#[test]
fn that_no_match_is_looked_for_after_the_end_of_the_range() {
    let schedule = CronSchedule::parse("* * * * * *").unwrap();

    let mut matches = schedule.after(&UtcOffset::utc(), at(MAX_TIMESTAMP, 0));

    assert_eq!(matches.next(), None);
    assert_eq!(matches.next(), None);
}

#[test]
fn that_a_schedule_has_no_match_after_its_last_year() {
    let schedule = CronSchedule::parse("* * * * * *").unwrap();

    let mut late = schedule.after(&UtcOffset::utc(), at(MAX_TIMESTAMP - 1, 0));
    let mut early = schedule.after(&UtcOffset::utc(), at(MIN_TIMESTAMP, 0));

    assert_eq!(late.next(), None);
    assert_eq!(early.next(), None);
}

#[test]
fn that_an_answer_becomes_due_only_if_it_lies_after_the_question() {
    assert_eq!(due_after(10, Some(11)), Some(at(11, 0)));
    assert_eq!(due_after(10, Some(4_112_857_800)), Some(at(4_112_857_800, 0)));
    assert_eq!(due_after(10, Some(10)), None);
    assert_eq!(due_after(10, Some(9)), None);
    assert_eq!(due_after(10, None), None);
    assert_eq!(due_after(-20, Some(-19)), Some(at(-19, 0)));
}

#[test]
fn that_an_answer_out_of_range_ends_the_sequence() {
    assert_eq!(due_after(10, Some(MAX_TIMESTAMP)), Some(at(MAX_TIMESTAMP, 0)));
    assert_eq!(due_after(10, Some(MAX_TIMESTAMP + 1)), None);
    assert_eq!(due_after(10, Some(i64::MAX)), None);
    assert_eq!(due_after(i64::MIN, Some(MIN_TIMESTAMP - 1)), None);
    assert_eq!(
        due_after(i64::MIN, Some(MIN_TIMESTAMP)),
        Some(at(MIN_TIMESTAMP, 0))
    );
    assert_eq!(due_after(i64::MAX, Some(i64::MAX)), None);
}

#[test]
fn that_either_kind_of_source_gives_a_sequence() {
    let now = at(1_577_836_800, 0);
    let zone = UtcOffset::utc();
    let period = Period::starting_at_with_clock(
        at(1_577_836_800 - 5, 0),
        Span::seconds(10).unwrap(),
        Clock::Fixed(now),
    )
    .unwrap();
    let schedule = CronSchedule::parse_with_clock(TWICE_IN_MAY_2100, Clock::Fixed(now)).unwrap();

    let mut sources = vec![Scheduling::Dynamic(period), Scheduling::Fixed(schedule)];
    let first_two = sources
        .iter_mut()
        .map(|source| source.iter_times(&zone).take(2))
        .collect::<Vec<_>>();

    assert_eq!(
        first_two,
        vec![
            vec![at(1_577_836_805, 0), at(1_577_836_815, 0)],
            vec![at(4_112_857_800, 0), at(4_114_067_400, 0)],
        ]
    );
}

#[test]
fn that_taking_stops_where_a_calendar_sequence_runs_out() {
    let clock = Clock::Fixed(at(1_577_836_800, 0));
    let schedule = CronSchedule::parse_with_clock(TWICE_IN_MAY_2100, clock).unwrap();
    let mut sequence = schedule.iter_times(&UtcOffset::utc());

    assert_eq!(sequence.take(0), vec![]);
    assert_eq!(
        sequence.take(5),
        vec![at(4_112_857_800, 0), at(4_114_067_400, 0)]
    );
    assert_eq!(sequence.take(5), vec![]);
    assert_eq!(sequence.next(), None);
}

#[test]
fn that_a_period_sequence_ignores_the_zone() {
    let now = at(1_577_836_800, 0);
    let period =
        Period::starting_at_with_clock(now, Span::seconds(60).unwrap(), Clock::Fixed(now)).unwrap();

    let in_utc = period.iter_times(&UtcOffset::utc()).take(3);
    let in_the_east = period.iter_times(&UtcOffset::new(32_400).unwrap()).take(3);

    assert_eq!(in_utc, in_the_east);
    assert_eq!(
        in_utc,
        vec![
            at(1_577_836_860, 0),
            at(1_577_836_920, 0),
            at(1_577_836_980, 0)
        ]
    );
}

#[test]
fn that_the_ends_of_the_range_can_be_asked_about_in_any_zone() {
    let schedule = CronSchedule::parse("* * * * * *").unwrap();

    for east in [-86_399, -3_600, 0, 3_600, 86_399] {
        let zone = UtcOffset::new(east).unwrap();
        for start in [
            at(MIN_TIMESTAMP, 0),
            at(MIN_TIMESTAMP + 86_400, 0),
            at(MAX_TIMESTAMP - 86_400, 0),
            at(MAX_TIMESTAMP - 1, 999_999_999),
            at(MAX_TIMESTAMP, 999_999_999),
        ] {
            assert_eq!(schedule.after(&zone, start).next(), None);
        }
    }
}

#[test]
fn that_the_years_of_a_schedule_begin_in_1970() {
    let schedule = CronSchedule::parse("0 0 0 1 1 *").unwrap();

    let mut from_long_ago = schedule.after(&UtcOffset::utc(), at(-86_400 * 365 * 100, 0));
    let mut from_new_year_1970 = schedule.after(&UtcOffset::utc(), at(0, 0));

    assert_eq!(from_long_ago.next(), Some(at(0, 0)));
    assert_eq!(from_new_year_1970.next(), Some(at(31_536_000, 0)));
}

