use libos_time::clock::{ClockId, HostTime};
use libos_time::error::Error;
use libos_time::sleep::{
    complete_sleep, do_clock_nanosleep, do_nanosleep, plan_absolute_sleep, SleepStep,
    WaitOutcome, TIMER_ABSTIME,
};
use libos_time::span::TimeSpan;
use libos_time::time::timespec_t;

#[test]
fn sleep_only_on_wall_monotonic_and_boot_clocks() {
    let req = timespec_t::new(1, 0);
    for c in [
        ClockId::CLOCK_PROCESS_CPUTIME_ID,
        ClockId::CLOCK_THREAD_CPUTIME_ID,
        ClockId::CLOCK_MONOTONIC_RAW,
        ClockId::CLOCK_REALTIME_COARSE,
        ClockId::CLOCK_MONOTONIC_COARSE,
    ] {
        assert_eq!(do_clock_nanosleep(c, 0, &req), Err(Error::InvalidArgument));
    }
    for c in [ClockId::CLOCK_REALTIME, ClockId::CLOCK_MONOTONIC, ClockId::CLOCK_BOOTTIME] {
        assert!(do_clock_nanosleep(c, 0, &req).is_ok());
    }
}

#[test]
fn sleep_refuses_a_malformed_request() {
    let bad = timespec_t::from(-1i64);
    assert_eq!(do_nanosleep(&bad), Err(Error::InvalidArgument));
}

#[test]
fn relative_sleep_waits_for_the_request() {
    let step = do_nanosleep(&timespec_t::new(2, 500)).unwrap();
    assert_eq!(step, SleepStep::Wait { duration: TimeSpan::new(2, 500), relative: true });
}

#[test]
fn absolute_sleep_reads_the_clock_first() {
    let step =
        do_clock_nanosleep(ClockId::CLOCK_MONOTONIC, TIMER_ABSTIME, &timespec_t::new(9, 0))
            .unwrap();
    assert_eq!(
        step,
        SleepStep::ReadClock { clockid: ClockId::CLOCK_MONOTONIC, target: TimeSpan::new(9, 0) }
    );
}

#[test]
fn absolute_sleep_to_a_past_target_ends_at_once() {
    let target = TimeSpan::new(100, 0);
    let past = plan_absolute_sleep(target, HostTime::Value { sec: 150, nsec: 0 });
    assert_eq!(past, Ok(SleepStep::Done));
    let now = plan_absolute_sleep(target, HostTime::Value { sec: 100, nsec: 0 });
    assert_eq!(now, Ok(SleepStep::Done));
}

#[test]
fn absolute_sleep_to_a_future_target_waits_the_difference() {
    let target = TimeSpan::new(100, 100);
    let step = plan_absolute_sleep(target, HostTime::Value { sec: 98, nsec: 200 }).unwrap();
    assert_eq!(
        step,
        SleepStep::Wait { duration: TimeSpan::new(1, 999_999_900), relative: false }
    );
}

#[test]
fn absolute_sleep_refuses_a_bad_clock_answer() {
    let target = TimeSpan::new(1, 0);
    assert_eq!(
        plan_absolute_sleep(target, HostTime::Value { sec: -1, nsec: 0 }),
        Err(Error::HostTrustViolation)
    );
    assert_eq!(plan_absolute_sleep(target, HostTime::Errno(5)), Err(Error::HostErrno(5)));
}

#[test]
fn uninterrupted_relative_sleep_succeeds_without_remaining_time() {
    let d = TimeSpan::new(1, 0);
    let end = complete_sleep(d, true, WaitOutcome::TimedOut, TimeSpan::new(1, 3));
    assert_eq!(end.result, Ok(0));
    assert_eq!(end.remaining, None);
}

#[test]
fn interrupted_relative_sleep_reports_time_left() {
    let d = TimeSpan::new(3, 0);
    let end = complete_sleep(d, true, WaitOutcome::Interrupted, TimeSpan::new(1, 250_000_000));
    assert_eq!(end.result, Err(Error::Interrupted));
    let rem = end.remaining.unwrap();
    assert_eq!((rem.sec(), rem.nsec()), (1, 750_000_000));
}

#[test]
fn interrupted_sleep_after_its_deadline_reports_zero() {
    let d = TimeSpan::new(1, 0);
    let end = complete_sleep(d, true, WaitOutcome::Interrupted, TimeSpan::new(2, 0));
    assert_eq!(end.result, Err(Error::Interrupted));
    assert_eq!(end.remaining, Some(timespec_t::new(0, 0)));
}

#[test]
fn interrupted_absolute_sleep_reports_no_time() {
    let end = complete_sleep(TimeSpan::new(5, 0), false, WaitOutcome::Interrupted, TimeSpan::zero());
    assert_eq!(end.result, Err(Error::Interrupted));
    assert_eq!(end.remaining, None);
}
