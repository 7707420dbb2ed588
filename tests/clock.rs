use libos_time::clock::{
    accept_host_time, check_gettime_clock, do_clock_getres, do_clock_gettime, do_gettimeofday,
    do_rdtsc, do_thread_getcpuclock, ClockId, HostTime, OcclumTimeProvider,
};
use libos_time::error::Error;

fn value(sec: i64, nsec: i64) -> HostTime {
    HostTime::Value { sec, nsec }
}

#[test]
fn clock_ids_from_numbers() {
    assert_eq!(ClockId::from_raw(0), Ok(ClockId::CLOCK_REALTIME));
    assert_eq!(ClockId::from_raw(1), Ok(ClockId::CLOCK_MONOTONIC));
    assert_eq!(ClockId::from_raw(2), Ok(ClockId::CLOCK_PROCESS_CPUTIME_ID));
    assert_eq!(ClockId::from_raw(3), Ok(ClockId::CLOCK_THREAD_CPUTIME_ID));
    assert_eq!(ClockId::from_raw(7), Ok(ClockId::CLOCK_BOOTTIME));
    assert_eq!(ClockId::from_raw(8), Err(Error::InvalidArgument));
    assert_eq!(ClockId::from_raw(-1), Err(Error::InvalidArgument));
}

#[test]
fn cpu_clocks_are_refused_whatever_the_host_says() {
    for c in [ClockId::CLOCK_PROCESS_CPUTIME_ID, ClockId::CLOCK_THREAD_CPUTIME_ID] {
        assert_eq!(check_gettime_clock(c), Err(Error::InvalidArgument));
        assert_eq!(do_clock_gettime(c, value(1, 2)), Err(Error::InvalidArgument));
        assert_eq!(do_clock_gettime(c, HostTime::TransportFailed), Err(Error::InvalidArgument));
    }
    assert_eq!(check_gettime_clock(ClockId::CLOCK_MONOTONIC), Ok(()));
}

#[test]
fn gettime_passes_on_a_valid_answer() {
    let t = do_clock_gettime(ClockId::CLOCK_MONOTONIC, value(100, 42)).unwrap();
    assert_eq!((t.sec(), t.nsec()), (100, 42));
}

#[test]
fn gettime_refuses_a_malformed_or_failed_answer() {
    let c = ClockId::CLOCK_REALTIME;
    assert_eq!(do_clock_gettime(c, value(-1, 0)), Err(Error::HostTrustViolation));
    assert_eq!(do_clock_gettime(c, value(0, 1_000_000_000)), Err(Error::HostTrustViolation));
    assert_eq!(do_clock_gettime(c, value(0, -5)), Err(Error::HostTrustViolation));
    assert_eq!(do_clock_gettime(c, HostTime::TransportFailed), Err(Error::HostTrustViolation));
    assert_eq!(do_clock_gettime(c, HostTime::Errno(22)), Err(Error::HostErrno(22)));
    assert_eq!(accept_host_time(value(3, 3)).unwrap().nsec(), 3);
}

#[test]
fn resolution_must_be_under_a_second_and_above_zero() {
    let c = ClockId::CLOCK_MONOTONIC;
    let r = do_clock_getres(c, value(0, 1)).unwrap();
    assert_eq!((r.sec(), r.nsec()), (0, 1));
    assert_eq!(do_clock_getres(c, value(0, 999_999_999)).unwrap().nsec(), 999_999_999);
    assert_eq!(do_clock_getres(c, value(0, 0)), Err(Error::HostTrustViolation));
    assert_eq!(do_clock_getres(c, value(1, 0)), Err(Error::HostTrustViolation));
    assert_eq!(do_clock_getres(c, value(0, 1_000_000_000)), Err(Error::HostTrustViolation));
    assert_eq!(do_clock_getres(c, HostTime::TransportFailed), Err(Error::HostTrustViolation));
}

#[test]
fn time_of_day_truncates_to_microseconds() {
    let tv = do_gettimeofday(value(1_700_000_000, 123_456_789)).unwrap();
    assert_eq!(tv.sec(), 1_700_000_000);
    assert_eq!(tv.usec(), 123_456);
    assert_eq!(do_gettimeofday(value(-7, 0)), Err(Error::HostTrustViolation));
}

#[test]
fn thread_cpu_clock_is_checked() {
    let t = do_thread_getcpuclock(value(0, 5_000)).unwrap();
    assert_eq!((t.sec(), t.nsec()), (0, 5_000));
    assert_eq!(do_thread_getcpuclock(value(0, -1)), Err(Error::HostTrustViolation));
    assert_eq!(do_thread_getcpuclock(HostTime::Errno(1)), Err(Error::HostErrno(1)));
}

#[test]
fn cycle_counter_is_passed_on_unchanged() {
    assert_eq!(do_rdtsc(Some((0xdead_beef, 7))), Ok((0xdead_beef, 7)));
    assert_eq!(do_rdtsc(Some((0, u32::MAX))), Ok((0, u32::MAX)));
    assert_eq!(do_rdtsc(None), Err(Error::HostTrustViolation));
}

#[test]
fn file_system_time_is_real_time() {
    let p = OcclumTimeProvider;
    let t = p.current_time(value(10, 20)).unwrap();
    assert_eq!((t.sec(), t.nsec()), (10, 20));
    assert_eq!(p.current_time(value(10, -20)), Err(Error::HostTrustViolation));
}
