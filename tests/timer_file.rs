use libos_time::error::Error;
use libos_time::open::{do_openat, O_CLOEXEC};
use libos_time::span::TimeSpan;
use libos_time::time::{itimerspec_t, timespec_t};
use libos_time::timer_file::{TimerAction, TimerFile, TimerState};

fn setting(interval: (i64, i64), value: (i64, i64)) -> itimerspec_t {
    itimerspec_t {
        it_interval: timespec_t::new(interval.0, interval.1),
        it_value: timespec_t::new(value.0, value.1),
    }
}

fn nanos(d: TimeSpan) -> u64 {
    d.as_secs() * 1_000_000_000 + d.subsec_nanos() as u64
}

/// Runs the background loop on a simulated clock until `elapsed`.
fn run_loop(t: &mut TimerFile, action: TimerAction, elapsed: u64) {
    let (token, first) = match action {
        TimerAction::Start { token, first, .. } => (token, first),
        _ => panic!("timer not started"),
    };
    let mut now = nanos(first);
    while now <= elapsed {
        match t.on_expire(token) {
            TimerAction::Rearm { interval } => now += nanos(interval),
            _ => break,
        }
    }
}

#[test]
fn periodic_timer_counts_each_expiration() {
    let mut t = TimerFile::new(true);
    let s = setting((0, 500_000_000), (1, 0));
    let action = t.set(s, false).unwrap();
    assert_eq!(t.state(), TimerState::ArmedPeriodic);
    // Expirations fall at 1.0 s, 1.5 s, 2.0 s and 2.5 s.
    run_loop(&mut t, action, 2_500_000_000);
    assert_eq!(t.read_expirations(), Ok(Some(4)));
    assert_eq!(t.expirations(), 0);
    assert_eq!(t.read_expirations(), Err(Error::WouldBlock));
    assert_eq!(t.current_spec(), s);
}

#[test]
fn one_shot_timer_expires_once_then_disarms() {
    let mut t = TimerFile::new(false);
    let action = t.set(setting((0, 0), (0, 1_000)), false).unwrap();
    assert_eq!(t.state(), TimerState::ArmedOneShot);
    let token = match action {
        TimerAction::Start { token, first, absolute } => {
            assert_eq!(first, TimeSpan::new(0, 1_000));
            assert!(!absolute);
            token
        }
        _ => panic!("timer not started"),
    };
    assert_eq!(t.on_expire(token), TimerAction::Stop);
    assert_eq!(t.state(), TimerState::Disarmed);
    assert_eq!(t.current_spec(), itimerspec_t::zero());
    assert_eq!(t.on_expire(token), TimerAction::Stop);
    assert_eq!(t.read_expirations(), Ok(Some(1)));
    assert_eq!(t.read_expirations(), Ok(None));
}

#[test]
fn one_shot_non_blocking_read_would_block() {
    let mut t = TimerFile::new(true);
    let action = t.set(setting((0, 0), (1, 0)), true).unwrap();
    run_loop(&mut t, action, 10_000_000_000);
    assert_eq!(t.read_expirations(), Ok(Some(1)));
    assert_eq!(t.read_expirations(), Err(Error::WouldBlock));
}

#[test]
fn no_expiration_counts_after_disarm() {
    let mut t = TimerFile::new(true);
    let token = match t.set(setting((1, 0), (1, 0)), false).unwrap() {
        TimerAction::Start { token, .. } => token,
        _ => panic!("timer not started"),
    };
    assert_eq!(t.on_expire(token), TimerAction::Rearm { interval: TimeSpan::new(1, 0) });
    assert_eq!(t.disarm(), TimerAction::Stop);
    assert_eq!(t.on_expire(token), TimerAction::Stop);
    assert_eq!(t.on_expire(token.wrapping_add(1)), TimerAction::Stop);
    assert_eq!(t.expirations(), 1);
    assert_eq!(t.state(), TimerState::Disarmed);
    assert_eq!(t.current_spec(), itimerspec_t::zero());
}

#[test]
fn rearming_cancels_the_old_loop() {
    let mut t = TimerFile::new(true);
    let first = match t.set(setting((1, 0), (1, 0)), false).unwrap() {
        TimerAction::Start { token, .. } => token,
        _ => panic!("timer not started"),
    };
    let second = match t.set(setting((2, 0), (3, 0)), true).unwrap() {
        TimerAction::Start { token, absolute, .. } => {
            assert!(absolute);
            token
        }
        _ => panic!("timer not started"),
    };
    assert_ne!(first, second);
    assert_eq!(t.on_expire(first), TimerAction::Stop);
    assert_eq!(t.expirations(), 0);
    assert_eq!(t.on_expire(second), TimerAction::Rearm { interval: TimeSpan::new(2, 0) });
    assert_eq!(t.expirations(), 1);
}

#[test]
fn zero_value_disarms_and_bad_setting_changes_nothing() {
    let mut t = TimerFile::new(true);
    let s = setting((0, 0), (5, 0));
    t.set(s, false).unwrap();
    let bad = itimerspec_t { it_interval: timespec_t::from(-1i64), it_value: timespec_t::new(1, 0) };
    assert_eq!(t.set(bad, false), Err(Error::InvalidArgument));
    assert_eq!(t.current_spec(), s);
    assert_eq!(t.set(setting((4, 0), (0, 0)), false), Ok(TimerAction::Stop));
    assert_eq!(t.state(), TimerState::Disarmed);
    assert_eq!(t.current_spec(), itimerspec_t::zero());
}

#[test]
fn open_masks_mode_and_reads_close_on_exec() {
    let r = do_openat(O_CLOEXEC | 0o2, 0o666, 0o022);
    assert_eq!(r.mode, 0o644);
    assert!(r.close_on_spawn);
    assert_eq!(r.flags, O_CLOEXEC | 0o2);
    let r2 = do_openat(0, 0o777, 0o077);
    assert_eq!(r2.mode, 0o700);
    assert!(!r2.close_on_spawn);
}
