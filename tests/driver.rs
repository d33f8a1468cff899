use mcs::error::Error;
use mcs::mp_789a_4::{Motion, Mp789a4, Mp789a4Virtual, Step};
use mcs::serial::Request;

const LIMIT_QUERY: &[u8] = b"]\r";
const MOTION_QUERY: &[u8] = b"^\r";

fn write(bytes: &[u8], settle_ms: u64) -> Request {
    Request::Write { bytes: bytes.to_vec(), settle_ms }
}

fn write_read(bytes: &[u8]) -> Request {
    Request::WriteRead { bytes: bytes.to_vec(), settle_ms: 50 }
}

fn connected() -> Mp789a4 {
    match Mp789a4::new("sim".to_string(), b" #\r\n") {
        Ok(d) => d,
        Err(e) => panic!("handshake refused: {:?}", e),
    }
}

/// A stage that starts with the home flag clear, reaches it after a few
/// polls of the downward scan, and is still for every motion query.
struct Stage {
    limit_queries: usize,
}

impl Stage {
    fn reply(&mut self, req: &Request) -> Vec<u8> {
        match req {
            Request::WriteRead { bytes, .. } if bytes.as_slice() == LIMIT_QUERY => {
                self.limit_queries += 1;
                match self.limit_queries {
                    1 => b"0\r".to_vec(),
                    2 | 3 => b"2\r".to_vec(),
                    _ => b"34\r".to_vec(),
                }
            }
            Request::WriteRead { bytes, .. } if bytes.as_slice() == MOTION_QUERY => b"0\r".to_vec(),
            Request::WriteRead { .. } => b"\r\n".to_vec(),
            _ => Vec::new(),
        }
    }
}

/// Runs the operation under the move gate to its end; returns its result
/// and every request it handed out, the first included.
fn run(d: &mut Mp789a4, first: Request, device: &mut dyn FnMut(&Request) -> Vec<u8>) -> (Result<(), Error>, Vec<Request>) {
    let mut log = Vec::new();
    let mut req = first;
    for _ in 0..1000 {
        let reply = device(&req);
        log.push(req);
        match d.resume(Ok(reply)) {
            Step::Perform(next) => req = next,
            Step::Finished(res) => return (res, log),
        }
    }
    panic!("operation did not end");
}

fn homed() -> Mp789a4 {
    let mut d = connected();
    let first = d.home().unwrap();
    let mut stage = Stage { limit_queries: 0 };
    let (res, _) = run(&mut d, first, &mut |r| stage.reply(r));
    assert_eq!(res, Ok(()));
    d
}

fn writes(log: &[Request]) -> Vec<Vec<u8>> {
    log.iter()
        .filter_map(|r| match r {
            Request::Write { bytes, .. } => Some(bytes.clone()),
            _ => None,
        })
        .collect()
}

fn move_and_finish(d: &mut Mp789a4, target: i64, backlash: i64) -> (Result<(), Error>, Vec<Request>) {
    assert!(d.can_move_to(target, backlash));
    let first = d.move_to(target, backlash).unwrap();
    run(d, first, &mut |r| match r {
        Request::WriteRead { .. } => b"0\r".to_vec(),
        _ => Vec::new(),
    })
}

#[test]
fn handshake_accepts_both_firmware_replies() {
    assert!(Mp789a4::new("sim".to_string(), b" v2.55\r\n#\r\n").is_ok());
    assert!(Mp789a4::new("sim".to_string(), b" #\r\n").is_ok());
}

#[test]
fn malformed_handshake_fails_before_homing() {
    match Mp789a4::new("sim".to_string(), b"?\r\n") {
        Err(e) => assert_eq!(e, Error::Handshake),
        Ok(_) => panic!("a malformed reply was accepted"),
    }
    assert!(Mp789a4::new("sim".to_string(), b"").is_err());
}

#[test]
fn identification_probe_is_space_cr() {
    assert_eq!(Mp789a4::identification_probe(), write_read(b" \r"));
}

#[test]
fn new_driver_is_idle_at_zero() {
    let d = connected();
    assert!(!d.is_homing());
    assert!(!d.is_homed());
    assert!(!d.is_busy());
    assert_eq!(d.get_position(), 0);
    assert_eq!(d.short_name(), "MP789A4");
    assert_eq!(d.long_name(), "McPherson 789A-4");
    assert_eq!(d.port_name(), "sim");
}

#[test]
fn homing_from_clear_flag_sends_the_documented_sequence() {
    let mut d = connected();
    assert!(!d.is_homing());
    let first = d.home().unwrap();
    assert!(d.is_homing());
    let mut stage = Stage { limit_queries: 0 };
    let (res, log) = run(&mut d, first, &mut |r| stage.reply(r));
    assert_eq!(res, Ok(()));
    assert!(!d.is_homing());
    assert!(d.is_homed());
    assert_eq!(d.get_position(), 0);
    let expected = vec![
        write_read(b"A1\r"),
        write_read(LIMIT_QUERY),
        write(b"M-23000\r", 50),
        write_read(LIMIT_QUERY),
        Request::Sleep { ms: 800 },
        write_read(LIMIT_QUERY),
        Request::Sleep { ms: 800 },
        write_read(LIMIT_QUERY),
        write(b"@\r", 50),
        write(b"-108000\r", 50),
        write(b"+72000\r", 50),
        write(b"A24\r", 50),
        write(b"F1000,0\r", 350),
        write(b"A0\r", 50),
        write_read(MOTION_QUERY),
        write_read(MOTION_QUERY),
    ];
    assert_eq!(log, expected);
}

#[test]
fn homing_from_blocked_flag_scans_upward() {
    let mut d = connected();
    let first = d.home().unwrap();
    let mut n = 0;
    let (res, log) = run(&mut d, first, &mut |r| match r {
        Request::WriteRead { bytes, .. } if bytes.as_slice() == LIMIT_QUERY => {
            n += 1;
            if n == 1 { b"32\r".to_vec() } else { b"0\r".to_vec() }
        }
        Request::WriteRead { .. } => b"0\r".to_vec(),
        _ => Vec::new(),
    });
    assert_eq!(res, Ok(()));
    assert_eq!(log[2], write(b"M+23000\r", 50));
    assert_eq!(d.get_position(), 0);
}

#[test]
fn homing_from_unknown_status_fails_with_protocol_error() {
    let mut d = connected();
    let first = d.home().unwrap();
    let (res, log) = run(&mut d, first, &mut |r| match r {
        Request::WriteRead { .. } => b"+32\r".to_vec(),
        _ => Vec::new(),
    });
    assert_eq!(res, Err(Error::Protocol));
    assert_eq!(log.len(), 2);
    assert!(!d.is_homing());
    assert!(!d.is_busy());
    assert!(!d.is_homed());
}

#[test]
fn homing_into_extreme_limit_fails_with_limit_error() {
    let mut d = connected();
    let first = d.home().unwrap();
    let mut n = 0;
    let (res, _) = run(&mut d, first, &mut |r| match r {
        Request::WriteRead { bytes, .. } if bytes.as_slice() == LIMIT_QUERY => {
            n += 1;
            if n == 1 { b"0\r".to_vec() } else { b"64\r".to_vec() }
        }
        _ => Vec::new(),
    });
    assert_eq!(res, Err(Error::Limit));
    assert!(!d.is_homing());
}

#[test]
fn transport_failure_ends_homing_unchanged() {
    let mut d = connected();
    d.home().unwrap();
    assert!(d.is_homing());
    assert_eq!(d.resume(Err(Error::Io)), Step::Finished(Err(Error::Io)));
    assert!(!d.is_homing());
    assert!(!d.is_busy());
}

/// Homes with the given number of moving replies in the settle loop after
/// a settle check that sees motion; returns the soft stops written.
fn soft_stops_with_settle_failures(failures: usize) -> Vec<Request> {
    let mut d = connected();
    let first = d.home().unwrap();
    let mut stage = Stage { limit_queries: 0 };
    let mut motion_queries = 0;
    let (res, log) = run(&mut d, first, &mut |r| match r {
        Request::WriteRead { bytes, .. } if bytes.as_slice() == MOTION_QUERY => {
            motion_queries += 1;
            if motion_queries <= failures + 1 { b"2\r".to_vec() } else { b"0\r".to_vec() }
        }
        _ => stage.reply(r),
    });
    assert_eq!(res, Ok(()));
    assert_eq!(d.get_position(), 0);
    log.into_iter().filter(|r| matches!(r, Request::Write { bytes, .. } if bytes.as_slice() == b"@\r")).collect()
}

#[test]
fn settle_loop_resends_on_fourth_failed_check() {
    // the stop at the flag, the extra one after the settle check, one repeat
    assert_eq!(soft_stops_with_settle_failures(4).len(), 3);
    assert_eq!(soft_stops_with_settle_failures(3).len(), 2);
    assert_eq!(soft_stops_with_settle_failures(0).len(), 2);
    assert_eq!(soft_stops_with_settle_failures(7).len(), 3);
    assert_eq!(soft_stops_with_settle_failures(8).len(), 4);
}

#[test]
fn upward_scan_keeps_polling_through_home_flag_codes() {
    let mut d = connected();
    let first = d.home().unwrap();
    let mut n = 0;
    let (res, log) = run(&mut d, first, &mut |r| match r {
        Request::WriteRead { bytes, .. } if bytes.as_slice() == LIMIT_QUERY => {
            n += 1;
            match n {
                1 | 2 => b"32\r".to_vec(),
                3 => b"34\r".to_vec(),
                _ => b"2\r".to_vec(),
            }
        }
        Request::WriteRead { .. } => b"0\r".to_vec(),
        _ => Vec::new(),
    });
    assert_eq!(res, Ok(()));
    assert_eq!(log[2], write(b"M+23000\r", 50));
    assert_eq!(log[3], write_read(LIMIT_QUERY));
    assert_eq!(log[4], Request::Sleep { ms: 800 });
    assert_eq!(log[5], write_read(LIMIT_QUERY));
    assert_eq!(log[6], Request::Sleep { ms: 800 });
    assert_eq!(log[7], write_read(LIMIT_QUERY));
    assert_eq!(log[8], write(b"@\r", 50));
}

#[test]
fn upward_scan_into_extreme_limit_fails() {
    let mut d = connected();
    let first = d.home().unwrap();
    let mut n = 0;
    let (res, log) = run(&mut d, first, &mut |r| match r {
        Request::WriteRead { bytes, .. } if bytes.as_slice() == LIMIT_QUERY => {
            n += 1;
            if n == 1 { b"32\r".to_vec() } else { b"128\r".to_vec() }
        }
        _ => Vec::new(),
    });
    assert_eq!(res, Err(Error::Limit));
    assert_eq!(writes(&log), vec![b"M+23000\r".to_vec()]);
    assert!(!d.is_homing());
    assert_eq!(d.get_position(), 0);
}

#[test]
fn motion_is_queried_during_home() {
    let mut d = connected();
    d.home().unwrap();
    match d.is_moving() {
        Motion::Ask(q) => assert_eq!(q, write_read(MOTION_QUERY)),
        Motion::Moving => panic!("only a move answers without a query"),
    }
    assert!(d.motion_reply(b"34\r"));
    assert!(d.is_homing());
}

#[test]
fn move_before_home_is_refused() {
    let mut d = connected();
    assert_eq!(d.move_to(10, 0), Err(Error::NotHomed));
    assert!(!d.is_busy());
    assert_eq!(d.get_position(), 0);
}

#[test]
fn move_out_of_range_is_refused() {
    let mut d = homed();
    assert_eq!(d.move_to(i64::MIN, 1), Err(Error::OutOfRange));
    assert!(!d.is_busy());
    move_and_finish(&mut d, -5, 0);
    assert_eq!(d.move_to(i64::MAX, 0), Err(Error::OutOfRange));
    assert_eq!(d.get_position(), -5);
}

#[test]
fn move_up_without_backlash_is_one_command() {
    let mut d = homed();
    let (res, log) = move_and_finish(&mut d, 1000, 0);
    assert_eq!(res, Ok(()));
    assert_eq!(writes(&log), vec![b"+1000\r".to_vec()]);
    assert_eq!(d.get_position(), 1000);
    assert!(!d.is_busy());
}

#[test]
fn move_down_with_backlash_overshoots_then_returns() {
    let mut d = homed();
    move_and_finish(&mut d, 1000, 0);
    let (res, log) = move_and_finish(&mut d, 500, 200);
    assert_eq!(res, Ok(()));
    assert_eq!(writes(&log), vec![b"-700\r".to_vec(), b"+200\r".to_vec()]);
    assert_eq!(d.get_position(), 500);
}

#[test]
fn move_down_without_backlash_is_one_command() {
    let mut d = homed();
    move_and_finish(&mut d, 1000, 0);
    let (_, log) = move_and_finish(&mut d, 400, 0);
    assert_eq!(writes(&log), vec![b"-600\r".to_vec()]);
    assert_eq!(d.get_position(), 400);
}

#[test]
fn move_up_ignores_backlash() {
    let mut d = homed();
    let (_, log) = move_and_finish(&mut d, 250, 90);
    assert_eq!(writes(&log), vec![b"+250\r".to_vec()]);
    assert_eq!(d.get_position(), 250);
}

#[test]
fn move_to_current_position_sends_no_command() {
    let mut d = homed();
    let (res, log) = move_and_finish(&mut d, 0, 50);
    assert_eq!(res, Ok(()));
    assert!(writes(&log).is_empty());
    assert_eq!(log, vec![write_read(MOTION_QUERY)]);
    assert_eq!(d.get_position(), 0);
}

#[test]
fn move_waits_while_device_reports_motion() {
    let mut d = homed();
    let first = d.move_to(30, 0).unwrap();
    assert!(d.is_busy());
    let mut polls = 0;
    let (res, log) = run(&mut d, first, &mut |r| match r {
        Request::WriteRead { .. } => {
            polls += 1;
            if polls < 3 { b"2\r".to_vec() } else { b"0\r".to_vec() }
        }
        _ => Vec::new(),
    });
    assert_eq!(res, Ok(()));
    assert_eq!(log.iter().filter(|r| **r == Request::Sleep { ms: 500 }).count(), 2);
    assert_eq!(d.get_position(), 30);
}

#[test]
fn failure_mid_move_clears_moving() {
    let mut d = homed();
    d.move_to(-20, 5).unwrap();
    assert!(matches!(d.is_moving(), Motion::Moving));
    assert_eq!(d.resume(Err(Error::Io)), Step::Finished(Err(Error::Io)));
    assert!(!d.is_busy());
    assert!(matches!(d.is_moving(), Motion::Ask(_)));
    assert_eq!(d.get_position(), 0);
}

#[test]
fn move_during_home_is_busy() {
    let mut d = connected();
    let first = d.home().unwrap();
    assert_eq!(first, write_read(b"A1\r"));
    assert_eq!(d.move_to(10, 0), Err(Error::Busy));
    assert_eq!(d.home(), Err(Error::Busy));
    assert!(d.is_homing());
    let mut stage = Stage { limit_queries: 0 };
    let (res, _) = run(&mut d, first, &mut |r| stage.reply(r));
    assert_eq!(res, Ok(()));
    assert_eq!(d.get_position(), 0);
}

#[test]
fn home_during_move_is_busy() {
    let mut d = homed();
    d.move_to(10, 0).unwrap();
    assert_eq!(d.home(), Err(Error::Busy));
    assert!(!d.is_homing());
}

#[test]
fn stop_writes_soft_stop_three_times() {
    let mut d = homed();
    let mut log = vec![d.stop().unwrap()];
    loop {
        match d.resume_stop(Ok(Vec::new())) {
            Step::Perform(r) => log.push(r),
            Step::Finished(res) => {
                assert_eq!(res, Ok(()));
                break;
            }
        }
    }
    assert_eq!(log, vec![write(b"@\r", 50), write(b"@\r", 50), write(b"@\r", 50)]);
    assert!(!d.is_stopping());
}

#[test]
fn stop_while_stopping_is_busy() {
    let mut d = homed();
    d.stop().unwrap();
    assert!(d.is_stopping());
    assert_eq!(d.stop(), Err(Error::Busy));
    assert_eq!(d.resume_stop(Err(Error::Io)), Step::Finished(Err(Error::Io)));
    assert!(d.stop().is_ok());
}

#[test]
fn stop_during_move_then_stationary() {
    let mut d = homed();
    let first = d.move_to(5000, 0).unwrap();
    assert_eq!(first, write(b"+5000\r", 50));
    // the move's command went out; the stop runs on its own gate
    let mut stops = vec![d.stop().unwrap()];
    while let Step::Perform(r) = d.resume_stop(Ok(Vec::new())) {
        stops.push(r);
    }
    assert_eq!(stops, vec![write(b"@\r", 50), write(b"@\r", 50), write(b"@\r", 50)]);
    assert!(d.is_busy());
    assert_eq!(d.resume(Ok(Vec::new())), Step::Perform(write_read(MOTION_QUERY)));
    assert_eq!(d.resume(Ok(b"0\r".to_vec())), Step::Finished(Ok(())));
    match d.is_moving() {
        Motion::Ask(q) => assert_eq!(q, write_read(MOTION_QUERY)),
        Motion::Moving => panic!("no operation is in flight"),
    }
    assert!(!d.motion_reply(b"0\r"));
    assert!(d.motion_reply(b"2\r"));
    assert!(d.motion_reply(b"0+\r"));
}

#[test]
fn range_check_of_moves() {
    let d = connected();
    assert!(d.can_move_to(i64::MAX, 0));
    assert!(d.can_move_to(i64::MIN, 0));
    assert!(!d.can_move_to(i64::MIN, 1));
    assert!(d.can_move_to(-10, 10));
}

#[test]
fn virtual_driver_moves_at_once() {
    let mut v = Mp789a4Virtual::new("sim".to_string()).unwrap();
    assert_eq!(v.get_position(), 0);
    assert_eq!(v.move_to(1234, 100), Ok(()));
    assert_eq!(v.get_position(), 1234);
    assert!(v.is_moving());
    assert_eq!(v.move_relative(-34), Ok(()));
    assert_eq!(v.get_position(), 1200);
    v.move_to(i64::MAX, 0).unwrap();
    assert_eq!(v.move_relative(1), Err(Error::OutOfRange));
    assert_eq!(v.get_position(), i64::MAX);
    v.move_to(1234, 0).unwrap();
    assert!(!v.is_homing());
    assert_eq!(v.stop(), Ok(()));
    assert_eq!(v.home(), Ok(()));
    assert_eq!(v.get_position(), 0);
    assert_eq!(v.short_name(), "MP789A4");
    assert_eq!(v.long_name(), "McPherson 789A-4");
}
