use keyboard_firmware::report::{KeyEvent, LedReportState};
use keyboard_firmware::scheduler::{Action, SchedulerError};
use keyboard_firmware::sim::{tally, Board, SessionScript, Simulation, Totals, Turn};

fn quiet_host() -> SessionScript {
    SessionScript {
        accepts_report: true,
        scan_tick_ok: true,
        bus_active: false,
        indicators: None,
    }
}

fn bus_never_ready() -> SessionScript {
    SessionScript {
        accepts_report: false,
        scan_tick_ok: true,
        bus_active: false,
        indicators: None,
    }
}

#[test]
fn power_on_lights_the_led_and_starts_the_scheduler() {
    let sim = Simulation::power_on(0);
    assert_eq!(
        sim.board(),
        Board {
            led_high: true,
            timer_expired: false
        }
    );
    assert_eq!(sim.scheduler().pending(), Action::PollKeyTimer);
    assert_eq!(sim.scheduler().rejected_reports(), 0);
}

#[test]
fn each_firing_inverts_the_led_once() {
    let mut sim = Simulation::power_on(0);
    assert!(!sim.heartbeat_is_armed());
    let mut expected = true;
    for _ in 0..9 {
        sim.interrupt();
        assert!(sim.heartbeat_is_armed());
        expected = !expected;
        assert_eq!(sim.board().led_high, expected);
        assert!(!sim.board().timer_expired);
    }
    assert!(!sim.board().led_high);
}

#[test]
fn foreground_iterations_never_change_the_led() {
    let mut sim = Simulation::power_on(0);
    sim.interrupt();
    let before = sim.board();
    let busy = SessionScript {
        accepts_report: false,
        scan_tick_ok: true,
        bus_active: true,
        indicators: None,
    };
    for now in 1..=3000u64 {
        assert!(sim.iterate(now, &busy).is_ok());
        assert_eq!(sim.board(), before);
    }
}

#[test]
fn firing_before_or_after_an_iteration_makes_no_difference() {
    let mut first = Simulation::power_on(0);
    let mut second = Simulation::power_on(0);
    first.interrupt();
    let early = first.iterate(1000, &quiet_host());
    let late = second.iterate(1000, &quiet_host());
    second.interrupt();
    assert_eq!(early, late);
    assert_eq!(first.board(), second.board());
    assert_eq!(first.heartbeat_is_armed(), second.heartbeat_is_armed());
    assert_eq!(
        first.scheduler().rejected_reports(),
        second.scheduler().rejected_reports()
    );
}

#[test]
fn expiry_flag_stays_raised_until_the_interrupt_is_serviced() {
    let mut sim = Simulation::power_on(0);
    assert!(!sim.clock_heartbeat(999));
    assert!(sim.clock_heartbeat(1000));
    assert!(sim.clock_heartbeat(1001));
    assert!(sim.board().timer_expired);
    assert!(sim.board().led_high);
    sim.interrupt();
    assert!(!sim.board().timer_expired);
    assert!(!sim.board().led_high);
    assert!(!sim.clock_heartbeat(1002));
    assert!(sim.clock_heartbeat(2000));
}

#[test]
fn iteration_reports_what_the_timers_decided() {
    let mut sim = Simulation::power_on(0);
    assert_eq!(
        sim.iterate(0, &quiet_host()),
        Ok(Turn {
            key: KeyEvent::NoEvent,
            report_accepted: true,
            scan_advanced: false,
            bus_serviced: false,
        })
    );
    assert_eq!(
        sim.iterate(1, &quiet_host()),
        Ok(Turn {
            key: KeyEvent::NoEvent,
            report_accepted: true,
            scan_advanced: true,
            bus_serviced: false,
        })
    );
    assert_eq!(
        sim.iterate(1000, &quiet_host()),
        Ok(Turn {
            key: KeyEvent::TestSymbol,
            report_accepted: true,
            scan_advanced: true,
            bus_serviced: false,
        })
    );
    assert_eq!(
        sim.iterate(1000, &quiet_host()),
        Ok(Turn {
            key: KeyEvent::NoEvent,
            report_accepted: true,
            scan_advanced: false,
            bus_serviced: false,
        })
    );
}

#[test]
fn key_is_emitted_at_every_thousandth_iteration_only() {
    let mut sim = Simulation::power_on(0);
    for i in 1..=5000u64 {
        let report = sim.tick(i, &quiet_host());
        let expected = if i % 1000 == 0 {
            KeyEvent::TestSymbol
        } else {
            KeyEvent::NoEvent
        };
        match report.turn {
            Ok(turn) => assert_eq!(turn.key, expected),
            Err(_) => panic!("the scan tick did not fail"),
        }
    }
}

#[test]
fn key_emission_counts_from_the_power_on_tick() {
    let mut sim = Simulation::power_on(250);
    let trace = sim.run(250, 2250, &quiet_host());
    assert_eq!(trace.len(), 2000);
    for (index, report) in trace.iter().enumerate() {
        let emitted = matches!(report.turn, Ok(turn) if turn.key == KeyEvent::TestSymbol);
        assert_eq!(emitted, index == 999 || index == 1999);
    }
}

#[test]
fn scan_tick_keeps_its_cadence_under_jitter() {
    let mut sim = Simulation::power_on(0);
    let active = SessionScript {
        accepts_report: true,
        scan_tick_ok: true,
        bus_active: true,
        indicators: None,
    };
    let mut advances = 0u64;
    let mut now = 0u64;
    for step in 0..4000u64 {
        if step % 3 != 0 {
            now += 1;
        }
        let script = if step % 2 == 0 { quiet_host() } else { active };
        match sim.iterate(now, &script) {
            Ok(turn) => {
                if turn.scan_advanced {
                    advances += 1;
                }
            }
            Err(_) => panic!("the scan tick did not fail"),
        }
        assert_eq!(advances, now);
    }
    assert_eq!(now, 2666);
}

#[test]
fn slow_iterations_never_advance_the_scan_tick_more_than_once_per_millisecond() {
    let mut sim = Simulation::power_on(0);
    let times = [1u64, 2, 10, 11, 50, 50, 51, 100];
    let mut advances = 0u64;
    for now in times {
        match sim.iterate(now, &quiet_host()) {
            Ok(turn) => {
                if turn.scan_advanced {
                    advances += 1;
                }
            }
            Err(_) => panic!("the scan tick did not fail"),
        }
        assert!(advances <= now);
    }
    assert_eq!(advances, 7);
}

#[test]
fn busy_session_does_not_stall_the_loop() {
    let mut sim = Simulation::power_on(0);
    for now in 1..=10u64 {
        assert_eq!(
            sim.iterate(now, &bus_never_ready()),
            Ok(Turn {
                key: KeyEvent::NoEvent,
                report_accepted: false,
                scan_advanced: true,
                bus_serviced: false,
            })
        );
        assert_eq!(sim.scheduler().rejected_reports(), now);
        assert_eq!(sim.scheduler().pending(), Action::PollKeyTimer);
    }
    assert_eq!(
        sim.iterate(11, &quiet_host()),
        Ok(Turn {
            key: KeyEvent::NoEvent,
            report_accepted: true,
            scan_advanced: true,
            bus_serviced: false,
        })
    );
    assert_eq!(sim.scheduler().rejected_reports(), 10);
}

#[test]
fn busy_and_free_sessions_differ_in_the_counter_only() {
    let mut busy = Simulation::power_on(0);
    let mut free = Simulation::power_on(0);
    let busy_trace = busy.run(0, 1500, &bus_never_ready());
    let free_trace = free.run(0, 1500, &quiet_host());
    assert_eq!(tally(&busy_trace), tally(&free_trace));
    assert_eq!(busy.board(), free.board());
    assert_eq!(busy.scheduler().pending(), free.scheduler().pending());
    assert_eq!(busy.scheduler().rejected_reports(), 1500);
    assert_eq!(free.scheduler().rejected_reports(), 0);
}

#[test]
fn two_and_a_half_seconds_with_a_bus_that_is_never_ready() {
    let mut sim = Simulation::power_on(0);
    let trace = sim.run(0, 2500, &bus_never_ready());
    assert_eq!(trace.len(), 2500);
    assert_eq!(
        tally(&trace),
        Totals {
            keys_emitted: 2,
            scan_advances: 2500,
            heartbeats: 2,
        }
    );
    for (index, report) in trace.iter().enumerate() {
        let second = index == 999 || index == 1999;
        assert_eq!(report.heartbeat, second);
        match report.turn {
            Ok(turn) => {
                assert_eq!(turn.key.is_key(), second);
                assert!(turn.scan_advanced);
                assert!(!turn.report_accepted);
                assert!(!turn.bus_serviced);
            }
            Err(_) => panic!("the scan tick did not fail"),
        }
    }
    assert!(sim.board().led_high);
    assert!(!sim.board().timer_expired);
    assert_eq!(sim.scheduler().rejected_reports(), 2500);
    assert_eq!(sim.scheduler().empty_reads(), 0);
    assert_eq!(sim.scheduler().indicators(), None);
}

#[test]
fn one_second_inverts_the_led_once() {
    let mut sim = Simulation::power_on(0);
    let trace = sim.run(0, 1999, &quiet_host());
    assert_eq!(tally(&trace).heartbeats, 1);
    assert!(!sim.board().led_high);
}

#[test]
fn run_to_an_earlier_tick_does_nothing() {
    let mut sim = Simulation::power_on(100);
    assert!(sim.run(100, 100, &quiet_host()).is_empty());
    assert!(sim.run(100, 50, &quiet_host()).is_empty());
    assert_eq!(sim.scheduler().pending(), Action::PollKeyTimer);
    let trace = sim.run(100, 101, &quiet_host());
    assert_eq!(trace.len(), 1);
    assert_eq!(tally(&trace).scan_advances, 1);
}

#[test]
fn tally_of_an_empty_trace_is_zero() {
    assert_eq!(
        tally(&Vec::new()),
        Totals {
            keys_emitted: 0,
            scan_advances: 0,
            heartbeats: 0,
        }
    );
}

#[test]
fn indicator_report_is_read_only_when_the_bus_is_active() {
    let lit = LedReportState {
        num_lock: false,
        caps_lock: true,
        scroll_lock: false,
        compose: false,
        kana: false,
    };
    let mut sim = Simulation::power_on(0);
    let silent = SessionScript {
        accepts_report: true,
        scan_tick_ok: true,
        bus_active: false,
        indicators: Some(lit),
    };
    assert!(sim.iterate(1, &silent).is_ok());
    assert_eq!(sim.scheduler().indicators(), None);
    let active = SessionScript {
        bus_active: true,
        ..silent
    };
    assert_eq!(
        sim.iterate(2, &active),
        Ok(Turn {
            key: KeyEvent::NoEvent,
            report_accepted: true,
            scan_advanced: true,
            bus_serviced: true,
        })
    );
    assert_eq!(sim.scheduler().indicators(), Some(lit));
    let nothing = SessionScript {
        indicators: None,
        ..active
    };
    assert!(sim.iterate(3, &nothing).is_ok());
    assert_eq!(sim.scheduler().indicators(), Some(lit));
    assert_eq!(sim.scheduler().empty_reads(), 1);
}

#[test]
fn failed_scan_tick_halts_the_loop_but_not_the_heartbeat() {
    let mut sim = Simulation::power_on(0);
    let faulty = SessionScript {
        accepts_report: true,
        scan_tick_ok: false,
        bus_active: true,
        indicators: None,
    };
    assert_eq!(sim.iterate(0, &faulty).map(|turn| turn.scan_advanced), Ok(false));
    assert_eq!(sim.scheduler().empty_reads(), 1);
    assert_eq!(sim.iterate(1, &faulty), Err(SchedulerError::ScanFault));
    assert!(sim.scheduler().is_halted());
    assert_eq!(sim.scheduler().empty_reads(), 1);
    assert_eq!(sim.iterate(2, &quiet_host()), Err(SchedulerError::Halted));
    let trace = sim.run(2, 2000, &quiet_host());
    assert_eq!(
        tally(&trace),
        Totals {
            keys_emitted: 0,
            scan_advances: 0,
            heartbeats: 2,
        }
    );
    assert!(trace.iter().all(|report| report.turn == Err(SchedulerError::Halted)));
    assert!(sim.board().led_high);
}
