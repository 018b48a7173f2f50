//! Driving sessions the way a host shell would: posting each step's
//! notification through an injected notifier and suspending through an
//! injected clock, here both mocks that record what was asked of them.

use pomodomo::session::{Config, Session};

struct RecordingNotifier {
    sent: Vec<String>,
    fail: bool,
    failures: u64,
}

impl RecordingNotifier {
    fn new(fail: bool) -> RecordingNotifier {
        RecordingNotifier { sent: Vec::new(), fail, failures: 0 }
    }

    fn send(&mut self, text: String) -> Result<(), String> {
        if self.fail {
            self.failures += 1;
            Err("transport error".to_string())
        } else {
            self.sent.push(text);
            Ok(())
        }
    }
}

struct RecordingClock {
    slept: Vec<u64>,
}

impl RecordingClock {
    fn new() -> RecordingClock {
        RecordingClock { slept: Vec::new() }
    }

    fn sleep_secs(&mut self, secs: u64) {
        // Resolves immediately: only the request is recorded.
        self.slept.push(secs);
    }
}

fn drive(session: &mut Session, notifier: &mut RecordingNotifier, clock: &mut RecordingClock) {
    while let Some(step) = session.step() {
        // Log-and-continue: a failed send never stops the timer.
        let _ = notifier.send(step.notice.text());
        if step.sleep_secs > 0 {
            clock.sleep_secs(step.sleep_secs);
        }
    }
}

#[test]
fn end_to_end_with_mock_clock_and_notifier() {
    let mut session = Session::new(Config::default_table());
    let mut notifier = RecordingNotifier::new(false);
    let mut clock = RecordingClock::new();
    drive(&mut session, &mut notifier, &mut clock);
    assert!(session.is_done());
    assert_eq!(
        notifier.sent,
        vec![
            "Starting pomodoro...".to_string(),
            "Starting work period 1...".to_string(),
            "Taking a short break...".to_string(),
            "Starting work period 2...".to_string(),
            "Taking a short break...".to_string(),
            "Starting work period 3...".to_string(),
            "Taking a short break...".to_string(),
            "Starting work period 4...".to_string(),
            "Taking a short break...".to_string(),
            "Taking a long break...".to_string(),
            "Pomodoro session complete!".to_string(),
        ]
    );
    assert_eq!(clock.slept, vec![1500, 300, 1500, 300, 1500, 300, 1500, 300, 900]);
}

#[test]
fn failing_notifier_does_not_shorten_the_session() {
    let mut session = Session::new(Config::default_table());
    let mut notifier = RecordingNotifier::new(true);
    let mut clock = RecordingClock::new();
    drive(&mut session, &mut notifier, &mut clock);
    assert!(session.is_done());
    assert_eq!(notifier.failures, 11);
    assert_eq!(notifier.sent.len(), 0);
    // Every suspension still happened, for the full configured time.
    assert_eq!(clock.slept.len(), 9);
    let total: u64 = clock.slept.iter().sum();
    assert_eq!(total, 135 * 60);
}

#[test]
fn two_sessions_are_independent() {
    let cfg = Config::default_table();
    let mut a = Session::new(cfg);
    let mut b = Session::new(cfg);
    let mut a_steps = Vec::new();
    let mut b_steps = Vec::new();
    // Interleave the two sessions; each advances only through its own calls.
    loop {
        let sa = a.step();
        if let Some(step) = sa {
            a_steps.push(step);
        }
        let before_b = b;
        let sb = b.step();
        if let Some(step) = sb {
            b_steps.push(step);
        }
        assert_ne!(before_b, b, "an unfinished session must advance");
        if a.is_done() && b.is_done() {
            break;
        }
    }
    assert_eq!(a_steps, b_steps);
    assert_eq!(a_steps.len(), 11);
}

#[test]
fn sequential_triggers_give_two_full_runs() {
    let cfg = Config::default_table();
    for _ in 0..2 {
        let mut session = Session::new(cfg);
        let mut notifier = RecordingNotifier::new(false);
        let mut clock = RecordingClock::new();
        drive(&mut session, &mut notifier, &mut clock);
        assert_eq!(notifier.sent.len(), 11);
        assert_eq!(clock.slept.len(), 9);
    }
}
