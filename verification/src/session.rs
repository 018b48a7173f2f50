//! The Pomodoro session state machine.
//!
//! A session walks a fixed, linear sequence of phases.  Each phase except
//! the terminal one contributes one step: a notification to post and a
//! duration to suspend for afterwards.  The state machine takes no input
//! while it runs — in particular, whether a notification was delivered
//! never affects its progression.

use vstd::prelude::*;

use crate::text::Notice;
use crate::trigger::trigger_spec;

verus! {

/// The largest minute count a duration may be configured with, chosen so
/// that a duration converted to seconds still fits in a `u64`.
pub const MAX_MINUTES: u64 = u64::MAX / 60;

/// The duration table of a session: how long each interval lasts, in
/// minutes, and how many work/short-break cycles precede the long break.
#[derive(Clone, Copy, Debug, PartialEq, Eq, Structural)]
pub struct Config {
    pub work_minutes: u64,
    pub short_break_minutes: u64,
    pub long_break_minutes: u64,
    pub cycles_before_long_break: u64,
}

impl Config {
    /// A configuration is well formed when every duration is positive and
    /// small enough to express in seconds, and at least one cycle runs.
    pub open spec fn wf(self) -> bool {
        &&& 1 <= self.work_minutes <= MAX_MINUTES
        &&& 1 <= self.short_break_minutes <= MAX_MINUTES
        &&& 1 <= self.long_break_minutes <= MAX_MINUTES
        &&& 1 <= self.cycles_before_long_break
    }

    /// The default duration table: 25-minute work periods, 5-minute short
    /// breaks, a 15-minute long break after 4 cycles.
    pub fn default_table() -> (c: Config)
        ensures
            c == default_config(),
            c.wf(),
    {
        Config {
            work_minutes: 25,
            short_break_minutes: 5,
            long_break_minutes: 15,
            cycles_before_long_break: 4,
        }
    }
}

/// The default duration table as a specification value.
pub open spec fn default_config() -> Config {
    Config {
        work_minutes: 25,
        short_break_minutes: 5,
        long_break_minutes: 15,
        cycles_before_long_break: 4,
    }
}

/// Where a session stands.  `Start` through `Complete` mark the phase whose
/// notification and suspension are about to be performed; `Done` means the
/// completion notice has been posted and nothing remains.  The index on
/// `Work` and `ShortBreak` is the 0-based cycle number.
#[derive(Clone, Copy, Debug, PartialEq, Eq, Structural)]
pub enum Phase {
    Start,
    Work(u64),
    ShortBreak(u64),
    LongBreak,
    Complete,
    Done,
}

/// A phase is well formed under a configuration when its cycle index, if it
/// has one, lies below the configured cycle count.
pub open spec fn phase_wf(p: Phase, cfg: Config) -> bool {
    match p {
        Phase::Work(i) => i < cfg.cycles_before_long_break,
        Phase::ShortBreak(i) => i < cfg.cycles_before_long_break,
        _ => true,
    }
}

/// The phase a session moves to once the current phase's notification and
/// suspension are behind it.  The sequence is linear: work and short-break
/// phases alternate for the configured number of cycles, then the long
/// break, then completion.
pub open spec fn next_phase(p: Phase, cfg: Config) -> Phase {
    match p {
        Phase::Start => Phase::Work(0),
        Phase::Work(i) => Phase::ShortBreak(i),
        Phase::ShortBreak(i) => if i + 1 < cfg.cycles_before_long_break {
            Phase::Work((i + 1) as u64)
        } else {
            Phase::LongBreak
        },
        Phase::LongBreak => Phase::Complete,
        Phase::Complete => Phase::Done,
        Phase::Done => Phase::Done,
    }
}

/// One step of a session: the notification to post, then the number of
/// seconds to suspend for before the next step.  The final step of a
/// session suspends for zero seconds.
#[derive(Clone, Copy, Debug, PartialEq, Eq, Structural)]
pub struct Step {
    pub notice: Notice,
    pub sleep_secs: u64,
}

/// The step performed in a phase: which notification it posts and how long
/// it suspends afterwards.  The announcement of a session and its
/// completion notice take no suspension.
pub open spec fn step_of(p: Phase, cfg: Config) -> Step {
    match p {
        Phase::Start => Step { notice: Notice::SessionStart, sleep_secs: 0 },
        Phase::Work(i) => Step {
            notice: Notice::WorkStart((i + 1) as u64),
            sleep_secs: (cfg.work_minutes * 60) as u64,
        },
        Phase::ShortBreak(i) => Step {
            notice: Notice::ShortBreakStart,
            sleep_secs: (cfg.short_break_minutes * 60) as u64,
        },
        Phase::LongBreak => Step {
            notice: Notice::LongBreakStart,
            sleep_secs: (cfg.long_break_minutes * 60) as u64,
        },
        Phase::Complete => Step { notice: Notice::SessionComplete, sleep_secs: 0 },
        Phase::Done => Step { notice: Notice::SessionComplete, sleep_secs: 0 },
    }
}

/// How many steps remain from a phase, counting the phase itself.  Total in
/// the phase so that the trace below terminates on every input; on well
/// formed phases it equals the number of steps the session still performs.
pub open spec fn steps_left(p: Phase, cfg: Config) -> nat {
    let c = cfg.cycles_before_long_break as nat;
    match p {
        Phase::Start => 2 * c + 5,
        Phase::Work(i) => if i < c {
            (2 * (c - i) + 2) as nat
        } else {
            4
        },
        Phase::ShortBreak(i) => if i < c {
            (2 * (c - i) + 1) as nat
        } else {
            3
        },
        Phase::LongBreak => 2,
        Phase::Complete => 1,
        Phase::Done => 0,
    }
}

/// The full sequence of steps a session performs from a given phase to the
/// end, in order.
pub open spec fn trace_from(p: Phase, cfg: Config) -> Seq<Step>
    decreases steps_left(p, cfg),
{
    if p is Done {
        Seq::empty()
    } else {
        seq![step_of(p, cfg)] + trace_from(next_phase(p, cfg), cfg)
    }
}

/// Everything a session with the given configuration does, in order: the
/// notifications it posts and the suspensions between them.
pub open spec fn schedule(cfg: Config) -> Seq<Step> {
    trace_from(Phase::Start, cfg)
}

/// One Pomodoro session: a duration table and the phase it stands in.
/// Sessions are independent values; running one never touches another.
#[derive(Clone, Copy, Debug, PartialEq, Eq, Structural)]
pub struct Session {
    pub config: Config,
    pub phase: Phase,
}

impl Session {
    /// A session is well formed when its configuration is and its phase
    /// fits that configuration.
    pub open spec fn wf(self) -> bool {
        self.config.wf() && phase_wf(self.phase, self.config)
    }

    /// A fresh session at the beginning of its phase sequence.
    pub fn new(config: Config) -> (s: Session)
        requires
            config.wf(),
        ensures
            s == (Session { config, phase: Phase::Start }),
            s.wf(),
    {
        Session { config, phase: Phase::Start }
    }

    /// Performs one step: returns the notification and suspension of the
    /// current phase and advances to the next, or `None` once the session
    /// has nothing left to do.  The result depends on the session alone —
    /// in particular, no notification outcome is consulted, so a failed
    /// send can never alter the session's progression.
    pub fn step(&mut self) -> (r: Option<Step>)
        requires
            old(self).wf(),
        ensures
            final(self).wf(),
            final(self).config == old(self).config,
            old(self).phase is Done ==> r is None && final(self).phase is Done,
            !(old(self).phase is Done) ==> r == Some(step_of(old(self).phase, old(self).config))
                && final(self).phase == next_phase(old(self).phase, old(self).config),
    {
        let cfg = self.config;
        match self.phase {
            Phase::Start => {
                self.phase = Phase::Work(0);
                Some(Step { notice: Notice::SessionStart, sleep_secs: 0 })
            },
            Phase::Work(i) => {
                self.phase = Phase::ShortBreak(i);
                Some(
                    Step {
                        notice: Notice::WorkStart(i + 1),
                        sleep_secs: cfg.work_minutes * 60,
                    },
                )
            },
            Phase::ShortBreak(i) => {
                if i + 1 < cfg.cycles_before_long_break {
                    self.phase = Phase::Work(i + 1);
                } else {
                    self.phase = Phase::LongBreak;
                }
                Some(
                    Step {
                        notice: Notice::ShortBreakStart,
                        sleep_secs: cfg.short_break_minutes * 60,
                    },
                )
            },
            Phase::LongBreak => {
                self.phase = Phase::Complete;
                Some(
                    Step {
                        notice: Notice::LongBreakStart,
                        sleep_secs: cfg.long_break_minutes * 60,
                    },
                )
            },
            Phase::Complete => {
                self.phase = Phase::Done;
                Some(Step { notice: Notice::SessionComplete, sleep_secs: 0 })
            },
            Phase::Done => None,
        }
    }

    /// True once the session has performed every step.
    pub fn is_done(&self) -> (r: bool)
        ensures
            r == (self.phase is Done),
    {
        matches!(self.phase, Phase::Done)
    }
}

/// The complete run of a session with the given configuration, as data:
/// every step a session performs, in order.  Drivers post each step's
/// notification (ignoring delivery failures) and then suspend for its
/// duration.
pub fn plan(config: Config) -> (r: Vec<Step>)
    requires
        config.wf(),
    ensures
        r@ == schedule(config),
{
    let mut session = Session::new(config);
    let mut out: Vec<Step> = Vec::new();
    loop
        invariant_except_break
            session.wf(),
            session.config == config,
            out@ + trace_from(session.phase, config) == schedule(config),
        ensures
            out@ == schedule(config),
        decreases steps_left(session.phase, config),
    {
        match session.step() {
            Some(step) => {
                out.push(step);
                proof {
                    assert(out@ + trace_from(session.phase, config) =~= schedule(config));
                }
            },
            None => {
                proof {
                    assert(out@ =~= schedule(config));
                }
                break;
            },
        }
    }
    out
}

/// Reacts to one inbound message: a fresh session for the exact trigger
/// command, `None` — no session, hence no notification — for anything
/// else.
pub fn handle_message(text: &str, config: Config) -> (r: Option<Session>)
    requires
        config.wf(),
    ensures
        text@ == trigger_spec() ==> r == Some(Session { config, phase: Phase::Start }),
        text@ != trigger_spec() ==> r is None,
{
    if crate::trigger::is_trigger(text) {
        Some(Session::new(config))
    } else {
        None
    }
}

/// Reacts to one inbound message and plans the whole session at once: the
/// full step sequence for the exact trigger command, `None` for anything
/// else.
pub fn respond(text: &str, config: Config) -> (r: Option<Vec<Step>>)
    requires
        config.wf(),
    ensures
        text@ == trigger_spec() ==> r is Some && r->Some_0@ == schedule(config),
        text@ != trigger_spec() ==> r is None,
{
    if crate::trigger::is_trigger(text) {
        Some(plan(config))
    } else {
        None
    }
}

} // verus!
