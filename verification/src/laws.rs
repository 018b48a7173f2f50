//! General properties of a session's schedule, proved once for every well
//! formed configuration: exactly which step stands at each position, how
//! much time a session spends suspended in total, and which steps suspend
//! at all.

use vstd::prelude::*;

use crate::session::{
    schedule, step_of, steps_left, trace_from, Config, Phase, Step,
};

verus! {

/// The step that stands at position `j` of a schedule: the announcement
/// first, then for each cycle a work step at the odd position and a
/// short-break step at the even one, then the long break, then completion.
pub open spec fn schedule_step(cfg: Config, j: int) -> Step {
    let c = cfg.cycles_before_long_break as int;
    if j == 0 {
        step_of(Phase::Start, cfg)
    } else if j <= 2 * c && j % 2 == 1 {
        step_of(Phase::Work(((j - 1) / 2) as u64), cfg)
    } else if j <= 2 * c {
        step_of(Phase::ShortBreak(((j - 2) / 2) as u64), cfg)
    } else if j == 2 * c + 1 {
        step_of(Phase::LongBreak, cfg)
    } else {
        step_of(Phase::Complete, cfg)
    }
}

/// The step at position `j` of the tail that starts at the work phase of
/// cycle `i`: work and short-break steps alternate for the remaining
/// cycles, then the long break, then completion.
spec fn tail_step(cfg: Config, i: u64, j: int) -> Step {
    let c = cfg.cycles_before_long_break as int;
    if j < 2 * (c - i) && j % 2 == 0 {
        step_of(Phase::Work((i + j / 2) as u64), cfg)
    } else if j < 2 * (c - i) {
        step_of(Phase::ShortBreak((i + (j - 1) / 2) as u64), cfg)
    } else if j == 2 * (c - i) {
        step_of(Phase::LongBreak, cfg)
    } else {
        step_of(Phase::Complete, cfg)
    }
}

proof fn lemma_trace_from_work(cfg: Config, i: u64)
    requires
        cfg.wf(),
        i < cfg.cycles_before_long_break,
    ensures
        trace_from(Phase::Work(i), cfg).len() == 2 * (cfg.cycles_before_long_break - i) + 2,
        forall|j: int|
            0 <= j < trace_from(Phase::Work(i), cfg).len() ==> #[trigger] trace_from(
                Phase::Work(i),
                cfg,
            )[j] == tail_step(cfg, i, j),
    decreases cfg.cycles_before_long_break - i,
{
    let c = cfg.cycles_before_long_break;
    let t = trace_from(Phase::Work(i), cfg);
    assert(trace_from(Phase::Work(i), cfg) == seq![step_of(Phase::Work(i), cfg)] + trace_from(
        Phase::ShortBreak(i),
        cfg,
    ));
    assert(trace_from(Phase::ShortBreak(i), cfg) == seq![step_of(Phase::ShortBreak(i), cfg)]
        + trace_from(next_after_short(cfg, i), cfg));
    assert(t =~= seq![step_of(Phase::Work(i), cfg)] + seq![step_of(Phase::ShortBreak(i), cfg)]
        + trace_from(next_after_short(cfg, i), cfg));
    if i + 1 < c {
        lemma_trace_from_work(cfg, (i + 1) as u64);
        let rest = trace_from(Phase::Work((i + 1) as u64), cfg);
        assert forall|j: int| 0 <= j < t.len() implies #[trigger] t[j] == tail_step(
            cfg,
            i,
            j,
        ) by {
            if j >= 2 {
                assert(t[j] == rest[j - 2]);
                assert(rest[j - 2] == tail_step(cfg, (i + 1) as u64, j - 2));
                if j < 2 * (c - i) && j % 2 == 0 {
                    assert(i + j / 2 == (i + 1) + (j - 2) / 2);
                } else if j < 2 * (c - i) {
                    assert(i + (j - 1) / 2 == (i + 1) + (j - 3) / 2);
                }
            }
        }
    } else {
        assert(trace_from(Phase::Complete, cfg) == seq![step_of(Phase::Complete, cfg)]
            + trace_from(Phase::Done, cfg));
        assert(trace_from(Phase::Done, cfg) == Seq::<Step>::empty());
        assert(trace_from(Phase::LongBreak, cfg) =~= seq![step_of(Phase::LongBreak, cfg)]
            + seq![step_of(Phase::Complete, cfg)]);
        assert(t.len() == 4);
    }
}

/// The phase that follows the short break of cycle `i`.
spec fn next_after_short(cfg: Config, i: u64) -> Phase {
    if i + 1 < cfg.cycles_before_long_break {
        Phase::Work((i + 1) as u64)
    } else {
        Phase::LongBreak
    }
}

/// A session performs exactly `2 * cycles + 3` steps — one announcement,
/// a work and a short-break step per cycle, the long break, and the
/// completion notice — and the step at every position is pinned down by
/// `schedule_step`.
pub proof fn lemma_schedule_shape(cfg: Config)
    requires
        cfg.wf(),
    ensures
        schedule(cfg).len() == 2 * cfg.cycles_before_long_break + 3,
        forall|j: int|
            0 <= j < schedule(cfg).len() ==> #[trigger] schedule(cfg)[j] == schedule_step(cfg, j),
{
    lemma_trace_from_work(cfg, 0);
    let s = schedule(cfg);
    assert(s == seq![step_of(Phase::Start, cfg)] + trace_from(Phase::Work(0), cfg));
    assert forall|j: int| 0 <= j < s.len() implies #[trigger] s[j] == schedule_step(cfg, j) by {
        if j >= 1 {
            assert(s[j] == trace_from(Phase::Work(0), cfg)[j - 1]);
            assert(trace_from(Phase::Work(0), cfg)[j - 1] == tail_step(cfg, 0, j - 1));
            if j % 2 == 1 {
                assert((j - 1) % 2 == 0 && (j - 1) / 2 == (j - 1) / 2);
            }
        }
    }
}

/// The seconds a sequence of steps spends suspended, in total.
pub open spec fn total_sleep(s: Seq<Step>) -> int
    decreases s.len(),
{
    if s.len() == 0 {
        0
    } else {
        s[0].sleep_secs + total_sleep(s.drop_first())
    }
}

proof fn lemma_total_sleep_cons(x: Step, rest: Seq<Step>)
    ensures
        total_sleep(seq![x] + rest) == x.sleep_secs + total_sleep(rest),
{
    let s = seq![x] + rest;
    assert(s.len() == 1 + rest.len());
    assert(s[0] == x);
    assert(s.drop_first() =~= rest);
}

/// The seconds a session still spends suspended from a given phase: every
/// remaining work period, short break and — until it has passed — the long
/// break.
spec fn remaining_sleep(p: Phase, cfg: Config) -> int {
    let c = cfg.cycles_before_long_break as int;
    let w = cfg.work_minutes as int;
    let s = cfg.short_break_minutes as int;
    let l = cfg.long_break_minutes as int;
    match p {
        Phase::Start => (c * (w + s) + l) * 60,
        Phase::Work(i) => ((c - i) * (w + s) + l) * 60,
        Phase::ShortBreak(i) => ((c - 1 - i) * (w + s) + s + l) * 60,
        Phase::LongBreak => l * 60,
        Phase::Complete => 0,
        Phase::Done => 0,
    }
}

proof fn lemma_trace_sleep(p: Phase, cfg: Config)
    requires
        cfg.wf(),
        crate::session::phase_wf(p, cfg),
    ensures
        total_sleep(trace_from(p, cfg)) == remaining_sleep(p, cfg),
    decreases steps_left(p, cfg),
{
    let c = cfg.cycles_before_long_break as int;
    let w = cfg.work_minutes as int;
    let s = cfg.short_break_minutes as int;
    let l = cfg.long_break_minutes as int;
    if p is Done {
        assert(total_sleep(trace_from(p, cfg)) == 0);
    } else {
        let np = crate::session::next_phase(p, cfg);
        lemma_trace_sleep(np, cfg);
        lemma_total_sleep_cons(step_of(p, cfg), trace_from(np, cfg));
        assert(trace_from(p, cfg) == seq![step_of(p, cfg)] + trace_from(np, cfg));
        match p {
            Phase::Start => {
                assert(((c - 0) * (w + s) + l) * 60 == (c * (w + s) + l) * 60)
                    by (nonlinear_arith);
            },
            Phase::Work(i) => {
                assert(((c - i) * (w + s) + l) * 60 == w * 60 + (((c - 1 - i) * (w + s) + s + l)
                    * 60)) by (nonlinear_arith);
            },
            Phase::ShortBreak(i) => {
                if i + 1 < c {
                    assert(((c - 1 - i) * (w + s) + s + l) * 60 == s * 60 + (((c - (i + 1)) * (w
                        + s) + l) * 60)) by (nonlinear_arith);
                } else {
                    assert(((c - 1 - i) * (w + s) + s + l) * 60 == s * 60 + l * 60)
                        by (nonlinear_arith)
                        requires
                            i == c - 1,
                    ;
                }
            },
            Phase::LongBreak => {
            },
            Phase::Complete => {
            },
            Phase::Done => {
            },
        }
    }
}

/// A session's total suspended time is exactly one work period and one
/// short break per cycle, plus the long break — in seconds,
/// `(cycles * (work + short) + long) * 60`.
pub proof fn lemma_total_suspension(cfg: Config)
    requires
        cfg.wf(),
    ensures
        total_sleep(schedule(cfg)) == (cfg.cycles_before_long_break * (cfg.work_minutes
            + cfg.short_break_minutes) + cfg.long_break_minutes) * 60,
{
    lemma_trace_sleep(Phase::Start, cfg);
}

/// Exactly the steps strictly between the announcement and the completion
/// notice suspend: `2 * cycles + 1` of them, each for a positive time.
/// Whether any notification was delivered plays no part in this — a
/// session that never reaches its audience suspends just as long.
pub proof fn lemma_suspension_pattern(cfg: Config)
    requires
        cfg.wf(),
    ensures
        forall|j: int|
            0 <= j < schedule(cfg).len() ==> ((#[trigger] schedule(cfg)[j].sleep_secs > 0) <==> 1
                <= j <= 2 * cfg.cycles_before_long_break + 1),
{
    lemma_schedule_shape(cfg);
}

} // verus!
