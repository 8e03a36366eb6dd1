//! Pipeline stall detection.
//!
//! The hotkey-to-paste pipeline spans three threads (the hotkey manager, the
//! transcription coordinator and the main event loop). Each reports a
//! heartbeat, and a watchdog checks them every few seconds. This module holds
//! the watchdog's decisions over plain values: a [`Monitor`] per component,
//! fed the component's last heartbeat, decides what to report (stall begun,
//! still stalled, recovered) so that each transition is reported once; a
//! [`ReinstallLatch`] decides when the keyboard hook is reinstalled after a
//! prolonged manager-thread stall. Times are wall-clock milliseconds.

use vstd::prelude::*;
use crate::clock::{elapsed, saturating_diff};
use crate::coordinator::{stage_code_spec, stage_label_spec, StageView};

verus! {

/// A component is considered stalled when its heartbeat is older than this.
pub const STALL_THRESHOLD_MS: u64 = 10_000;

/// Manager-thread stalls longer than this trigger an automatic hook reinstall.
pub const MANAGER_REINIT_THRESHOLD_MS: u64 = 30_000;

/// While a stall goes on, it is reported again at most this often.
pub const STALL_REPEAT_MS: u64 = 30_000;

/// How often the watchdog checks the heartbeats.
pub const CHECK_INTERVAL_MS: u64 = 5_000;

/// The name of a mirrored coordinator stage code (see
/// `coordinator::stage_code`), `?` for an unknown code.
pub open spec fn stage_name_spec(code: u8) -> Seq<char> {
    if code == 0 {
        "Idle"@
    } else if code == 1 {
        "Recording"@
    } else if code == 2 {
        "Processing"@
    } else {
        "?"@
    }
}

/// The name of a mirrored coordinator stage code: 0 = Idle, 1 = Recording,
/// 2 = Processing.
pub fn stage_name(code: u8) -> (name: &'static str)
    ensures
        name@ == stage_name_spec(code),
{
    match code {
        0 => "Idle",
        1 => "Recording",
        2 => "Processing",
        _ => "?",
    }
}

/// What a check of one component has to report.
#[derive(Clone, Copy, PartialEq, Eq, Structural, Debug)]
pub enum StallReport {
    /// Nothing new.
    Quiet,
    /// The component has just been found unresponsive for `age_ms`.
    Began { age_ms: u64 },
    /// The component is still unresponsive, now for `age_ms`.
    Ongoing { age_ms: u64 },
    /// The component responds again after a stall of about `after_ms`.
    Recovered { after_ms: u64 },
}

/// Tracks one monitored component across watchdog checks.
pub struct Monitor {
    name: &'static str,
    stalled_since: Option<u64>,
    last_report: u64,
}

/// The mathematical value of a [`Monitor`]: the component's name, when the
/// current stall began, if one is going on, and when it was last reported.
pub struct MonitorView {
    pub name: Seq<char>,
    pub stalled_since: Option<u64>,
    pub last_report: u64,
}

impl View for Monitor {
    type V = MonitorView;

    closed spec fn view(&self) -> MonitorView {
        MonitorView { name: self.name@, stalled_since: self.stalled_since, last_report: self.last_report }
    }
}

/// The outcome of a check at `now` of a component whose last heartbeat was
/// at `beat`: the monitor afterwards, the stall age returned (0 when
/// healthy) and the report.
pub open spec fn check_spec(m: MonitorView, now: u64, beat: u64) -> (MonitorView, u64, StallReport) {
    let age = saturating_diff(now, beat);
    if age > STALL_THRESHOLD_MS {
        if m.stalled_since is None {
            (MonitorView { stalled_since: Some(saturating_diff(now, age)), last_report: now, ..m }, age, StallReport::Began { age_ms: age })
        } else if saturating_diff(now, m.last_report) >= STALL_REPEAT_MS {
            (MonitorView { last_report: now, ..m }, age, StallReport::Ongoing { age_ms: age })
        } else {
            (m, age, StallReport::Quiet)
        }
    } else {
        match m.stalled_since {
            Some(since) => (MonitorView { stalled_since: None, ..m }, 0, StallReport::Recovered { after_ms: saturating_diff(now, since) }),
            None => (m, 0, StallReport::Quiet),
        }
    }
}

impl Monitor {
    /// A monitor for the component called `name`, not stalled.
    pub fn new(name: &'static str) -> (m: Monitor)
        ensures
            m@ == (MonitorView { name: name@, stalled_since: None, last_report: 0 }),
    {
        Monitor { name, stalled_since: None, last_report: 0 }
    }

    /// The component's name.
    pub fn name(&self) -> (n: &'static str)
        ensures
            n@ == self@.name,
    {
        self.name
    }

    /// When the current stall began, if one is going on.
    pub fn stalled_since(&self) -> (s: Option<u64>)
        ensures
            s == self@.stalled_since,
    {
        self.stalled_since
    }

    /// Checks the component at `now`, its last heartbeat having been at
    /// `beat`. Returns the current stall age in milliseconds (0 if healthy)
    /// and what to report: a stall when it begins, again at most every
    /// `STALL_REPEAT_MS` while it lasts, and the recovery once.
    pub fn check(&mut self, now: u64, beat: u64) -> (res: (u64, StallReport))
        ensures
            (final(self)@, res.0, res.1) == check_spec(old(self)@, now, beat),
    {
        let age: u64 = elapsed(now, beat);
        if age > STALL_THRESHOLD_MS {
            if self.stalled_since.is_none() {
                self.stalled_since = Some(elapsed(now, age));
                self.last_report = now;
                (age, StallReport::Began { age_ms: age })
            } else {
                let since_report: u64 = elapsed(now, self.last_report);
                if since_report >= STALL_REPEAT_MS {
                    self.last_report = now;
                    (age, StallReport::Ongoing { age_ms: age })
                } else {
                    (age, StallReport::Quiet)
                }
            }
        } else {
            match self.stalled_since.take() {
                Some(since) => {
                    let after: u64 = elapsed(now, since);
                    (0, StallReport::Recovered { after_ms: after })
                },
                None => (0, StallReport::Quiet),
            }
        }
    }
}

/// Remembers whether the keyboard hook has already been reinstalled for the
/// current manager-thread stall.
pub struct ReinstallLatch {
    fired_for_stall: bool,
}

impl View for ReinstallLatch {
    type V = bool;

    closed spec fn view(&self) -> bool {
        self.fired_for_stall
    }
}

/// Latch state and decision after observing a manager stall age.
pub open spec fn reinstall_spec(fired: bool, manager_age: u64) -> (bool, bool) {
    if manager_age > MANAGER_REINIT_THRESHOLD_MS {
        if !fired { (true, true) } else { (true, false) }
    } else if manager_age == 0 {
        (false, false)
    } else {
        (fired, false)
    }
}

impl ReinstallLatch {
    /// A latch that has not fired.
    pub fn new() -> (l: ReinstallLatch)
        ensures
            !l@,
    {
        ReinstallLatch { fired_for_stall: false }
    }

    /// Observes the manager thread's stall age; returns whether to reinstall
    /// the keyboard hook now. Auto-recovery fires once per stall longer
    /// than `MANAGER_REINIT_THRESHOLD_MS`, and is re-armed only once the
    /// manager thread is healthy again.
    pub fn should_reinstall(&mut self, manager_age: u64) -> (fire: bool)
        ensures
            (final(self)@, fire) == reinstall_spec(old(self)@, manager_age),
    {
        if manager_age > MANAGER_REINIT_THRESHOLD_MS {
            if !self.fired_for_stall {
                self.fired_for_stall = true;
                true
            } else {
                false
            }
        } else {
            if manager_age == 0 {
                self.fired_for_stall = false;
            }
            false
        }
    }
}

/// The watchdog names a mirrored stage exactly as the coordinator labels it.
pub proof fn law_stage_mirror_names_agree(stage: StageView)
    ensures
        stage_name_spec(stage_code_spec(stage)) == stage_label_spec(stage),
{
}

/// A healthy component (heartbeat no older than the threshold) reports a
/// stall age of 0; a stalled one reports its heartbeat's age.
pub proof fn law_check_returns_stall_age(m: MonitorView, now: u64, beat: u64)
    ensures
        saturating_diff(now, beat) <= STALL_THRESHOLD_MS ==> check_spec(m, now, beat).1 == 0,
        saturating_diff(now, beat) > STALL_THRESHOLD_MS ==> check_spec(m, now, beat).1 == saturating_diff(now, beat),
{
}

/// The beginning of a stall is reported once: a check that finds the
/// component stalled leaves the monitor so that the next check never
/// reports a beginning again, and a recovery is reported only after a stall
/// and only once.
pub proof fn law_transitions_reported_once(m: MonitorView, now1: u64, beat1: u64, now2: u64, beat2: u64)
    ensures
        ({
            let (m1, age1, r1) = check_spec(m, now1, beat1);
            let r2 = check_spec(m1, now2, beat2).2;
            &&& (age1 > 0 ==> !(r2 is Began))
            &&& (r1 is Recovered ==> m.stalled_since is Some)
            &&& (r1 is Recovered ==> !(r2 is Recovered))
            &&& (r1 is Began ==> m.stalled_since is None)
        }),
{
}

/// While a stall lasts, it is reported again no sooner than
/// `STALL_REPEAT_MS` after the previous report.
pub proof fn law_ongoing_reports_rate_limited(m: MonitorView, now1: u64, beat1: u64, now2: u64, beat2: u64)
    ensures
        ({
            let (m1, age1, r1) = check_spec(m, now1, beat1);
            let r2 = check_spec(m1, now2, beat2).2;
            (r1 is Began || r1 is Ongoing) && r2 is Ongoing ==> now2 >= now1 + STALL_REPEAT_MS
        }),
{
}

/// Runs the latch over a sequence of observed manager stall ages:
/// the latch afterwards and how many reinstalls fired.
pub open spec fn reinstall_run(fired: bool, ages: Seq<u64>) -> (bool, nat)
    decreases ages.len(),
{
    if ages.len() == 0 {
        (fired, 0)
    } else {
        let (f1, fire) = reinstall_spec(fired, ages[0]);
        let (f2, n) = reinstall_run(f1, ages.drop_first());
        (f2, if fire { n + 1 } else { n })
    }
}

/// The keyboard hook is reinstalled at most once per stall: over any run of
/// observations in which the manager thread is never seen healthy (age 0),
/// the latch fires at most once, not at all if it had already fired, and
/// stays set once it has.
pub proof fn law_reinstall_once_per_stall(fired: bool, ages: Seq<u64>)
    requires
        forall|i: int| 0 <= i < ages.len() ==> ages[i] != 0,
    ensures
        reinstall_run(fired, ages).1 <= 1,
        fired ==> reinstall_run(fired, ages).1 == 0,
        fired ==> reinstall_run(fired, ages).0,
        reinstall_run(fired, ages).1 == 1 ==> reinstall_run(fired, ages).0,
    decreases ages.len(),
{
    if ages.len() > 0 {
        let (f1, fire) = reinstall_spec(fired, ages[0]);
        assert forall|i: int| 0 <= i < ages.drop_first().len() implies ages.drop_first()[i] != 0 by {
            assert(ages.drop_first()[i] == ages[i + 1]);
        }
        law_reinstall_once_per_stall(f1, ages.drop_first());
    }
}

/// What one check reports, in terms of the heartbeat's age: a healthy
/// component (age at most the threshold) returns 0 and, if it had been
/// stalled, always reports the recovery with the stall's length, once; a
/// stalled component returns its age and reports the beginning when no
/// stall was going on (remembering when the heartbeat stopped), a reminder
/// when the last report is at least `STALL_REPEAT_MS` old, and nothing
/// otherwise. The component's name never changes.
pub proof fn law_check_reports(m: MonitorView, now: u64, beat: u64)
    ensures
        ({
            let (m1, age, r) = check_spec(m, now, beat);
            let stalled = now >= beat && now - beat > STALL_THRESHOLD_MS;
            &&& m1.name == m.name
            &&& (!stalled ==> age == 0 && m1.stalled_since is None)
            &&& (!stalled && m.stalled_since is Some ==> r == StallReport::Recovered {
                after_ms: if now >= m.stalled_since->0 { (now - m.stalled_since->0) as u64 } else { 0 },
            })
            &&& (!stalled && m.stalled_since is None ==> r == StallReport::Quiet && m1 == m)
            &&& (stalled ==> age == now - beat && m1.stalled_since is Some)
            &&& (stalled && m.stalled_since is None ==> r == StallReport::Began { age_ms: age }
                && m1.stalled_since == Some(beat) && m1.last_report == now)
            &&& (stalled && m.stalled_since is Some && now >= m.last_report && now - m.last_report >= STALL_REPEAT_MS ==>
                r == StallReport::Ongoing { age_ms: age } && m1.last_report == now && m1.stalled_since == m.stalled_since)
            &&& (stalled && m.stalled_since is Some && !(now >= m.last_report && now - m.last_report >= STALL_REPEAT_MS) ==>
                r == StallReport::Quiet && m1 == m)
        }),
{
}

/// A stall that began is followed, at the first healthy check, by its
/// recovery, however short the stall was.
pub proof fn law_begun_stall_recovers(m: MonitorView, now1: u64, beat1: u64, now2: u64, beat2: u64)
    requires
        check_spec(m, now1, beat1).2 is Began,
        saturating_diff(now2, beat2) <= STALL_THRESHOLD_MS,
    ensures
        check_spec(check_spec(m, now1, beat1).0, now2, beat2).2 == (StallReport::Recovered { after_ms: saturating_diff(now2, beat1) }),
{
}

/// The latch fires exactly on a stall longer than the threshold while not
/// already fired; it stays set through the stall, is re-armed only by a
/// healthy (age 0) observation, and is untouched by other ages.
pub proof fn law_reinstall_decisions(fired: bool, age: u64)
    ensures
        reinstall_spec(fired, age).1 <==> (age > MANAGER_REINIT_THRESHOLD_MS && !fired),
        age > MANAGER_REINIT_THRESHOLD_MS ==> reinstall_spec(fired, age).0,
        age == 0 ==> !reinstall_spec(fired, age).0,
        0 < age <= MANAGER_REINIT_THRESHOLD_MS ==> reinstall_spec(fired, age).0 == fired,
{
}

/// Stage codes 0, 1 and 2 name the stages; every other code is `?`.
pub proof fn law_stage_names(code: u8)
    ensures
        stage_name_spec(0) == "Idle"@,
        stage_name_spec(1) == "Recording"@,
        stage_name_spec(2) == "Processing"@,
        code > 2 ==> stage_name_spec(code) == "?"@,
{
}

} // verus!
