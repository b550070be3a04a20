//! The state of one test over time: failing, recovering, or as it should be.

use crate::bindings::{clock_now, seconds_from};
use std::time::SystemTime;
use vstd::prelude::*;

verus! {

/// The state of a test.
#[derive(Debug, Clone, Copy, PartialEq, Eq, Structural)]
pub enum JobSMStates {
    Normative,
    Failure,
    Recovery,
}

/// What the clock showed when a state was entered: the whole seconds since the
/// last change of state (`None` where the clock went backwards), and the time.
#[derive(Debug, Clone, Copy)]
pub struct ClockReading {
    pub elapsed: Option<u64>,
    pub now: SystemTime,
}

impl ClockReading {
    /// How long the last state lasted, in seconds.
    pub open spec fn lasted(self) -> u64 {
        match self.elapsed {
            Some(seconds) => seconds,
            None => 0,
        }
    }

    /// Whether a reading is one of the clock, and its seconds are those from the
    /// given time to what the clock showed.
    pub open spec fn counts_from(self, since: SystemTime) -> bool {
        &&& crate::bindings::was_read(self.now)
        &&& self.elapsed == crate::bindings::seconds_between(since, self.now)
    }

    /// Reads the clock, against an earlier time.
    fn take(since: &SystemTime) -> (reading: ClockReading)
        ensures
            reading.counts_from(*since),
    {
        let now = clock_now();
        let elapsed = seconds_from(since, &now);
        ClockReading { elapsed, now }
    }
}

/// Counts the failures and recoveries of a test, and derives its state.
#[derive(Debug)]
pub struct JobStateMachine {
    pub n_failures: u64,
    pub n_recoveries: u64,
    pub state: JobSMStates,
    pub last_state: JobSMStates,
    pub last_state_lasted: u64,
    pub last_change: SystemTime,
    pub retries: u64,
    pub recovery: u64,
}

impl JobStateMachine {
    /// What every step keeps: neither counter passes its limit but while the
    /// test fails, a failing test has failed, and only such a test counts
    /// recoveries.
    pub open spec fn wf(self) -> bool {
        &&& self.n_recoveries == 0 || self.n_recoveries < self.recovery
        &&& self.state is Normative ==> self.n_failures == 0 || self.n_failures < self.retries
        &&& self.state is Failure ==> self.n_failures >= 1
        &&& self.state is Recovery ==> self.n_failures == 0
        &&& self.state !is Failure ==> self.n_recoveries == 0
    }

    /// Whether the last step changed the state.
    pub open spec fn changed(self) -> bool {
        self.last_state != self.state
    }

    /// The machine before the first result.
    pub open spec fn fresh(retries: u64, recovery: u64, now: SystemTime) -> JobStateMachine {
        JobStateMachine {
            n_failures: 0,
            n_recoveries: 0,
            state: JobSMStates::Normative,
            last_state: JobSMStates::Normative,
            last_state_lasted: 0,
            last_change: now,
            retries,
            recovery,
        }
    }

    /// The machine once it is in the given state: the clock counts only where
    /// that state is another one.
    pub open spec fn entered(self, state: JobSMStates, reading: ClockReading) -> JobStateMachine {
        if self.state == state {
            JobStateMachine { last_state: state, ..self }
        } else {
            JobStateMachine {
                state,
                last_state: self.state,
                last_state_lasted: reading.lasted(),
                last_change: reading.now,
                ..self
            }
        }
    }

    /// The machine after a failed test.
    pub open spec fn lost(self, reading: ClockReading) -> JobStateMachine {
        let counted = JobStateMachine {
            n_failures: (self.n_failures + 1) as u64,
            n_recoveries: 0,
            ..self
        };
        if self.state is Normative && counted.n_failures < self.retries {
            counted
        } else {
            counted.entered(JobSMStates::Failure, reading)
        }
    }

    /// The machine after a passed test.
    pub open spec fn won(self, reading: ClockReading) -> JobStateMachine {
        match self.state {
            JobSMStates::Normative => JobStateMachine {
                n_failures: 0,
                last_state: JobSMStates::Normative,
                ..self
            },
            JobSMStates::Failure => if self.n_recoveries + 1 < self.recovery {
                JobStateMachine { n_recoveries: (self.n_recoveries + 1) as u64, ..self }
            } else {
                JobStateMachine { n_failures: 0, n_recoveries: 0, ..self }.entered(
                    JobSMStates::Recovery,
                    reading,
                )
            },
            JobSMStates::Recovery => JobStateMachine {
                last_state: JobSMStates::Recovery,
                ..self
            },
        }
    }

    /// The machine once a recovery has been taken note of.
    pub open spec fn settled(self, reading: ClockReading) -> JobStateMachine {
        if self.state is Recovery {
            self.entered(JobSMStates::Normative, reading)
        } else {
            self
        }
    }

    /// A machine at the given time.
    pub fn new_at(retries: u64, recovery: u64, now: SystemTime) -> (machine: JobStateMachine)
        ensures
            machine == Self::fresh(retries, recovery, now),
            machine.last_change == now,
            machine.retries == retries,
            machine.recovery == recovery,
            machine.n_failures == 0,
            machine.n_recoveries == 0,
            machine.state is Normative,
            machine.last_state is Normative,
            machine.last_state_lasted == 0,
            machine.wf(),
    {
        JobStateMachine {
            n_failures: 0,
            n_recoveries: 0,
            state: JobSMStates::Normative,
            last_state: JobSMStates::Normative,
            last_state_lasted: 0,
            last_change: now,
            retries,
            recovery,
        }
    }

    /// A machine that starts now.
    pub fn new(retries: u64, recovery: u64) -> (machine: JobStateMachine)
        ensures
            exists|now: SystemTime|
                crate::bindings::was_read(now) && machine == #[trigger] Self::fresh(
                    retries,
                    recovery,
                    now,
                ),
            crate::bindings::was_read(machine.last_change),
            machine.retries == retries,
            machine.recovery == recovery,
            machine.n_failures == 0,
            machine.n_recoveries == 0,
            machine.state is Normative,
            machine.last_state is Normative,
            machine.last_state_lasted == 0,
            machine.wf(),
    {
        let now = clock_now();
        Self::new_at(retries, recovery, now)
    }

    /// Whether the last step changed the state.
    pub fn state_changed(&self) -> (changed: bool)
        ensures
            changed == self.changed(),
            changed == (self.last_state != self.state),
    {
        self.last_state != self.state
    }

    /// Enters a state, with what the clock shows at that moment.
    pub fn state_at(&mut self, state: JobSMStates, reading: ClockReading)
        ensures
            *final(self) == old(self).entered(state, reading),
    {
        self.last_state = self.state;
        self.state = state;
        if self.state_changed() {
            self.last_state_lasted = match reading.elapsed {
                Some(seconds) => seconds,
                None => 0,
            };
            self.last_change = reading.now;
        }
    }

    /// Enters a state now.
    pub fn state(&mut self, state: JobSMStates)
        ensures
            exists|reading: ClockReading|
                reading.counts_from(old(self).last_change) && *final(self)
                    == #[trigger] old(self).entered(state, reading),
            final(self).state != old(self).state ==> crate::bindings::was_read(
                final(self).last_change,
            ),
            final(self).state != old(self).state ==> final(self).last_state_lasted == (
            match crate::bindings::seconds_between(
                old(self).last_change,
                final(self).last_change,
            ) {
                Some(seconds) => seconds,
                None => 0,
            }),
            final(self).state == old(self).state ==> final(self).last_change == old(
                self,
            ).last_change,
            final(self).state == old(self).state ==> final(self).last_state_lasted == old(
                self,
            ).last_state_lasted,
    {
        let reading = ClockReading::take(&self.last_change);
        self.state_at(state, reading);
    }

    /// Takes note of a failed test, with what the clock shows at that moment.
    pub fn loss_at(&mut self, reading: ClockReading)
        requires
            old(self).n_failures < u64::MAX,
        ensures
            *final(self) == old(self).lost(reading),
            old(self).wf() ==> final(self).wf(),
    {
        self.n_failures = self.n_failures + 1;
        self.n_recoveries = 0;
        match self.state {
            JobSMStates::Normative => {
                if self.n_failures >= self.retries {
                    self.state_at(JobSMStates::Failure, reading);
                }
            },
            JobSMStates::Failure => {
                self.last_state = JobSMStates::Failure;
            },
            JobSMStates::Recovery => {
                self.state_at(JobSMStates::Failure, reading);
            },
        }
    }

    /// Takes note of a failed test.
    pub fn loss(&mut self)
        requires
            old(self).n_failures < u64::MAX,
        ensures
            exists|reading: ClockReading|
                reading.counts_from(old(self).last_change) && *final(self)
                    == #[trigger] old(self).lost(reading),
            final(self).state != old(self).state ==> crate::bindings::was_read(
                final(self).last_change,
            ),
            final(self).state != old(self).state ==> final(self).last_state_lasted == (
            match crate::bindings::seconds_between(
                old(self).last_change,
                final(self).last_change,
            ) {
                Some(seconds) => seconds,
                None => 0,
            }),
            final(self).state == old(self).state ==> final(self).last_change == old(
                self,
            ).last_change,
            final(self).state == old(self).state ==> final(self).last_state_lasted == old(
                self,
            ).last_state_lasted,
            old(self).wf() ==> final(self).wf(),
    {
        let reading = ClockReading::take(&self.last_change);
        self.loss_at(reading);
    }

    /// Takes note of a passed test, with what the clock shows at that moment.
    pub fn win_at(&mut self, reading: ClockReading)
        requires
            old(self).state is Failure ==> old(self).n_recoveries < u64::MAX,
        ensures
            *final(self) == old(self).won(reading),
            old(self).wf() ==> final(self).wf(),
    {
        match self.state {
            JobSMStates::Normative => {
                self.n_failures = 0;
                self.last_state = JobSMStates::Normative;
            },
            JobSMStates::Failure => {
                self.n_recoveries = self.n_recoveries + 1;
                if self.n_recoveries >= self.recovery {
                    self.n_failures = 0;
                    self.n_recoveries = 0;
                    self.state_at(JobSMStates::Recovery, reading);
                }
            },
            JobSMStates::Recovery => {
                self.last_state = JobSMStates::Recovery;
            },
        }
    }

    /// Takes note of a passed test.
    pub fn win(&mut self)
        requires
            old(self).state is Failure ==> old(self).n_recoveries < u64::MAX,
        ensures
            exists|reading: ClockReading|
                reading.counts_from(old(self).last_change) && *final(self)
                    == #[trigger] old(self).won(reading),
            final(self).state != old(self).state ==> crate::bindings::was_read(
                final(self).last_change,
            ),
            final(self).state != old(self).state ==> final(self).last_state_lasted == (
            match crate::bindings::seconds_between(
                old(self).last_change,
                final(self).last_change,
            ) {
                Some(seconds) => seconds,
                None => 0,
            }),
            final(self).state == old(self).state ==> final(self).last_change == old(
                self,
            ).last_change,
            final(self).state == old(self).state ==> final(self).last_state_lasted == old(
                self,
            ).last_state_lasted,
            old(self).wf() ==> final(self).wf(),
    {
        let reading = ClockReading::take(&self.last_change);
        self.win_at(reading);
    }

    /// Ends a recovery, with what the clock shows at that moment.
    pub fn normative_at(&mut self, reading: ClockReading)
        ensures
            *final(self) == old(self).settled(reading),
            old(self).wf() ==> final(self).wf(),
    {
        match self.state {
            JobSMStates::Normative => {},
            JobSMStates::Failure => {},
            JobSMStates::Recovery => {
                self.state_at(JobSMStates::Normative, reading);
            },
        }
    }

    /// Ends a recovery.
    pub fn normative(&mut self)
        ensures
            exists|reading: ClockReading|
                reading.counts_from(old(self).last_change) && *final(self)
                    == #[trigger] old(self).settled(reading),
            final(self).state != old(self).state ==> crate::bindings::was_read(
                final(self).last_change,
            ),
            final(self).state != old(self).state ==> final(self).last_state_lasted == (
            match crate::bindings::seconds_between(
                old(self).last_change,
                final(self).last_change,
            ) {
                Some(seconds) => seconds,
                None => 0,
            }),
            final(self).state == old(self).state ==> final(self).last_change == old(
                self,
            ).last_change,
            final(self).state == old(self).state ==> final(self).last_state_lasted == old(
                self,
            ).last_state_lasted,
            old(self).wf() ==> final(self).wf(),
    {
        let reading = ClockReading::take(&self.last_change);
        self.normative_at(reading);
    }
}

} // verus!
