//! What the answers of the operating system about other processes mean.

use super::error::{NotifyError, ProbeFailure};
use vstd::prelude::*;

verus! {

/// How the operating system answered `kill(pid, signal)`.
#[derive(Clone, Copy, Debug, PartialEq, Eq, Structural)]
pub enum KillAnswer {
    /// The call returned zero.
    Delivered,
    /// The call failed with `ESRCH`.
    NoSuchProcess,
    /// The call failed with `EPERM`.
    NotPermitted(ProbeFailure),
    /// The call failed otherwise.
    Failed(ProbeFailure),
}

/// Whether a peer got the wakeup signal.
pub open spec fn signalled(pid: i32, answer: KillAnswer) -> Result<bool, NotifyError> {
    if pid <= 0 {
        Ok(false)
    } else {
        match answer {
            KillAnswer::Delivered => Ok(true),
            KillAnswer::NoSuchProcess => Ok(false),
            KillAnswer::NotPermitted(f) => Err(NotifyError::Signal(f)),
            KillAnswer::Failed(f) => Err(NotifyError::Signal(f)),
        }
    }
}

/// Whether a process is alive.
pub open spec fn alive(pid: i32, answer: KillAnswer) -> Result<bool, ProbeFailure> {
    if pid <= 0 {
        Ok(false)
    } else {
        match answer {
            KillAnswer::Delivered => Ok(true),
            KillAnswer::NoSuchProcess => Ok(false),
            KillAnswer::NotPermitted(_) => Ok(true),
            KillAnswer::Failed(f) => Err(f),
        }
    }
}

/// Reads the answer to a wakeup signal. No process id below one is signalled.
pub fn signal_pid_usr1(pid: i32, answer: KillAnswer) -> (r: Result<bool, NotifyError>)
    ensures
        r == signalled(pid, answer),
{
    if pid <= 0 {
        return Ok(false);
    }
    match answer {
        KillAnswer::Delivered => Ok(true),
        KillAnswer::NoSuchProcess => Ok(false),
        KillAnswer::NotPermitted(f) => Err(NotifyError::Signal(f)),
        KillAnswer::Failed(f) => Err(NotifyError::Signal(f)),
    }
}

/// Reads the answer to a probe with signal zero. A process that may not be
/// signalled is alive.
pub fn probe_pid_alive(pid: i32, answer: KillAnswer) -> (r: Result<bool, ProbeFailure>)
    ensures
        r == alive(pid, answer),
{
    if pid <= 0 {
        return Ok(false);
    }
    match answer {
        KillAnswer::Delivered => Ok(true),
        KillAnswer::NoSuchProcess => Ok(false),
        KillAnswer::NotPermitted(_) => Ok(true),
        KillAnswer::Failed(f) => Err(f),
    }
}

/// Answers to liveness probes, by process id.
#[derive(Debug)]
pub struct LivenessTable {
    /// Probed process ids with their answers; the first entry of an id counts.
    pub entries: Vec<(i32, KillAnswer)>,
    /// The answer for every other process id.
    pub otherwise: KillAnswer,
}

/// The answer that a list of probes holds for a process id.
pub open spec fn answer_in(
    entries: Seq<(i32, KillAnswer)>,
    otherwise: KillAnswer,
    pid: i32,
) -> KillAnswer
    decreases entries.len(),
{
    if entries.len() == 0 {
        otherwise
    } else if entries[0].0 == pid {
        entries[0].1
    } else {
        answer_in(entries.drop_first(), otherwise, pid)
    }
}

impl LivenessTable {
    /// What the table says of a process.
    pub open spec fn says(self, pid: i32) -> Result<bool, ProbeFailure> {
        alive(pid, answer_in(self.entries@, self.otherwise, pid))
    }

    /// What a reset makes of a process id in a slot: zero stands for nobody.
    pub open spec fn actor(self, pid: i32) -> Result<bool, ProbeFailure> {
        if pid == 0 {
            Ok(false)
        } else {
            self.says(pid)
        }
    }

    /// Looks a process up.
    pub fn probe(&self, pid: i32) -> (r: Result<bool, ProbeFailure>)
        ensures
            r == self.says(pid),
    {
        let mut i: usize = 0;
        assert(self.entries@.skip(0) =~= self.entries@);
        while i < self.entries.len()
            invariant
                i <= self.entries@.len(),
                answer_in(self.entries@, self.otherwise, pid) == answer_in(
                    self.entries@.skip(i as int),
                    self.otherwise,
                    pid,
                ),
            decreases self.entries.len() - i,
        {
            assert(self.entries@.skip(i as int)[0] == self.entries@[i as int]);
            assert(self.entries@.skip(i as int).drop_first() =~= self.entries@.skip(i + 1));
            if self.entries[i].0 == pid {
                return probe_pid_alive(pid, self.entries[i].1);
            }
            i = i + 1;
        }
        probe_pid_alive(pid, self.otherwise)
    }

    /// Looks up the process that a slot in transition belongs to.
    pub fn probe_actor(&self, pid: i32) -> (r: Result<bool, ProbeFailure>)
        ensures
            r == self.actor(pid),
    {
        if pid == 0 {
            return Ok(false);
        }
        self.probe(pid)
    }
}

} // verus!
