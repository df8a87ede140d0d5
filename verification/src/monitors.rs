//! What the fuzzer measures of its own work.

use vstd::prelude::*;
use crate::metadata::NameMap;

verus! {

/// The time that a feedback has taken in all, once `elapsed` more is added to what was
/// noted for it in `times`: never more than the counter can hold.
pub open spec fn time_with(times: Map<Seq<char>, u64>, name: Seq<char>, elapsed: u64) -> u64 {
    let before: u64 = if times.contains_key(name) {
        times[name]
    } else {
        0
    };
    if before + elapsed > u64::MAX {
        u64::MAX
    } else {
        (before + elapsed) as u64
    }
}

/// The time that each feedback has taken to judge the runs, by the feedback's name.
pub struct ClientPerfMonitor {
    feedbacks: NameMap<u64>,
}

impl ClientPerfMonitor {
    /// The time noted for each feedback.
    pub closed spec fn feedback_times(&self) -> Map<Seq<char>, u64> {
        self.feedbacks@
    }

    /// A monitor that has noted nothing.
    pub fn new() -> (monitor: Self)
        ensures
            monitor.feedback_times() == Map::<Seq<char>, u64>::empty(),
    {
        ClientPerfMonitor { feedbacks: NameMap::new() }
    }

    /// The time noted for the feedback called `name`; zero where none is noted.
    pub fn feedback_time(&self, name: &str) -> (time: u64)
        ensures
            time == time_with(self.feedback_times(), name@, 0),
    {
        match self.feedbacks.get(name) {
            Some(time) => *time,
            None => 0,
        }
    }

    /// Adds `elapsed` to the time noted for the feedback called `name`.
    pub fn update_feedback(&mut self, name: &str, elapsed: u64)
        ensures
            final(self).feedback_times() == old(self).feedback_times().insert(
                name@,
                time_with(old(self).feedback_times(), name@, elapsed),
            ),
    {
        let before = self.feedback_time(name);
        let after = if before > u64::MAX - elapsed {
            u64::MAX
        } else {
            before + elapsed
        };
        self.feedbacks.insert(name, after);
    }
}

} // verus!
