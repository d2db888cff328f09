use vstd::prelude::*;

verus! {

/// A liveness probe carrying a timestamp.
#[derive(Debug, Clone, Copy, PartialEq, Eq, Structural)]
pub struct Ping {
    time: u64,
}

impl Ping {
    pub closed spec fn spec_time(&self) -> u64 {
        self.time
    }

    pub fn new(time: u64) -> (res: Ping)
        ensures
            res.spec_time() == time,
    {
        Ping { time }
    }

    /// The timestamp the probe carries.
    pub fn time(&self) -> (res: u64)
        ensures
            res == self.spec_time(),
    {
        self.time
    }

    /// A probe is its timestamp: two probes with the same time are equal.
    pub proof fn lemma_time_determines(a: Ping, b: Ping)
        requires
            a.spec_time() == b.spec_time(),
        ensures
            a == b,
    {
    }
}

/// Everything that travels on the message queue.
#[derive(Debug, Clone, Copy, PartialEq, Eq, Structural)]
pub enum Message {
    Ping(Ping),
}

} // verus!
