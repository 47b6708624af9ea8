//! What the loop is configured with.

use vstd::prelude::*;
use crate::session::{Model, Session, NANOS_PER_MILLI};

verus! {

/// The options of the emitter.
#[derive(Debug)]
pub struct Config {
    /// The address of the collector that readings are sent to.
    pub forward_addr: String,
    /// The retry budget: how many connection attempts may fail in a row,
    /// after the first, before the loop gives up.
    pub max_tries: usize,
    /// The tick period, in milliseconds.
    pub interval: u64,
}

impl Config {
    /// The session that a loop with these options starts from.
    pub fn session(&self) -> (session: Session)
        ensures
            session@ == Model::fresh(
                self.max_tries as nat,
                self.interval as nat * NANOS_PER_MILLI as nat,
            ),
            session@.valid(),
    {
        Session::new(self.max_tries, self.interval)
    }
}

} // verus!
