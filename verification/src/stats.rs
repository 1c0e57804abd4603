//! The absorber's running and interval counters, and the commands and
//! timer step that the aggregator task applies to them.
//!
//! Exactly one logical instance of the counters exists per running
//! absorber; producers reach it only through commands, so the state
//! transitions here are the whole of the aggregator's logic.  Measuring
//! elapsed time and printing the report line stay with the caller.

use vstd::prelude::*;

verus! {

/// A command a producer submits to the aggregator.
#[derive(Clone, Copy, Debug, PartialEq, Eq, Structural)]
pub enum StatsMessage {
    Increment { events: usize, bytes: usize },
    Reset,
}

/// What a timer tick hands back for reporting: the running total and the
/// counts of the interval that just ended.
#[derive(Clone, Copy, Debug, PartialEq, Eq, Structural)]
pub struct IntervalReport {
    pub total_events: usize,
    pub intv_events: usize,
    pub intv_bytes: usize,
}

/// The aggregator's counters: running totals and the counters of the
/// current reporting interval.
#[derive(Clone, Copy, Debug, PartialEq, Eq, Structural)]
pub struct AbsorberStats {
    pub total_events: usize,
    pub intv_events: usize,
    pub intv_bytes: usize,
    pub total_bytes: usize,
}

impl AbsorberStats {
    /// Fresh counters: everything at zero.
    pub fn new() -> (r: AbsorberStats)
        ensures
            r.total_events == 0,
            r.intv_events == 0,
            r.total_bytes == 0,
            r.intv_bytes == 0,
    {
        AbsorberStats { total_events: 0, intv_events: 0, intv_bytes: 0, total_bytes: 0 }
    }

    /// Applies one command: an increment adds to the running and interval
    /// counters alike; a reset zeroes everything.  The caller restarts the
    /// interval clock on a reset.
    pub fn apply(&mut self, update: &StatsMessage)
        requires
            update matches StatsMessage::Increment { events, bytes } ==> {
                &&& old(self).total_events + *events <= usize::MAX
                &&& old(self).intv_events + *events <= usize::MAX
                &&& old(self).total_bytes + *bytes <= usize::MAX
                &&& old(self).intv_bytes + *bytes <= usize::MAX
            },
        ensures
            match update {
                StatsMessage::Increment { events, bytes } => {
                    &&& final(self).total_events == old(self).total_events + *events
                    &&& final(self).intv_events == old(self).intv_events + *events
                    &&& final(self).total_bytes == old(self).total_bytes + *bytes
                    &&& final(self).intv_bytes == old(self).intv_bytes + *bytes
                },
                StatsMessage::Reset => {
                    &&& final(self).total_events == 0
                    &&& final(self).intv_events == 0
                    &&& final(self).total_bytes == 0
                    &&& final(self).intv_bytes == 0
                },
            },
    {
        match update {
            StatsMessage::Increment { events, bytes } => {
                self.total_events = self.total_events + *events;
                self.intv_events = self.intv_events + *events;
                self.total_bytes = self.total_bytes + *bytes;
                self.intv_bytes = self.intv_bytes + *bytes;
            },
            StatsMessage::Reset => {
                self.total_events = 0;
                self.intv_events = 0;
                self.total_bytes = 0;
                self.intv_bytes = 0;
            },
        }
    }

    /// One timer tick: hands back a report exactly when the interval saw
    /// events, and zeroes the interval counters either way.  The running
    /// totals are untouched; the caller restarts the interval clock and
    /// formats the report line.
    pub fn tick(&mut self) -> (r: Option<IntervalReport>)
        ensures
            r is Some <==> old(self).intv_events > 0,
            r matches Some(report) ==> {
                &&& report.total_events == old(self).total_events
                &&& report.intv_events == old(self).intv_events
                &&& report.intv_bytes == old(self).intv_bytes
            },
            final(self).total_events == old(self).total_events,
            final(self).total_bytes == old(self).total_bytes,
            final(self).intv_events == 0,
            final(self).intv_bytes == 0,
    {
        let report = if self.intv_events > 0 {
            Some(
                IntervalReport {
                    total_events: self.total_events,
                    intv_events: self.intv_events,
                    intv_bytes: self.intv_bytes,
                },
            )
        } else {
            None
        };
        self.intv_events = 0;
        self.intv_bytes = 0;
        report
    }
}

} // verus!
