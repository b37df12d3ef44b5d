//! The logger: filters messages by severity and fans rendered lines out to
//! an ordered list of sinks.

use vstd::prelude::*;
use crate::level::{Level, passes};
use crate::render::{render, rendered};
use crate::sink::LogOutput;
use crate::stamp::{current_timestamp, Timestamp};

verus! {

/// What one delivery attempt leaves of a single sink: either exactly the
/// rendered line was appended to it, or, when its write failed, it is
/// unchanged — and a sink that accepted the write got the line for sure.
pub open spec fn sink_outcome<S: LogOutput>(before: S, after: S, line: Seq<char>) -> bool {
    &&& (after.records() == before.records().push(line) || after.records() == before.records())
    &&& before.accepts() ==> after.records() == before.records().push(line)
}

/// What one delivered `log` call leaves of the whole sink list: the same
/// sinks, in the same order, each with the outcome of one write of `line`.
pub open spec fn delivered_all<S: LogOutput>(
    before: Seq<S>,
    after: Seq<S>,
    line: Seq<char>,
) -> bool {
    &&& after.len() == before.len()
    &&& forall|i: int|
        0 <= i < before.len() ==> #[trigger] sink_outcome(before[i], after[i], line)
}

/// What `set_level` leaves of a logger: the new threshold, with the sink
/// list untouched.
pub open spec fn set_level_post<S: LogOutput>(
    pre: Logger<S>,
    post: Logger<S>,
    level: Level,
) -> bool {
    &&& post.threshold() == level
    &&& post.sinks() == pre.sinks()
}

/// Setting the level twice in a row leaves the logger exactly as setting
/// only the last value would: nothing of an earlier call survives, so only
/// the last value set is in effect.
pub proof fn lemma_set_level_last_wins<S: LogOutput>(
    start: Logger<S>,
    mid: Logger<S>,
    end: Logger<S>,
    first: Level,
    last: Level,
)
    requires
        set_level_post(start, mid, first),
        set_level_post(mid, end, last),
    ensures
        set_level_post(start, end, last),
{
}

/// Every position of the sink list receives its own write of a delivered
/// line: attaching the same destination twice gives two positions, and
/// each of the two is written to independently.
pub proof fn lemma_each_position_written<S: LogOutput>(
    before: Seq<S>,
    after: Seq<S>,
    line: Seq<char>,
    first_pos: int,
    second_pos: int,
)
    requires
        delivered_all(before, after, line),
        0 <= first_pos < before.len(),
        0 <= second_pos < before.len(),
    ensures
        sink_outcome(before[first_pos], after[first_pos], line),
        sink_outcome(before[second_pos], after[second_pos], line),
{
}

/// One sink's failed write never keeps the line from the others: even
/// where some position shows no new record after a delivered call, every
/// other position still shows the outcome of its own, independent write.
pub proof fn lemma_failure_isolated<S: LogOutput>(
    before: Seq<S>,
    after: Seq<S>,
    line: Seq<char>,
    failed: int,
    other: int,
)
    requires
        delivered_all(before, after, line),
        0 <= failed < before.len(),
        0 <= other < before.len(),
        after[failed].records() == before[failed].records(),
    ensures
        sink_outcome(before[other], after[other], line),
{
}

/// A leveled logger: a severity threshold and an ordered list of owned
/// sinks. A message is delivered only when its severity passes the
/// threshold; a delivered message is rendered once and written to every
/// sink in attachment order, and one sink's failure never keeps the line
/// from the rest.
pub struct Logger<S> {
    level: Level,
    outputs: Vec<S>,
}

impl<S: LogOutput> Logger<S> {
    /// The current severity threshold.
    pub closed spec fn threshold(&self) -> Level {
        self.level
    }

    /// The attached sinks, in attachment order.
    pub closed spec fn sinks(&self) -> Seq<S> {
        self.outputs@
    }

    /// A fresh logger: threshold `Warning`, no sinks.
    pub fn new() -> (lg: Logger<S>)
        ensures
            lg.threshold() == Level::Warning,
            lg.sinks() == Seq::<S>::empty(),
    {
        Logger { level: Level::Warning, outputs: Vec::new() }
    }

    /// Replaces the threshold unconditionally; only the last value set is
    /// in effect.
    pub fn set_level(&mut self, level: Level)
        ensures
            set_level_post(*old(self), *final(self), level),
    {
        self.level = level;
    }

    /// Appends a sink to the end of the list, taking ownership of it. No
    /// duplicate detection: every attached sink, equal to another or not,
    /// is written to independently.
    pub fn add_output(&mut self, output: S)
        ensures
            final(self).threshold() == old(self).threshold(),
            final(self).sinks() == old(self).sinks().push(output),
    {
        self.outputs.push(output);
    }

    /// The current threshold, as a value.
    pub fn level(&self) -> (l: Level)
        ensures
            l == self.threshold(),
    {
        self.level
    }

    /// How many sinks are attached.
    pub fn output_count(&self) -> (n: usize)
        ensures
            n as int == self.sinks().len(),
    {
        self.outputs.len()
    }

    /// The sink at position `i` of the attachment order.
    pub fn output_at(&self, i: usize) -> (s: &S)
        requires
            i < self.sinks().len(),
        ensures
            *s == self.sinks()[i as int],
    {
        &self.outputs[i]
    }

    /// Logs one message. When `level` does not pass the threshold, or no
    /// sink is attached, nothing at all happens. Otherwise the message is
    /// rendered once behind a wall-clock timestamp and written to every
    /// sink in attachment order; a failed write is reported on the
    /// diagnostic stream and delivery goes on with the remaining sinks.
    /// The threshold and the sink list itself are never changed.
    pub fn log(&mut self, level: Level, msg: &str)
        ensures
            final(self).threshold() == old(self).threshold(),
            final(self).sinks().len() == old(self).sinks().len(),
            !passes(level, old(self).threshold()) ==> final(self).sinks()
                == old(self).sinks(),
            passes(level, old(self).threshold()) ==> exists|ts: Timestamp|
                ts.wf() && #[trigger] delivered_all(
                    old(self).sinks(),
                    final(self).sinks(),
                    rendered(ts, msg@),
                ),
    {
        if !level.passes_threshold(&self.level) {
            return ;
        }
        if self.outputs.len() == 0 {
            proof {
                let ts = Timestamp { hour: 0, minute: 0, second: 0, millis: 0 };
                assert(ts.wf());
                assert(delivered_all(self.sinks(), self.sinks(), rendered(ts, msg@)));
            }
            return ;
        }
        let ts = current_timestamp();
        let line = render(&ts, msg);
        let n = self.outputs.len();
        for i in 0..n
            invariant
                n == self.outputs.len(),
                self.level == old(self).level,
                self.outputs@.len() == old(self).sinks().len(),
                ts.wf(),
                line@ == rendered(ts, msg@),
                forall|j: int|
                    0 <= j < i ==> #[trigger] sink_outcome(
                        old(self).sinks()[j],
                        self.outputs@[j],
                        line@,
                    ),
                forall|j: int| i <= j < n ==> self.outputs@[j] == old(self).sinks()[j],
        {
            let out = &mut self.outputs[i];
            out.format(level);
            match out.log(line.as_str()) {
                Ok(_) => {},
                Err(e) => {
                    let sink_name = out.name();
                    crate::sink::report_write_failure(sink_name.as_str(), &e);
                },
            }
        }
        proof {
            assert(delivered_all(old(self).sinks(), self.sinks(), rendered(ts, msg@)));
        }
    }
}

} // verus!
