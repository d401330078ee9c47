//! The output multiplexer: one write is repeated on every text-output driver,
//! in the order the drivers were registered. Every driver gets the write even
//! when an earlier one failed; the write succeeds only when all of them did.
use vstd::prelude::*;

verus! {

/// The progress of one write across the drivers.
#[derive(Clone, Copy, Debug, PartialEq, Eq, Structural)]
pub struct OutputMultiplexer {
    /// How many drivers are registered.
    pub drivers: usize,
    /// How many of them have had the current write.
    pub written: usize,
    /// How many of those failed.
    pub failures: usize,
}

impl OutputMultiplexer {
    pub open spec fn wf(self) -> bool {
        self.failures <= self.written <= self.drivers
    }

    /// The driver that gets the write next, if any is left.
    pub open spec fn next_spec(self) -> Option<usize> {
        if self.written < self.drivers {
            Some(self.written)
        } else {
            None
        }
    }

    /// The state after the current driver answered.
    pub open spec fn record_spec(self, ok: bool) -> OutputMultiplexer {
        OutputMultiplexer {
            written: (self.written + 1) as usize,
            failures: if ok {
                self.failures
            } else {
                (self.failures + 1) as usize
            },
            ..self
        }
    }

    /// The result of a finished write: the number of failed drivers, if any.
    pub open spec fn outcome_spec(self) -> Result<(), usize> {
        if self.failures == 0 {
            Ok(())
        } else {
            Err(self.failures)
        }
    }

    /// A write about to start over `drivers` drivers.
    pub fn new(drivers: usize) -> (m: OutputMultiplexer)
        ensures
            m.wf(),
            m == (OutputMultiplexer { drivers, written: 0, failures: 0 }),
    {
        OutputMultiplexer { drivers, written: 0, failures: 0 }
    }

    /// Starts the next write over the same drivers.
    pub fn begin_write(&mut self)
        ensures
            final(self).wf(),
            *final(self) == (OutputMultiplexer { drivers: old(self).drivers, written: 0, failures: 0 }),
    {
        self.written = 0;
        self.failures = 0;
    }

    /// The index of the driver to write to next, or `None` once all had it.
    pub fn next_driver(&self) -> (r: Option<usize>)
        ensures
            r == self.next_spec(),
    {
        if self.written < self.drivers {
            Some(self.written)
        } else {
            None
        }
    }

    /// Notes whether the driver just written to succeeded.
    pub fn record(&mut self, ok: bool)
        requires
            old(self).wf(),
            old(self).written < old(self).drivers,
        ensures
            final(self).wf(),
            *final(self) == old(self).record_spec(ok),
    {
        self.written = self.written + 1;
        if !ok {
            self.failures = self.failures + 1;
        }
    }

    /// The result of the write once every driver had it.
    pub fn outcome(&self) -> (r: Result<(), usize>)
        requires
            self.wf(),
            self.written == self.drivers,
        ensures
            r == self.outcome_spec(),
    {
        if self.failures == 0 {
            Ok(())
        } else {
            Err(self.failures)
        }
    }
}

/// How many of the answers are failures.
pub open spec fn failures_in(oks: Seq<bool>) -> nat
    decreases oks.len(),
{
    if oks.len() == 0 {
        0
    } else {
        failures_in(oks.drop_first()) + if oks[0] {
            0nat
        } else {
            1nat
        }
    }
}

/// Runs the protocol on the drivers' answers: the drivers written to, in
/// order, and the state at the end.
pub open spec fn drive(m: OutputMultiplexer, oks: Seq<bool>) -> (Seq<usize>, OutputMultiplexer)
    decreases oks.len(),
{
    if oks.len() == 0 {
        (Seq::empty(), m)
    } else {
        match m.next_spec() {
            Some(i) => {
                let (rest, end) = drive(m.record_spec(oks[0]), oks.drop_first());
                (seq![i].add(rest), end)
            },
            None => (Seq::empty(), m),
        }
    }
}

proof fn lemma_drive_from(m: OutputMultiplexer, oks: Seq<bool>)
    requires
        m.wf(),
        m.written + oks.len() == m.drivers,
    ensures
        drive(m, oks).0 == Seq::new(oks.len(), |i: int| (m.written + i) as usize),
        drive(m, oks).1.written == m.drivers,
        drive(m, oks).1.drivers == m.drivers,
        drive(m, oks).1.failures == m.failures + failures_in(oks),
        drive(m, oks).1.wf(),
    decreases oks.len(),
{
    if oks.len() > 0 {
        lemma_drive_from(m.record_spec(oks[0]), oks.drop_first());
        assert(drive(m, oks).0 =~= Seq::new(oks.len(), |i: int| (m.written + i) as usize));
    }
}

proof fn lemma_no_failures(oks: Seq<bool>)
    ensures
        failures_in(oks) == 0 <==> forall|i: int| 0 <= i < oks.len() ==> oks[i],
    decreases oks.len(),
{
    if oks.len() > 0 {
        lemma_no_failures(oks.drop_first());
        if failures_in(oks) == 0 {
            assert forall|i: int| 0 <= i < oks.len() implies oks[i] by {
                if i > 0 {
                    assert(oks[i] == oks.drop_first()[i - 1]);
                }
            }
        }
    }
}

/// One write over `n` drivers reaches each driver once, in registration
/// order, and succeeds exactly when every driver did.
pub proof fn lemma_write_reaches_every_driver(n: usize, oks: Seq<bool>)
    requires
        oks.len() == n,
    ensures
        drive(OutputMultiplexer { drivers: n, written: 0, failures: 0 }, oks).0 == Seq::new(
            n as nat,
            |i: int| i as usize,
        ),
        drive(OutputMultiplexer { drivers: n, written: 0, failures: 0 }, oks).1.next_spec() is None,
        drive(
            OutputMultiplexer { drivers: n, written: 0, failures: 0 },
            oks,
        ).1.outcome_spec() is Ok <==> forall|i: int| 0 <= i < n ==> oks[i],
{
    let m = OutputMultiplexer { drivers: n, written: 0, failures: 0 };
    lemma_drive_from(m, oks);
    lemma_no_failures(oks);
    assert(drive(m, oks).0 =~= Seq::new(n as nat, |i: int| i as usize));
}

} // verus!
