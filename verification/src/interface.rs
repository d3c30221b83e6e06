//! The operations a driver asks of the bus that connects it to the controller.
//!
//! A driver describes its traffic as a list of [`BusOp`] values. Whoever owns
//! the pins performs them one after the other, led by a [`Run`]: it hands out
//! the next operation, takes back whether the bus carried it out, and hands
//! out nothing more once an operation has failed. The bus has no way to
//! recover from a lost byte, so nothing is ever tried twice.
use vstd::prelude::*;

verus! {

/// One operation on the bus.
#[derive(Debug, PartialEq, Eq)]
pub enum BusOp {
    /// Pulse the hardware reset line, holding it for `hold_ms` milliseconds.
    Reset { hold_ms: u32 },
    /// Pause for `ms` milliseconds.
    Delay { ms: u32 },
    /// Block until the status line reports idle.
    WaitUntilIdle { idle_level_is_low: bool },
    /// Select the device, send the opcode, deselect.
    Command { opcode: u8 },
    /// Select the device, send the opcode, then the payload as data.
    CommandWithData { opcode: u8, data: Vec<u8> },
    /// Send `count` repetitions of `byte` as data, without a fresh opcode.
    DataFill { byte: u8, count: u32 },
}

/// What a [`BusOp`] stands for: the same operation with its payload as a
/// sequence of bytes.
pub enum Transfer {
    Reset { hold_ms: u32 },
    Delay { ms: u32 },
    WaitUntilIdle { idle_level_is_low: bool },
    Command { opcode: u8 },
    CommandWithData { opcode: u8, data: Seq<u8> },
    DataFill { byte: u8, count: u32 },
}

impl View for BusOp {
    type V = Transfer;

    open spec fn view(&self) -> Transfer {
        match *self {
            BusOp::Reset { hold_ms } => Transfer::Reset { hold_ms },
            BusOp::Delay { ms } => Transfer::Delay { ms },
            BusOp::WaitUntilIdle { idle_level_is_low } => Transfer::WaitUntilIdle {
                idle_level_is_low,
            },
            BusOp::Command { opcode } => Transfer::Command { opcode },
            BusOp::CommandWithData { opcode, data } => Transfer::CommandWithData {
                opcode,
                data: data@,
            },
            BusOp::DataFill { byte, count } => Transfer::DataFill { byte, count },
        }
    }
}

impl DeepView for BusOp {
    type V = Transfer;

    open spec fn deep_view(&self) -> Transfer {
        self@
    }
}

/// How far a list of bus operations has been carried out.
pub struct RunState {
    /// The operations, in the order in which they are due.
    pub ops: Seq<Transfer>,
    /// How many of them the bus has carried out.
    pub done: int,
    /// Whether the operation after those has failed.
    pub failed: bool,
}

impl RunState {
    /// The state before anything of `ops` is carried out.
    pub open spec fn start(ops: Seq<Transfer>) -> RunState {
        RunState { ops, done: 0, failed: false }
    }

    /// The operation that is due, if any: the first one not yet carried out,
    /// unless an operation has failed.
    pub open spec fn pending(self) -> Option<Transfer> {
        if !self.failed && 0 <= self.done < self.ops.len() {
            Some(self.ops[self.done])
        } else {
            None
        }
    }

    /// The state after the bus has reported on the pending operation. A
    /// success moves on to the next operation, a failure ends the run; with
    /// nothing pending the report changes nothing.
    pub open spec fn record(self, succeeded: bool) -> RunState {
        if self.pending().is_none() {
            self
        } else if succeeded {
            RunState { done: self.done + 1, ..self }
        } else {
            RunState { failed: true, ..self }
        }
    }

    /// Whether every operation has been carried out.
    pub open spec fn complete(self) -> bool {
        !self.failed && self.done == self.ops.len()
    }

    /// The state after `n` successes in a row.
    pub open spec fn record_successes(self, n: nat) -> RunState
        decreases n,
    {
        if n == 0 {
            self
        } else {
            self.record(true).record_successes((n - 1) as nat)
        }
    }
}

/// Once an operation has failed, nothing is pending and no report changes
/// that: a failed operation is never tried again and none follows it.
pub proof fn lemma_failure_ends_run(state: RunState, succeeded: bool)
    requires
        state.failed,
    ensures
        state.pending().is_none(),
        state.record(succeeded) == state,
{
}

/// A failure leaves the count of operations carried out as it was, and the
/// operation that failed is the one that was pending.
pub proof fn lemma_failure_keeps_count(state: RunState)
    requires
        state.pending().is_some(),
    ensures
        state.record(false).failed,
        state.record(false).done == state.done,
        state.record(false).ops == state.ops,
{
}

/// Operations are handed out in order: after `n` successes from the start,
/// with `n` less than the number of operations, operation `n` is pending.
pub proof fn lemma_successes_lead_in_order(ops: Seq<Transfer>, n: nat)
    requires
        n < ops.len(),
    ensures
        RunState::start(ops).record_successes(n).pending() == Some(ops[n as int]),
{
    lemma_successes_advance(RunState::start(ops), n);
}

/// A run is complete exactly after as many successes as it has operations.
pub proof fn lemma_successes_complete_run(ops: Seq<Transfer>)
    ensures
        RunState::start(ops).record_successes(ops.len()).complete(),
        forall|n: nat| n < ops.len() ==> !(#[trigger] RunState::start(ops).record_successes(n)).complete(),
{
    lemma_successes_advance(RunState::start(ops), ops.len());
    assert forall|n: nat| n < ops.len() implies !(#[trigger] RunState::start(ops).record_successes(
        n,
    )).complete() by {
        lemma_successes_advance(RunState::start(ops), n);
    }
}

/// `n` successes move a run that has not failed `n` operations on, as long as
/// that many are left.
pub proof fn lemma_successes_advance(state: RunState, n: nat)
    requires
        !state.failed,
        0 <= state.done,
        state.done + n <= state.ops.len(),
    ensures
        state.record_successes(n) == (RunState { done: state.done + n, ..state }),
    decreases n,
{
    if n > 0 {
        lemma_successes_advance(state.record(true), (n - 1) as nat);
    }
}

/// Leads the owner of the bus through a list of operations.
pub struct Run {
    ops: Vec<BusOp>,
    done: usize,
    failed: bool,
}

impl View for Run {
    type V = RunState;

    closed spec fn view(&self) -> RunState {
        RunState { ops: self.ops.deep_view(), done: self.done as int, failed: self.failed }
    }
}

impl Run {
    #[verifier::type_invariant]
    spec fn in_bounds(self) -> bool {
        self.done <= self.ops.len()
    }

    /// A run of `ops` of which nothing has been carried out yet.
    pub fn new(ops: Vec<BusOp>) -> (run: Run)
        ensures
            run@ == RunState::start(ops.deep_view()),
    {
        Run { ops, done: 0, failed: false }
    }

    /// The operation to carry out next, or `None` when the run has ended.
    pub fn pending(&self) -> (op: Option<&BusOp>)
        ensures
            match op {
                Some(op) => self@.pending() == Some(op@),
                None => self@.pending().is_none(),
            },
    {
        if !self.failed && self.done < self.ops.len() {
            Some(&self.ops[self.done])
        } else {
            None
        }
    }

    /// Takes the bus's report on the pending operation.
    pub fn record(&mut self, succeeded: bool)
        ensures
            final(self)@ == old(self)@.record(succeeded),
    {
        proof {
            use_type_invariant(&*self);
        }
        if !self.failed && self.done < self.ops.len() {
            if succeeded {
                self.done = self.done + 1;
            } else {
                self.failed = true;
            }
        }
    }

    /// Whether every operation has been carried out.
    pub fn is_complete(&self) -> (complete: bool)
        ensures
            complete == self@.complete(),
    {
        !self.failed && self.done == self.ops.len()
    }

    /// Whether an operation has failed.
    pub fn has_failed(&self) -> (failed: bool)
        ensures
            failed == self@.failed,
    {
        self.failed
    }
}

/// Whether a status line at the given level reports a busy controller, for a
/// controller whose idle level is as given.
pub open spec fn spec_line_is_busy(idle_level_is_low: bool, line_is_low: bool) -> bool {
    line_is_low != idle_level_is_low
}

/// Whether a status line at the given level reports a busy controller: it
/// does exactly when the line is not at the controller's idle level.
pub fn line_is_busy(idle_level_is_low: bool, line_is_low: bool) -> (busy: bool)
    ensures
        busy == spec_line_is_busy(idle_level_is_low, line_is_low),
{
    line_is_low != idle_level_is_low
}

} // verus!
