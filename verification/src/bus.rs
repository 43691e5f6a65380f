//! Bus transfers and the transaction that sequences them.
//!
//! The driver never performs a transfer itself. It plans a list of
//! [`BusOp`]s and hands it out as a [`Transaction`]; whoever owns the
//! hardware performs the next pending transfer, reports whether it worked,
//! and repeats until nothing is pending. The first failure ends the
//! transaction: nothing after it is handed out any more.

use vstd::prelude::*;

verus! {

/// Why a transaction was abandoned.
#[derive(PartialEq, Eq, Structural, Copy, Clone, Debug)]
pub enum DisplayError {
    /// A command or data transfer on the bus failed.
    Transport,
    /// The reset line could not be driven.
    ResetLine,
}

/// One call into the hardware: a level on the reset line, a pause, or one
/// transfer on the bus.
#[derive(Debug, PartialEq, Eq)]
pub enum BusOp {
    /// Drive the reset line low.
    ResetLow,
    /// Drive the reset line high.
    ResetHigh,
    /// Wait at least this many microseconds.
    DelayUs(u32),
    /// Send one opcode in command mode.
    Command(u8),
    /// Send these bytes in data mode, in order.
    Data(Vec<u8>),
    /// Send these 16-bit values in data mode, in order, each high byte first.
    Pixels(Vec<u16>),
}

/// What a [`BusOp`] stands for, with its payload as a sequence.
pub enum Transfer {
    ResetLow,
    ResetHigh,
    DelayUs(u32),
    Command(u8),
    Data(Seq<u8>),
    Pixels(Seq<u16>),
}

impl View for BusOp {
    type V = Transfer;

    open spec fn view(&self) -> Transfer {
        match self {
            BusOp::ResetLow => Transfer::ResetLow,
            BusOp::ResetHigh => Transfer::ResetHigh,
            BusOp::DelayUs(us) => Transfer::DelayUs(*us),
            BusOp::Command(opcode) => Transfer::Command(*opcode),
            BusOp::Data(bytes) => Transfer::Data(bytes@),
            BusOp::Pixels(values) => Transfer::Pixels(values@),
        }
    }
}

/// The transfers that a list of operations stands for.
pub open spec fn script_view(ops: Seq<BusOp>) -> Seq<Transfer> {
    ops.map_values(|op: BusOp| op@)
}

/// The error that a failure of this transfer is reported as. A pause cannot
/// fail.
pub open spec fn failure_of(transfer: Transfer) -> Option<DisplayError> {
    match transfer {
        Transfer::ResetLow => Some(DisplayError::ResetLine),
        Transfer::ResetHigh => Some(DisplayError::ResetLine),
        Transfer::DelayUs(_) => None,
        Transfer::Command(_) => Some(DisplayError::Transport),
        Transfer::Data(_) => Some(DisplayError::Transport),
        Transfer::Pixels(_) => Some(DisplayError::Transport),
    }
}

/// How far a transaction has come: the number of transfers that went
/// through, and the error that ended it, if any.
pub struct Progress {
    pub done: nat,
    pub fault: Option<DisplayError>,
}

/// Nothing performed yet.
pub open spec fn start() -> Progress {
    Progress { done: 0, fault: None }
}

/// A transfer is still to be performed.
pub open spec fn is_pending(script: Seq<Transfer>, p: Progress) -> bool {
    p.fault is None && p.done < script.len()
}

/// The progress after the pending transfer was performed with outcome `ok`.
/// Without a pending transfer nothing changes.
pub open spec fn step(script: Seq<Transfer>, p: Progress, ok: bool) -> Progress {
    if !is_pending(script, p) {
        p
    } else if ok || failure_of(script[p.done as int]) is None {
        Progress { done: p.done + 1, fault: None }
    } else {
        Progress { done: p.done, fault: failure_of(script[p.done as int]) }
    }
}

/// The progress after the outcomes were reported one by one, from the start.
pub open spec fn run(script: Seq<Transfer>, outcomes: Seq<bool>) -> Progress
    decreases outcomes.len(),
{
    if outcomes.len() == 0 {
        start()
    } else {
        step(script, run(script, outcomes.drop_last()), outcomes.last())
    }
}

/// What a transaction that has come this far delivers: nothing while a
/// transfer is pending, the error that ended it, or else its value.
pub open spec fn outcome<T>(script: Seq<Transfer>, p: Progress, value: T) -> Option<
    Result<T, DisplayError>,
> {
    match p.fault {
        Some(e) => Some(Err(e)),
        None => if p.done >= script.len() {
            Some(Ok(value))
        } else {
            None
        },
    }
}

/// A planned sequence of transfers together with the value that it delivers
/// once every transfer went through.
pub struct Transaction<T> {
    ops: Vec<BusOp>,
    done: usize,
    fault: Option<DisplayError>,
    value: T,
}

impl<T> Transaction<T> {
    /// The planned transfers, in order.
    pub closed spec fn script(&self) -> Seq<Transfer> {
        script_view(self.ops@)
    }

    /// How far the transaction has come.
    pub closed spec fn progress(&self) -> Progress {
        Progress { done: self.done as nat, fault: self.fault }
    }

    /// The value delivered on success.
    pub closed spec fn value(&self) -> T {
        self.value
    }

    /// A transaction that has these operations still before it.
    pub fn new(ops: Vec<BusOp>, value: T) -> (t: Self)
        ensures
            t.script() == script_view(ops@),
            t.progress() == start(),
            t.value() == value,
    {
        Transaction { ops, done: 0, fault: None, value }
    }

    /// All planned operations, performed or not.
    pub fn ops(&self) -> (ops: &Vec<BusOp>)
        ensures
            script_view(ops@) == self.script(),
    {
        &self.ops
    }

    /// The number of operations that went through.
    pub fn performed(&self) -> (n: usize)
        ensures
            n == self.progress().done,
    {
        self.done
    }

    /// The operation to perform next; `None` once the transaction has failed
    /// or run to its end.
    pub fn next_op(&self) -> (op: Option<&BusOp>)
        ensures
            match op {
                Some(o) => is_pending(self.script(), self.progress()) && o@ == self.script()[self.progress().done as int],
                None => !is_pending(self.script(), self.progress()),
            },
    {
        if self.fault.is_none() && self.done < self.ops.len() {
            Some(&self.ops[self.done])
        } else {
            None
        }
    }

    /// Reports whether the operation handed out by `next_op` went through.
    pub fn complete(&mut self, ok: bool)
        ensures
            final(self).script() == old(self).script(),
            final(self).value() == old(self).value(),
            final(self).progress() == step(old(self).script(), old(self).progress(), ok),
    {
        if self.fault.is_none() && self.done < self.ops.len() {
            let failure = match &self.ops[self.done] {
                BusOp::ResetLow => Some(DisplayError::ResetLine),
                BusOp::ResetHigh => Some(DisplayError::ResetLine),
                BusOp::DelayUs(_) => None,
                BusOp::Command(_) => Some(DisplayError::Transport),
                BusOp::Data(_) => Some(DisplayError::Transport),
                BusOp::Pixels(_) => Some(DisplayError::Transport),
            };
            if ok || failure.is_none() {
                self.done = self.done + 1;
            } else {
                self.fault = failure;
            }
        }
    }

    /// Ends the transaction: its value if every operation went through, the
    /// error that stopped it, or `None` while an operation is still pending.
    pub fn finish(self) -> (r: Option<Result<T, DisplayError>>)
        ensures
            r == outcome(self.script(), self.progress(), self.value()),
    {
        match self.fault {
            Some(e) => Some(Err(e)),
            None => if self.done >= self.ops.len() {
                Some(Ok(self.value))
            } else {
                None
            },
        }
    }
}

/// While every report is a success, or concerns a transfer that cannot
/// fail, the transaction advances by one transfer per report.
pub proof fn lemma_run_prefix(script: Seq<Transfer>, outcomes: Seq<bool>)
    requires
        outcomes.len() <= script.len(),
        forall|i: int|
            0 <= i < outcomes.len() ==> outcomes[i] || failure_of(#[trigger] script[i]) is None,
    ensures
        run(script, outcomes) == (Progress { done: outcomes.len(), fault: None }),
    decreases outcomes.len(),
{
    if outcomes.len() > 0 {
        lemma_run_prefix(script, outcomes.drop_last());
    }
}

/// Reports beyond the end of the script change nothing.
pub proof fn lemma_run_success(script: Seq<Transfer>, outcomes: Seq<bool>)
    requires
        outcomes.len() >= script.len(),
        forall|i: int|
            0 <= i < script.len() ==> outcomes[i] || failure_of(#[trigger] script[i]) is None,
    ensures
        run(script, outcomes) == (Progress { done: script.len(), fault: None }),
    decreases outcomes.len(),
{
    if outcomes.len() == script.len() {
        lemma_run_prefix(script, outcomes);
    } else {
        lemma_run_success(script, outcomes.drop_last());
    }
}

/// The first failed transfer ends the transaction with that transfer's
/// error: the transfers before it went through, and whatever is reported
/// afterwards no further transfer is performed.
pub proof fn lemma_run_failure(script: Seq<Transfer>, outcomes: Seq<bool>, k: int)
    requires
        0 <= k < script.len(),
        k < outcomes.len(),
        forall|i: int| 0 <= i < k ==> outcomes[i] || failure_of(#[trigger] script[i]) is None,
        !outcomes[k],
        failure_of(script[k]) is Some,
    ensures
        run(script, outcomes) == (Progress { done: k as nat, fault: failure_of(script[k]) }),
        !is_pending(script, run(script, outcomes)),
    decreases outcomes.len(),
{
    if outcomes.len() == k + 1 {
        lemma_run_prefix(script, outcomes.drop_last());
    } else {
        lemma_run_failure(script, outcomes.drop_last(), k);
    }
}

} // verus!
