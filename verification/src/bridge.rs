//! Hand-off between the driver's callback thread and the consumer of a
//! channel's batches.
//!
//! The callback reads one batch, learns from the driver's status code whether
//! the read was complete, and puts a complete batch on an unbounded queue. It
//! never blocks. A consumer that has gone away is noticed at the next
//! hand-off and ends the sampling.

use vstd::prelude::*;
use futures::channel::mpsc::UnboundedSender;
use crate::scan::BatchedScan;

verus! {

/// Error code reported for a read that failed with no fault but delivered
/// fewer samples than requested.
pub const SCAN_WARNING: i32 = i32::MAX;

/// What becomes of one callback invocation.
#[derive(Debug, Clone, Copy, PartialEq, Eq, Structural)]
pub enum CallbackVerdict {
    /// The batch is on the queue; sampling goes on.
    Forwarded,
    /// The read fell short without a fault; the batch is dropped and
    /// sampling goes on.
    Discarded,
    /// Nobody reads the queue any more; sampling stops.
    ConsumerGone,
    /// The driver reported the given fault; the channel's stream ends in
    /// error.
    Fault(i32),
}

impl CallbackVerdict {
    /// Whether the driver is to keep invoking the callback.
    pub open spec fn keeps_sampling(self) -> bool {
        self == CallbackVerdict::Forwarded || self == CallbackVerdict::Discarded
    }

    /// Decides `keeps_sampling`.
    pub fn continues(self) -> (go_on: bool)
        ensures
            go_on == self.keeps_sampling(),
    {
        match self {
            CallbackVerdict::Forwarded => true,
            CallbackVerdict::Discarded => true,
            CallbackVerdict::ConsumerGone => false,
            CallbackVerdict::Fault(_) => false,
        }
    }
}

/// The error code with which a read ends: none when the driver reported
/// success and delivered every requested sample, `SCAN_WARNING` when it
/// reported success on fewer, and the driver's own code otherwise.
pub open spec fn read_error(err_code: i32, samps_read: i32, n_samps: u32) -> Option<i32> {
    if err_code == 0 {
        if samps_read == n_samps {
            None
        } else {
            Some(SCAN_WARNING)
        }
    } else {
        Some(err_code)
    }
}

/// The verdict on a read that ended with the given error code.
pub open spec fn verdict_on_error(err_code: i32) -> CallbackVerdict {
    if err_code == SCAN_WARNING {
        CallbackVerdict::Discarded
    } else {
        CallbackVerdict::Fault(err_code)
    }
}

/// The verdict on a complete batch, given whether the queue accepted it.
pub open spec fn verdict_on_enqueue(accepted: bool) -> CallbackVerdict {
    if accepted {
        CallbackVerdict::Forwarded
    } else {
        CallbackVerdict::ConsumerGone
    }
}

/// What the callback does with a read that has returned.
pub enum HandOff<T> {
    /// Offer this batch to the queue.
    Offer(BatchedScan<T>),
    /// Offer nothing; the verdict is settled.
    Settled(CallbackVerdict),
}

/// What becomes of a read: a complete batch is offered to the queue as it
/// is, and a failed read is settled by the verdict on its error code.
pub open spec fn hand_off_of<T>(read: Result<BatchedScan<T>, i32>) -> HandOff<T> {
    match read {
        Ok(batch) => HandOff::Offer(batch),
        Err(code) => HandOff::Settled(verdict_on_error(code)),
    }
}

/// Turns what the driver reported of a read into the read's result: the
/// batch itself, or the error code that `read_error` names.
pub fn complete_read<T>(scan: BatchedScan<T>, err_code: i32, samps_read: i32, n_samps: u32) -> (read:
    Result<BatchedScan<T>, i32>)
    ensures
        match read_error(err_code, samps_read, n_samps) {
            None => read == Ok::<BatchedScan<T>, i32>(scan),
            Some(code) => read == Err::<BatchedScan<T>, i32>(code),
        },
{
    if err_code == 0 {
        if samps_read >= 0 && samps_read as u32 == n_samps {
            Ok(scan)
        } else {
            Err(SCAN_WARNING)
        }
    } else {
        Err(err_code)
    }
}

/// Decides `verdict_on_error`.
pub fn judge_error(err_code: i32) -> (verdict: CallbackVerdict)
    ensures
        verdict == verdict_on_error(err_code),
{
    if err_code == SCAN_WARNING {
        CallbackVerdict::Discarded
    } else {
        CallbackVerdict::Fault(err_code)
    }
}

/// Decides `hand_off_of`: no complete batch is held back or changed.
pub fn hand_off<T>(read: Result<BatchedScan<T>, i32>) -> (plan: HandOff<T>)
    ensures
        plan == hand_off_of(read),
{
    match read {
        Ok(batch) => HandOff::Offer(batch),
        Err(code) => HandOff::Settled(judge_error(code)),
    }
}

/// Decides `verdict_on_enqueue`.
pub fn judge_enqueue(accepted: bool) -> (verdict: CallbackVerdict)
    ensures
        verdict == verdict_on_enqueue(accepted),
{
    if accepted {
        CallbackVerdict::Forwarded
    } else {
        CallbackVerdict::ConsumerGone
    }
}

/// The sending half of the futures crate's unbounded channel, carried
/// through as it is.
#[verifier::external_type_specification]
#[verifier::external_body]
#[verifier::reject_recursive_types(T)]
pub struct ExUnboundedSender<T>(UnboundedSender<T>);

/// Calls `UnboundedSender::unbounded_send` of the futures crate and reports
/// whether the message was taken. Whether it is depends on the receiving
/// side, which lives on another thread, so nothing is claimed of the answer.
/// The call does not block. It would panic only with more messages queued
/// than half the address space can count.
#[verifier::external_body]
fn enqueue<T>(sender: &UnboundedSender<BatchedScan<T>>, batch: BatchedScan<T>) -> (accepted: bool) {
    sender.unbounded_send(batch).is_ok()
}

/// The body of the driver callback once the read has returned: a complete
/// batch is offered to the queue, a short read is dropped, a fault is passed
/// on. Sampling goes on after a short read; after a complete one it goes on
/// unless the consumer is gone.
pub fn async_read_callback_impl<T>(
    sender: &UnboundedSender<BatchedScan<T>>,
    read: Result<BatchedScan<T>, i32>,
) -> (verdict: CallbackVerdict)
    ensures
        match read {
            Ok(_) => verdict == verdict_on_enqueue(true) || verdict == verdict_on_enqueue(false),
            Err(code) => verdict == verdict_on_error(code),
        },
{
    match hand_off(read) {
        HandOff::Offer(batch) => {
            let accepted: bool = enqueue(sender, batch);
            judge_enqueue(accepted)
        },
        HandOff::Settled(verdict) => verdict,
    }
}

} // verus!
