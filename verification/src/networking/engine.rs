//! The decisions of the receive loop: what to make of each read on the
//! channel while a probe waits for its reply.
//!
//! The loop itself, with its channel and its clock, lives with the caller.
//! After every read it reports what the read gave and how long the probe has
//! been waiting, and is told whether to read again, to stop with an outcome,
//! or to give up on a broken channel.

use vstd::prelude::*;
use vstd::slice::slice_to_vec;
use crate::networking::ethernet::EthernetHeader;
use crate::networking::osi_layers::Layer;

verus! {

/// What one read on the receive half of the channel gave.
#[derive(Clone, Copy, Debug)]
pub enum Inbound<'a> {
    /// A frame arrived.
    Frame(&'a [u8]),
    /// Nothing arrived within the time the read was willing to wait.
    Nothing,
    /// The channel failed in a way that waiting will not mend.
    Failed,
}

/// `Inbound` with the frame as a sequence of bytes.
pub enum InboundView {
    Frame(Seq<u8>),
    Nothing,
    Failed,
}

impl<'a> View for Inbound<'a> {
    type V = InboundView;

    open spec fn view(&self) -> InboundView {
        match self {
            Inbound::Frame(frame) => InboundView::Frame(frame@),
            Inbound::Nothing => InboundView::Nothing,
            Inbound::Failed => InboundView::Failed,
        }
    }
}

/// What the receive loop does next.
#[derive(Debug)]
pub enum Verdict {
    /// Read again.
    Wait,
    /// Stop with this outcome: the payload of the reply and the round-trip
    /// time in nanoseconds, or neither if the deadline passed without a
    /// reply.
    Done(Option<Vec<u8>>, Option<u64>),
    /// Stop and report the failure of the channel.
    Abort,
}

/// `Verdict` with the payload as a sequence of bytes.
pub enum VerdictView {
    Wait,
    Done(Option<Seq<u8>>, Option<u64>),
    Abort,
}

impl View for Verdict {
    type V = VerdictView;

    open spec fn view(&self) -> VerdictView {
        match self {
            Verdict::Wait => VerdictView::Wait,
            Verdict::Done(Some(payload), rtt) => VerdictView::Done(Some(payload@), *rtt),
            Verdict::Done(None, rtt) => VerdictView::Done(None, *rtt),
            Verdict::Abort => VerdictView::Abort,
        }
    }
}

/// One turn of the receive loop as the decisions see it: what the read gave
/// and the nanoseconds elapsed since the probe was sent.
pub struct Poll {
    pub inbound: InboundView,
    pub elapsed: u64,
}

/// The verdict when the read gave no reply: stop empty-handed once the time
/// elapsed has reached the timeout, read again before that.
pub open spec fn verdict_without_reply(elapsed: u64, timeout: u64) -> VerdictView {
    if elapsed >= timeout {
        VerdictView::Done(None, None)
    } else {
        VerdictView::Wait
    }
}

/// The verdict on one read. A failed channel ends the loop at once. A frame
/// that the criteria accept is the reply, whenever it arrives: the outcome
/// is what the frame carries behind its Ethernet header, and the time
/// elapsed. Any other frame counts as no frame at all.
pub open spec fn verdict_of(
    criteria: Layer,
    inbound: InboundView,
    elapsed: u64,
    timeout: u64,
) -> VerdictView {
    match inbound {
        InboundView::Failed => VerdictView::Abort,
        InboundView::Frame(frame) => if criteria.accepts(frame) {
            VerdictView::Done(Some(EthernetHeader::payload_of(frame)), Some(elapsed))
        } else {
            verdict_without_reply(elapsed, timeout)
        },
        InboundView::Nothing => verdict_without_reply(elapsed, timeout),
    }
}

/// The verdict a loop arrives at over a series of reads: that of the first
/// read which does not say to read again, or to read again if there is none.
pub open spec fn verdict_of_run(criteria: Layer, timeout: u64, polls: Seq<Poll>) -> VerdictView
    decreases polls.len(),
{
    if polls.len() == 0 {
        VerdictView::Wait
    } else {
        let first = verdict_of(criteria, polls[0].inbound, polls[0].elapsed, timeout);
        if first is Wait {
            verdict_of_run(criteria, timeout, polls.skip(1))
        } else {
            first
        }
    }
}

/// Decides what the receive loop does after one read. `elapsed` and
/// `timeout` are in nanoseconds since the probe was sent.
///
/// An outcome holds a payload and a round-trip time together or neither of
/// them.
pub fn receive_step(criteria: &Layer, inbound: Inbound<'_>, elapsed: u64, timeout: u64) -> (verdict:
    Verdict)
    ensures
        verdict@ == verdict_of(*criteria, inbound@, elapsed, timeout),
        verdict matches Verdict::Done(response, rtt) ==> (response is Some <==> rtt is Some),
{
    match inbound {
        Inbound::Failed => Verdict::Abort,
        Inbound::Frame(frame) => {
            if criteria.matches(frame) {
                let payload = slice_to_vec(EthernetHeader::payload(frame));
                Verdict::Done(Some(payload), Some(elapsed))
            } else if elapsed >= timeout {
                Verdict::Done(None, None)
            } else {
                Verdict::Wait
            }
        },
        Inbound::Nothing => {
            if elapsed >= timeout {
                Verdict::Done(None, None)
            } else {
                Verdict::Wait
            }
        },
    }
}

/// A loop to which no frame ever comes stops only by running out of time:
/// while every read falls before the timeout it keeps reading, and once a
/// read falls at or after the timeout it stops with neither payload nor
/// round-trip time.
pub proof fn lemma_silent_run_times_out(criteria: Layer, timeout: u64, polls: Seq<Poll>)
    requires
        forall|i: int| 0 <= i < polls.len() ==> polls[i].inbound is Nothing,
    ensures
        match verdict_of_run(criteria, timeout, polls) {
            VerdictView::Wait => forall|i: int| 0 <= i < polls.len() ==> polls[i].elapsed < timeout,
            VerdictView::Done(response, rtt) => response is None && rtt is None && exists|i: int|
                0 <= i < polls.len() && polls[i].elapsed >= timeout,
            VerdictView::Abort => false,
        },
    decreases polls.len(),
{
    if polls.len() > 0 {
        let rest = polls.skip(1);
        lemma_silent_run_times_out(criteria, timeout, rest);
        if polls[0].elapsed >= timeout {
            // The first read already falls at or after the timeout.
        } else if verdict_of_run(criteria, timeout, rest) is Wait {
            assert forall|i: int| 0 <= i < polls.len() implies polls[i].elapsed < timeout by {
                if i > 0 {
                    assert(rest[i - 1] == polls[i]);
                }
            }
        } else {
            let late = choose|i: int| 0 <= i < rest.len() && rest[i].elapsed >= timeout;
            assert(polls[late + 1].elapsed >= timeout);
        }
    }
}

/// Whatever is read, a loop that stops with an outcome reports a payload
/// and a round-trip time together or neither of them.
pub proof fn lemma_outcome_is_whole(criteria: Layer, timeout: u64, polls: Seq<Poll>)
    ensures
        verdict_of_run(criteria, timeout, polls) matches VerdictView::Done(response, rtt) ==> (
        response is Some <==> rtt is Some),
    decreases polls.len(),
{
    if polls.len() > 0 {
        lemma_outcome_is_whole(criteria, timeout, polls.skip(1));
    }
}

} // verus!
